use rawdio::{RenderSegment, SamplerDspProcess, SamplerEvent, SegmentGain, Timestamp, TICKS_PER_SECOND};

fn fade_value(fade_length: usize, position: usize) -> f32 {
    if position >= fade_length {
        return 1.0;
    }
    let t = 2.0 * position as f64 / fade_length as f64 - 1.0;
    (0.5 + 0.5 * (t * std::f64::consts::FRAC_PI_2).sin()) as f32
}

fn render(segments: &[RenderSegment], sample: &[f32], fade_length: usize, frame_count: usize) -> Vec<f32> {
    let mut output = vec![0.0_f32; frame_count];
    for segment in segments {
        for frame in 0..segment.frame_count {
            let gain = match segment.gain {
                SegmentGain::Unity => 1.0,
                SegmentGain::FadeIn(position) => fade_value(fade_length, position + frame),
                SegmentGain::FadeOut(position) => fade_value(fade_length, fade_length - (position + frame)),
            };
            output[segment.destination_offset + frame] += gain * sample[segment.source_position + frame];
        }
    }
    output
}

fn process_sampler_from_time(
    sampler: &mut SamplerDspProcess,
    sample: &[f32],
    frame_count: usize,
    start_time: Timestamp,
) -> Vec<f32> {
    let segments = sampler.process_audio(&start_time, frame_count);
    render(&segments, sample, sampler.fade_length(), frame_count)
}

fn process_sampler(sampler: &mut SamplerDspProcess, sample: &[f32], frame_count: usize) -> Vec<f32> {
    process_sampler_from_time(sampler, sample, frame_count, Timestamp::zero())
}

fn expect_sample(expected_value: f32, output: &[f32], frame: usize) {
    assert!(
        (expected_value - output[frame]).abs() <= 1e-2,
        "frame {frame}: expected {expected_value}, got {}",
        output[frame]
    );
}

fn expect_sample_in_range(expected_value: f32, output: &[f32], frames: std::ops::Range<usize>) {
    for frame in frames {
        expect_sample(expected_value, output, frame);
    }
}

fn step(frame_count: usize, range: std::ops::Range<usize>) -> Vec<f32> {
    (0..frame_count).map(|frame| if range.contains(&frame) { 1.0 } else { 0.0 }).collect()
}

#[test]
fn fades_in() {
    let frame_count = 10_000;
    let sample_rate = 44_100;

    let sample = vec![1.0_f32; frame_count];
    let (event_transmitter, event_receiver) = crossbeam::channel::unbounded();
    let mut sampler = SamplerDspProcess::new(sample_rate, frame_count, event_receiver);

    let _ = event_transmitter.send(SamplerEvent::start(Timestamp::zero(), Timestamp::from_samples(100, sample_rate)));

    let output = process_sampler(&mut sampler, &sample, frame_count);

    expect_sample(0.0, &output, 0);
    expect_sample(0.5, &output, sampler.fade_length() / 2);
    expect_sample(1.0, &output, sampler.fade_length());
}

#[test]
fn fades_out() {
    let frame_count = 10_000;
    let sample_rate = 44_100;

    let sample = vec![1.0_f32; frame_count];
    let (event_transmitter, event_receiver) = crossbeam::channel::unbounded();
    let mut sampler = SamplerDspProcess::new(sample_rate, frame_count, event_receiver);

    let _ = event_transmitter.send(SamplerEvent::start_now());
    let _ = event_transmitter.send(SamplerEvent::stop(Timestamp::from_samples(5_000, sample_rate)));

    let output = process_sampler(&mut sampler, &sample, 10_000);

    expect_sample(1.0, &output, 5_000);
    expect_sample(0.5, &output, 5_000 + sampler.fade_length() / 2);
    expect_sample(0.0, &output, 5_000 + sampler.fade_length());
}

#[test]
fn fade_out_beyond_sample() {
    let frame_count = 10_000;
    let sample_rate = 48_000;

    let sample = vec![1.0_f32; frame_count];
    let (event_transmitter, event_receiver) = crossbeam::channel::unbounded();
    let mut sampler = SamplerDspProcess::new(sample_rate, frame_count, event_receiver);

    let _ = event_transmitter.send(SamplerEvent::start(Timestamp::zero(), Timestamp::zero()));

    let fade_length = sampler.fade_length();

    let _ = process_sampler(&mut sampler, &sample, frame_count - fade_length / 2);

    let _ = event_transmitter.send(SamplerEvent::stop_now());

    let output = process_sampler(&mut sampler, &sample, 2 * fade_length);

    expect_sample(1.0, &output, 0);
    expect_sample(0.0, &output, sampler.fade_length());
}

#[test]
fn start_event() {
    let frame_count = 10_000;
    let sample_rate = 48_000;

    let sample = vec![1.0_f32; frame_count];
    let (event_transmitter, event_receiver) = crossbeam::channel::unbounded();
    let mut sampler = SamplerDspProcess::new(sample_rate, frame_count, event_receiver);

    let start_time_in_samples = 1500;

    let _ = event_transmitter.send(SamplerEvent::start(
        Timestamp::from_samples(start_time_in_samples, sample_rate),
        Timestamp::zero(),
    ));

    let output = process_sampler(&mut sampler, &sample, frame_count);
    expect_sample(0.0, &output, start_time_in_samples - 1);
    expect_sample(1.0, &output, start_time_in_samples);
}

#[test]
fn stop_event() {
    let frame_count = 10_000;
    let sample_rate = 48_000;

    let sample = vec![1.0_f32; frame_count];
    let (event_transmitter, event_receiver) = crossbeam::channel::unbounded();
    let mut sampler = SamplerDspProcess::new(sample_rate, frame_count, event_receiver);

    let stop_time_in_samples = 2000;

    let _ = event_transmitter.send(SamplerEvent::stop(Timestamp::from_samples(stop_time_in_samples, sample_rate)));

    let _ = event_transmitter.send(SamplerEvent::start_now());

    let output = process_sampler(&mut sampler, &sample, frame_count);
    expect_sample(1.0, &output, stop_time_in_samples);
    expect_sample(0.0, &output, stop_time_in_samples + sampler.fade_length());
}

#[test]
fn loops_samples() {
    let frame_count = 10_000;
    let sample_rate = 48_000;

    let mut sample = vec![1.0_f32; frame_count];
    sample[4999] = 0.4999;

    let (event_transmitter, event_receiver) = crossbeam::channel::unbounded();
    let mut sampler = SamplerDspProcess::new(sample_rate, frame_count, event_receiver);

    let _ = event_transmitter.send(SamplerEvent::start_now());

    let _ = event_transmitter.send(SamplerEvent::enable_loop(
        Timestamp::from_samples(1_000, sample_rate),
        Timestamp::from_samples(5_000, sample_rate),
    ));

    let output = process_sampler(&mut sampler, &sample, 50_000);
    expect_sample(0.4999, &output, 4_999);
    expect_sample(0.4999, &output, 8_999);
    expect_sample(0.4999, &output, 12_999);
}

#[test]
fn loops_and_frame_length_aligned() {
    let frame_count = 10_000;
    let sample_rate = 48_000;

    let mut sample = vec![1.0_f32; frame_count];
    sample[9999] = 0.123;

    let (event_transmitter, event_receiver) = crossbeam::channel::unbounded();
    let mut sampler = SamplerDspProcess::new(sample_rate, frame_count, event_receiver);

    let _ = event_transmitter.send(SamplerEvent::start_now());

    let _ = event_transmitter.send(SamplerEvent::enable_loop(
        Timestamp::from_samples(0, sample_rate),
        Timestamp::from_samples(10_000, sample_rate),
    ));

    let output = process_sampler(&mut sampler, &sample, 20_000);
    expect_sample(0.123, &output, 9_999);
    expect_sample(0.123, &output, 19_999);
    let output = process_sampler(&mut sampler, &sample, 20_000);
    expect_sample(0.123, &output, 9_999);
    expect_sample(0.123, &output, 19_999);
    let output = process_sampler(&mut sampler, &sample, 20_000);
    expect_sample(0.123, &output, 9_999);
    expect_sample(0.123, &output, 19_999);
}

#[test]
fn between_sample_looping() {
    let frame_count = 10_000;
    let sample_rate = 48_000;
    let ticks_per_sample = TICKS_PER_SECOND / 48_000;

    let sample = vec![1.0_f32; frame_count];

    let (event_transmitter, event_receiver) = crossbeam::channel::unbounded();
    let mut sampler = SamplerDspProcess::new(sample_rate, frame_count, event_receiver);

    let half_a_sample = Timestamp::from_raw_i64(ticks_per_sample / 2);
    let twelve_point_two_samples = Timestamp::from_raw_i64(ticks_per_sample * 122 / 10);

    let _ = event_transmitter.send(SamplerEvent::start(Timestamp::zero(), half_a_sample));

    let _ = event_transmitter.send(SamplerEvent::enable_loop(half_a_sample, twelve_point_two_samples));

    let _ = process_sampler(&mut sampler, &sample, 1_170);
    assert_eq!(99, sampler.completed_loops());
    let _ = process_sampler(&mut sampler, &sample, 1);
    assert_eq!(100, sampler.completed_loops());
}

#[test]
fn start_in_the_past() {
    let frame_count = 10_000;
    let sample_rate = 48_000;

    let sample = step(frame_count, 3_000..4_000);

    let (event_transmitter, event_receiver) = crossbeam::channel::unbounded();

    let mut sampler = SamplerDspProcess::new_without_fade(sample_rate, frame_count, event_receiver);

    let _ = process_sampler(&mut sampler, &sample, 1000);

    let start_at_time = Timestamp::from_samples(500, sample_rate);
    let position_in_sample = Timestamp::from_samples(2_000, sample_rate);
    let _ = event_transmitter.send(SamplerEvent::start(start_at_time, position_in_sample));
    let current_time = Timestamp::from_samples(1_000, sample_rate);

    let output = process_sampler_from_time(&mut sampler, &sample, 10_000, current_time);

    expect_sample_in_range(0.0, &output, 0..500);
    expect_sample_in_range(1.0, &output, 500..1500);
    expect_sample_in_range(0.0, &output, 1500..10_000);
}

#[test]
fn loop_from_the_past() {
    let frame_count = 10_000;
    let sample_rate = 48_000;

    let sample = step(frame_count, 3_000..4_000);

    let (event_transmitter, event_receiver) = crossbeam::channel::unbounded();

    let mut sampler = SamplerDspProcess::new_without_fade(sample_rate, frame_count, event_receiver);

    let _ = process_sampler(&mut sampler, &sample, 1000);

    let start_at_time = Timestamp::from_samples(500, sample_rate);
    let position_in_sample = Timestamp::from_samples(2_000, sample_rate);

    let _ = event_transmitter.send(SamplerEvent::start(start_at_time, position_in_sample));

    let loop_start = Timestamp::from_samples(2_500, sample_rate);
    let loop_end = Timestamp::from_samples(5_000, sample_rate);

    let _ = event_transmitter.send(SamplerEvent::enable_loop_at_time(start_at_time, loop_start, loop_end));

    let current_time = Timestamp::from_samples(1_000, sample_rate);

    let output = process_sampler_from_time(&mut sampler, &sample, 10_000, current_time);

    expect_sample_in_range(0.0, &output, 0..500);
    expect_sample_in_range(1.0, &output, 500..1_500);
    expect_sample_in_range(0.0, &output, 1_500..2_500);

    expect_sample_in_range(0.0, &output, 2_500..3_000);
    expect_sample_in_range(1.0, &output, 3_000..4_000);
    expect_sample_in_range(0.0, &output, 4_000..5_000);
}

#[test]
fn a_loop_far_behind_playback_catches_up_within_the_block() {
    let frame_count = 100_000;
    let sample_rate = 48_000;

    let mut sample = vec![1.0_f32; frame_count];
    sample[0] = 0.25;

    let (event_transmitter, event_receiver) = crossbeam::channel::unbounded();
    let mut sampler = SamplerDspProcess::new_without_fade(sample_rate, frame_count, event_receiver);

    let _ = event_transmitter.send(SamplerEvent::start_now());
    let _ = process_sampler(&mut sampler, &sample, 40_000);
    assert_eq!(0, sampler.completed_loops());

    let _ = event_transmitter.send(SamplerEvent::enable_loop(
        Timestamp::zero(),
        Timestamp::from_samples(1, sample_rate),
    ));
    let output = process_sampler_from_time(&mut sampler, &sample, 100, Timestamp::from_samples(40_000, sample_rate));

    expect_sample_in_range(0.25, &output, 0..100);
    assert_eq!(40_099, sampler.completed_loops());
}
