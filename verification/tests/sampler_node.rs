use rawdio::{
    Command, EngineOptions, EventProcessor, EventProcessorEvent, EventTransmitter, GainProcessor, Id, PanProcessor,
    SampleEventType, Sampler, SamplerDspProcess, SamplerEvent, SegmentGain, Timestamp,
};

fn new_sampler(frame_count: usize) -> (Sampler<SamplerDspProcess, ()>, SamplerDspProcess) {
    let (command_transmitter, command_receiver) = crossbeam::channel::unbounded();
    let sampler = Sampler::new(
        Id::from_raw(7),
        EventTransmitter::new(command_transmitter),
        48_000,
        frame_count,
        2,
        |process| process,
        (),
    );
    match command_receiver.try_recv().expect("the sampler's node is added") {
        Command::AddDsp(dsp) => {
            assert_eq!(dsp.get_id(), Id::from_raw(7));
            assert_eq!(dsp.input_count(), 0);
            assert_eq!(dsp.output_count(), 2);
            let dsp = *dsp;
            (sampler, dsp.processor)
        }
        _ => panic!("expected the sampler's node to be added"),
    }
}

#[test]
fn sampler_events_are_scheduled_as_asked() {
    let start = SamplerEvent::start(Timestamp::from_raw_i64(10), Timestamp::from_raw_i64(20));
    assert_eq!(start.get_time().as_raw_i64(), 10);
    assert!(matches!(start.get_event_type(), SampleEventType::Start(position) if position.as_raw_i64() == 20));
    assert!(matches!(SamplerEvent::start_now().get_event_type(), SampleEventType::StartImmediate));
    assert!(matches!(SamplerEvent::stop_now().get_event_type(), SampleEventType::Stop));
    assert!(matches!(SamplerEvent::cancel_loop().get_event_type(), SampleEventType::CancelLoop));
    assert!(matches!(SamplerEvent::cancel_all().get_event_type(), SampleEventType::CancelAll));
    assert!(SamplerEvent::cancel_all().should_clear_queue());
    assert!(!SamplerEvent::stop_now().should_clear_queue());
    let looping = SamplerEvent::enable_loop_at_time(
        Timestamp::from_raw_i64(5),
        Timestamp::from_raw_i64(6),
        Timestamp::from_raw_i64(7),
    );
    assert_eq!(looping.get_time().as_raw_i64(), 5);
    assert!(matches!(looping.get_event_type(),
        SampleEventType::EnableLoop(start, end) if start.as_raw_i64() == 6 && end.as_raw_i64() == 7));
}

#[test]
fn start_now_plays_the_sample_from_the_start() {
    let (mut sampler, mut process) = new_sampler(1_000);
    sampler.start_now();
    let segments = process.process_audio(&Timestamp::zero(), 256);
    assert_eq!(segments.len(), 1);
    assert_eq!(segments[0].destination_offset, 0);
    assert_eq!(segments[0].source_position, 0);
    assert_eq!(segments[0].frame_count, 256);
    assert_eq!(segments[0].gain, SegmentGain::Unity);
}

#[test]
fn playback_ends_with_the_sample() {
    let (mut sampler, mut process) = new_sampler(100);
    sampler.start_now();
    let segments = process.process_audio(&Timestamp::zero(), 256);
    let frames: usize = segments.iter().map(|segment| segment.frame_count).sum();
    assert_eq!(frames, 100);
    let segments = process.process_audio(&Timestamp::from_samples(256, 48_000), 256);
    assert!(segments.is_empty());
}

#[test]
fn stop_now_fades_out() {
    let (mut sampler, mut process) = new_sampler(48_000);
    sampler.start_now();
    let _ = process.process_audio(&Timestamp::zero(), 128);
    sampler.stop_now();
    let segments = process.process_audio(&Timestamp::from_samples(128, 48_000), 128);
    assert_eq!(segments.len(), 1);
    assert_eq!(segments[0].gain, SegmentGain::FadeOut(0));
    assert_eq!(segments[0].source_position, 128);
}

#[test]
fn cancel_all_discards_scheduled_events() {
    let (mut sampler, mut process) = new_sampler(48_000);
    sampler.start_from_position_at_time(Timestamp::from_samples(100, 48_000), Timestamp::zero());
    sampler.cancel_all();
    let segments = process.process_audio(&Timestamp::zero(), 512);
    assert!(segments.is_empty());
}

#[test]
fn a_loop_repeats_its_span() {
    let (mut sampler, mut process) = new_sampler(1_000);
    sampler.start_now();
    sampler.enable_loop(Timestamp::from_samples(100, 48_000), Timestamp::from_samples(200, 48_000));
    let segments = process.process_audio(&Timestamp::zero(), 400);
    let unity: Vec<(usize, usize, usize)> = segments
        .iter()
        .filter(|segment| segment.gain == SegmentGain::Unity)
        .map(|segment| (segment.destination_offset, segment.source_position, segment.frame_count))
        .collect();
    assert_eq!(unity[0], (0, 0, 200));
    assert!(unity.iter().skip(1).all(|&(_, source, frames)| source == 100 && frames <= 100));
    assert_eq!(process.completed_loops(), 2);
}

#[test]
fn cancel_loop_lets_playback_run_to_the_end() {
    let (mut sampler, mut process) = new_sampler(1_000);
    sampler.start_now();
    sampler.enable_loop(Timestamp::from_samples(0, 48_000), Timestamp::from_samples(100, 48_000));
    let _ = process.process_audio(&Timestamp::zero(), 50);
    sampler.cancel_loop();
    let segments = process.process_audio(&Timestamp::from_samples(50, 48_000), 2_000);
    let frames: usize = segments.iter().map(|segment| segment.frame_count).sum();
    assert_eq!(frames, 950);
}

#[test]
fn scheduled_loop_and_stop_take_effect_at_their_time() {
    let (mut sampler, mut process) = new_sampler(10_000);
    sampler.start_now();
    sampler.enable_loop_at_time(
        Timestamp::from_samples(50, 48_000),
        Timestamp::from_samples(0, 48_000),
        Timestamp::from_samples(100, 48_000),
    );
    sampler.cancel_loop_at_time(Timestamp::from_samples(250, 48_000));
    sampler.stop_at_time(Timestamp::from_samples(1_000, 48_000));
    let _ = process.process_audio(&Timestamp::zero(), 2_000);
    assert_eq!(process.completed_loops(), 2);
}

#[test]
fn event_processor_keeps_arrival_order_at_equal_times() {
    let (_transmitter, receiver) = crossbeam::channel::unbounded::<SamplerEvent>();
    let mut processor = EventProcessor::with_capacity(4, receiver, 48_000);
    let time = Timestamp::from_samples(10, 48_000);
    processor.add_events(vec![
        SamplerEvent::stop(time),
        SamplerEvent::start(Timestamp::from_samples(5, 48_000), Timestamp::zero()),
        SamplerEvent::start(time, Timestamp::zero()),
    ]);
    let (frame, first) = processor.next_event(&Timestamp::zero(), &Timestamp::zero(), 64);
    assert_eq!(frame, 5);
    assert!(matches!(first.unwrap().get_event_type(), SampleEventType::Start(_)));
    let (frame, second) = processor.next_event(&Timestamp::zero(), &Timestamp::zero(), 64);
    assert_eq!(frame, 10);
    assert!(matches!(second.unwrap().get_event_type(), SampleEventType::Stop));
    let (frame, third) = processor.next_event(&Timestamp::zero(), &Timestamp::zero(), 64);
    assert_eq!(frame, 10);
    assert!(matches!(third.unwrap().get_event_type(), SampleEventType::Start(_)));
    let (frame, none) = processor.next_event(&Timestamp::zero(), &Timestamp::zero(), 64);
    assert_eq!(frame, 64);
    assert!(none.is_none());
}

#[test]
fn event_processor_puts_late_events_at_the_current_frame_and_leaves_later_ones() {
    let (transmitter, receiver) = crossbeam::channel::unbounded::<SamplerEvent>();
    let mut processor = EventProcessor::with_capacity(4, receiver, 48_000);
    let _ = transmitter.send(SamplerEvent::stop(Timestamp::from_samples(3, 48_000)));
    let _ = transmitter.send(SamplerEvent::stop(Timestamp::from_samples(500, 48_000)));
    processor.receive_events();
    let block_start = Timestamp::from_samples(100, 48_000);
    let current = Timestamp::from_samples(120, 48_000);
    let (frame, late) = processor.next_event(&block_start, &current, 64);
    assert_eq!(frame, 20);
    assert!(late.is_some());
    let (frame, later) = processor.next_event(&block_start, &current, 64);
    assert_eq!(frame, 64);
    assert!(later.is_none());
}

#[test]
fn a_clearing_event_discards_what_was_pending() {
    let (_transmitter, receiver) = crossbeam::channel::unbounded::<SamplerEvent>();
    let mut processor = EventProcessor::with_capacity(4, receiver, 48_000);
    processor.add_events(vec![
        SamplerEvent::stop(Timestamp::from_samples(10, 48_000)),
        SamplerEvent::cancel_all(),
    ]);
    let (frame, event) = processor.next_event(&Timestamp::zero(), &Timestamp::zero(), 64);
    assert_eq!(frame, 0);
    assert!(matches!(event.unwrap().get_event_type(), SampleEventType::CancelAll));
    assert!(processor.next_event(&Timestamp::zero(), &Timestamp::zero(), 64).1.is_none());
    assert_eq!(processor.sample_rate(), 48_000);
}

#[test]
fn engine_options_default_to_44100_and_two_channels() {
    let options = EngineOptions::default();
    assert_eq!(options.sample_rate(), 44_100);
    assert_eq!(options.maximum_channel_count(), 2);
    let options = options.with_sample_rate(96_000).with_maximum_channel_count(8);
    assert_eq!(options.sample_rate(), 96_000);
    assert_eq!(options.maximum_channel_count(), 8);
}

#[test]
fn processors_keep_their_setup() {
    assert_eq!(GainProcessor::new(), GainProcessor);
    assert_eq!(PanProcessor::new(Id::from_raw(4)).pan_id(), Id::from_raw(4));
}
