use std::time::Duration;

use rawdio::{Adsr, AdsrEvent, AdsrEventType, AdsrProcessor, Command, EnvelopeSpan, EventProcessorEvent, EventTransmitter, Id, Timestamp};

type Processor = AdsrProcessor<f32>;

fn new_adsr() -> (Adsr<Processor, (), f32>, Processor) {
    let (command_transmitter, command_receiver) = crossbeam::channel::unbounded();
    let adsr = Adsr::new(Id::from_raw(4), EventTransmitter::new(command_transmitter), 2, 48_000, 512, 1.0, |processor| processor, ());
    match command_receiver.try_recv().expect("the node is added") {
        Command::AddDsp(dsp) => {
            assert_eq!(dsp.input_count(), 2);
            assert_eq!(dsp.output_count(), 2);
            let dsp = *dsp;
            (adsr, dsp.processor)
        }
        _ => panic!("expected the node to be added"),
    }
}

fn plan(processor: &mut Processor, frame_count: usize) -> Vec<EnvelopeSpan<f32>> {
    processor.prepare_envelope(frame_count, &Timestamp::zero(), 48_000)
}

fn stretches(spans: &[EnvelopeSpan<f32>]) -> Vec<(usize, usize)> {
    spans.iter().map(|span| (span.start_frame, span.frame_count)).collect()
}

#[test]
fn adsr_event_keeps_its_time_and_type() {
    let event: AdsrEvent<f32> = AdsrEvent::new(Timestamp::from_raw_i64(77), AdsrEventType::NoteOn);
    assert_eq!(event.get_time().as_raw_i64(), 77);
    assert!(matches!(event.get_event_type(), AdsrEventType::NoteOn));
    assert!(!event.should_clear_queue());
}

#[test]
fn notes_take_effect_at_their_frames() {
    let (mut adsr, mut processor) = new_adsr();
    adsr.note_on_at_time(Timestamp::from_samples(10, 48_000));
    adsr.note_off_at_time(Timestamp::from_samples(20, 48_000));
    let spans = plan(&mut processor, 64);
    assert_eq!(stretches(&spans), vec![(0, 10), (10, 10), (20, 44)]);
    assert!(matches!(spans[0].event.as_ref().map(|event| event.get_event_type()), Some(AdsrEventType::NoteOn)));
    assert!(matches!(spans[1].event.as_ref().map(|event| event.get_event_type()), Some(AdsrEventType::NoteOff)));
    assert!(spans[2].event.is_none());
}

#[test]
fn a_block_without_events_is_one_stretch() {
    let (_adsr, mut processor) = new_adsr();
    let spans = plan(&mut processor, 128);
    assert_eq!(stretches(&spans), vec![(0, 128)]);
    assert!(spans[0].event.is_none());
}

#[test]
fn a_later_note_waits_for_its_block() {
    let (mut adsr, mut processor) = new_adsr();
    adsr.note_on_at_time(Timestamp::from_samples(100, 48_000));
    let first = plan(&mut processor, 64);
    assert_eq!(stretches(&first), vec![(0, 64)]);
    let second = processor.prepare_envelope(64, &Timestamp::from_samples(64, 48_000), 48_000);
    assert_eq!(stretches(&second), vec![(0, 36), (36, 28)]);
    assert!(matches!(second[0].event.as_ref().map(|event| event.get_event_type()), Some(AdsrEventType::NoteOn)));
}

#[test]
fn set_adsr_sends_the_four_settings_in_order() {
    let (mut adsr, mut processor) = new_adsr();
    adsr.set_adsr(Duration::from_millis(10), Duration::from_millis(20), 0.5, Duration::from_millis(30));
    let spans = plan(&mut processor, 32);
    assert_eq!(stretches(&spans), vec![(0, 0), (0, 0), (0, 0), (0, 0), (0, 32)]);
    let events: Vec<&AdsrEvent<f32>> = spans.iter().filter_map(|span| span.event.as_ref()).collect();
    assert_eq!(events.len(), 4);
    assert!(events.iter().all(|event| event.get_time().as_raw_i64() == 0));
    assert!(matches!(events[0].get_event_type(), AdsrEventType::SetAttack(time) if *time == Duration::from_millis(10)));
    assert!(matches!(events[1].get_event_type(), AdsrEventType::SetDecay(time) if *time == Duration::from_millis(20)));
    assert!(matches!(events[2].get_event_type(), AdsrEventType::SetSustain(level) if *level == 0.5));
    assert!(matches!(events[3].get_event_type(), AdsrEventType::SetRelease(time) if *time == Duration::from_millis(30)));
}

#[test]
fn each_setting_is_sent_alone() {
    let (mut adsr, mut processor) = new_adsr();
    adsr.set_attack_time(Duration::from_millis(1));
    adsr.set_decay_time(Duration::from_millis(2));
    adsr.set_sustain_level(0.25);
    adsr.set_release_time(Duration::from_millis(3));
    let spans = plan(&mut processor, 16);
    let events: Vec<&AdsrEvent<f32>> = spans.iter().filter_map(|span| span.event.as_ref()).collect();
    assert_eq!(events.len(), 4);
    assert!(matches!(events[2].get_event_type(), AdsrEventType::SetSustain(level) if *level == 0.25));
}

#[test]
fn the_envelope_starts_with_no_times_and_unity_sustain() {
    let (_adsr, processor) = new_adsr();
    let settings = processor.settings();
    assert_eq!(settings.attack_nanos, 0);
    assert_eq!(settings.decay_nanos, 0);
    assert_eq!(settings.release_nanos, 0);
    assert_eq!(settings.sustain_level, 1.0);
}

#[test]
fn setting_events_change_the_settings_when_they_take_effect() {
    let (mut adsr, mut processor) = new_adsr();
    adsr.set_adsr(Duration::from_millis(10), Duration::from_millis(20), 0.5, Duration::from_micros(30));
    let _ = plan(&mut processor, 32);
    let settings = processor.settings();
    assert_eq!(settings.attack_nanos, 10_000_000);
    assert_eq!(settings.decay_nanos, 20_000_000);
    assert_eq!(settings.sustain_level, 0.5);
    assert_eq!(settings.release_nanos, 30_000);
}

#[test]
fn a_setting_sent_now_takes_effect_in_the_next_block() {
    let (mut adsr, mut processor) = new_adsr();
    adsr.note_on_at_time(Timestamp::from_samples(100, 48_000));
    adsr.set_sustain_level(0.25);
    let _ = plan(&mut processor, 64);
    assert_eq!(processor.settings().sustain_level, 0.25);
    assert_eq!(processor.settings().attack_nanos, 0);
}
