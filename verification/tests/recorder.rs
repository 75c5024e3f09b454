use rawdio::{
    Command, EventTransmitter, FrameBuffer, Id, Recorder, RecorderEvent, RecorderEventType, RecorderNotification,
    RecorderProcessor, Timestamp,
};

type Buffer = FrameBuffer<f32>;

fn ramp(start: usize, frame_count: usize) -> Vec<f32> {
    (start..start + frame_count).map(|frame| frame as f32).collect()
}

fn mono(samples: Vec<f32>) -> Buffer {
    let frame_count = samples.len();
    FrameBuffer::from_channels(vec![samples], frame_count, 48_000).expect("one channel")
}

fn new_recorder() -> (Recorder<RecorderProcessor<f32>, (), f32>, RecorderProcessor<f32>) {
    let (command_transmitter, command_receiver) = crossbeam::channel::unbounded();
    let recorder = Recorder::new(Id::from_raw(3), EventTransmitter::new(command_transmitter), 1, 48_000, |p| p, ());
    match command_receiver.try_recv().expect("the recorder's node is added") {
        Command::AddDsp(dsp) => {
            assert_eq!(dsp.get_id(), Id::from_raw(3));
            assert_eq!(dsp.input_count(), 1);
            assert_eq!(dsp.output_count(), 0);
            let dsp = *dsp;
            (recorder, dsp.processor)
        }
        _ => panic!("expected the recorder's node to be added"),
    }
}

fn new_processor() -> (
    crossbeam::channel::Sender<RecorderEvent<Buffer>>,
    crossbeam::channel::Receiver<RecorderNotification<Buffer>>,
    RecorderProcessor<f32>,
) {
    let (event_transmitter, event_receiver) = crossbeam::channel::unbounded();
    let (notification_transmitter, notification_receiver) = crossbeam::channel::unbounded();
    let processor = RecorderProcessor::new(48_000, 1, event_receiver, EventTransmitter::new(notification_transmitter));
    (event_transmitter, notification_receiver, processor)
}

#[test]
fn recorder_events_take_effect_now_or_at_their_time() {
    let start: RecorderEvent<Buffer> = RecorderEvent::start_now();
    assert_eq!(start.time.as_raw_i64(), 0);
    assert!(matches!(start.event_type, RecorderEventType::Start));
    let stop: RecorderEvent<Buffer> = RecorderEvent::stop_at_time(Timestamp::from_raw_i64(99));
    assert_eq!(stop.time.as_raw_i64(), 99);
    assert!(matches!(stop.event_type, RecorderEventType::Stop));
    let stop_now: RecorderEvent<Buffer> = RecorderEvent::stop_now();
    assert_eq!(stop_now.time.as_raw_i64(), 0);
    assert!(matches!(stop_now.event_type, RecorderEventType::Stop));
    let returned = RecorderEvent::return_buffer(mono(vec![1.0]));
    assert!(matches!(returned.event_type, RecorderEventType::ReturnBuffer(ref buffer) if buffer.channel(0) == &vec![1.0]));
}

#[test]
fn a_new_recorder_is_not_recording() {
    let (mut recorder, _processor) = new_recorder();
    assert!(!recorder.is_recording());
    assert!(recorder.take_recording().is_none());
}

#[test]
fn records_the_input_between_start_and_stop() {
    let (mut recorder, mut processor) = new_recorder();
    let block = 512;
    let blocks = 20;

    recorder.record_now();
    for index in 0..blocks {
        let input = mono(ramp(index * block, block));
        let time = Timestamp::from_samples(index * block, 48_000);
        processor.process_audio(&input, &time);
        recorder.process_notifications();
    }
    assert!(recorder.is_recording());

    recorder.stop_record_now();
    let input = mono(ramp(blocks * block, block));
    processor.process_audio(&input, &Timestamp::from_samples(blocks * block, 48_000));
    recorder.process_notifications();
    assert!(!recorder.is_recording());

    let recording = recorder.take_recording().expect("a recording");
    assert_eq!(recording.frame_count(), blocks * block);
    assert_eq!(recording.channel(0), &ramp(0, blocks * block));
    assert!(recorder.take_recording().is_none());
}

#[test]
fn stops_at_the_scheduled_frame() {
    let (mut recorder, mut processor) = new_recorder();
    recorder.record_now();
    recorder.stop_record_at_time(Timestamp::from_samples(300, 48_000));
    processor.process_audio(&mono(ramp(0, 1_000)), &Timestamp::zero());
    recorder.process_notifications();
    assert!(!recorder.is_recording());
    let recording = recorder.take_recording().expect("a recording");
    assert_eq!(recording.channel(0), &ramp(0, 300));
}

#[test]
fn a_new_processor_has_full_size_buffers() {
    let (event_transmitter, notification_receiver, mut processor) = new_processor();
    let _ = event_transmitter.send(RecorderEvent::start_now());
    processor.process_audio(&mono(ramp(0, 4_096)), &Timestamp::zero());
    let notifications: Vec<RecorderNotification<Buffer>> = notification_receiver.try_iter().collect();
    assert_eq!(notifications.len(), 2);
    match &notifications[1] {
        RecorderNotification::Data(buffer, used) => {
            assert_eq!(*used, 4_096);
            assert_eq!(buffer.frame_count(), 4_096);
            assert_eq!(buffer.channel_count(), 1);
            assert_eq!(buffer.sample_rate(), 48_000);
        }
        _ => panic!("expected a full buffer"),
    }
}

#[test]
fn sends_each_full_buffer_and_the_last_partial_one() {
    let (event_transmitter, notification_receiver, mut processor) = new_processor();

    let _ = event_transmitter.send(RecorderEvent::start_now());
    processor.process_audio(&mono(ramp(0, 5_000)), &Timestamp::zero());
    let _ = event_transmitter.send(RecorderEvent::stop_now());
    processor.process_audio(&mono(ramp(5_000, 10)), &Timestamp::from_samples(5_000, 48_000));

    let notifications: Vec<RecorderNotification<Buffer>> = notification_receiver.try_iter().collect();
    assert_eq!(notifications.len(), 4);
    assert!(matches!(notifications[0], RecorderNotification::Start));
    match &notifications[1] {
        RecorderNotification::Data(buffer, used) => {
            assert_eq!(*used, 4_096);
            assert_eq!(buffer.channel(0), &ramp(0, 4_096));
        }
        _ => panic!("expected a full buffer"),
    }
    match &notifications[2] {
        RecorderNotification::Data(buffer, used) => {
            assert_eq!(*used, 5_000 - 4_096);
            assert_eq!(buffer.channel(0)[..*used].to_vec(), ramp(4_096, 5_000 - 4_096));
        }
        _ => panic!("expected a partial buffer"),
    }
    assert!(matches!(notifications[3], RecorderNotification::Stop));
}

#[test]
fn starting_twice_notifies_once() {
    let (event_transmitter, notification_receiver, mut processor) = new_processor();
    let _ = event_transmitter.send(RecorderEvent::start_now());
    let _ = event_transmitter.send(RecorderEvent::start_now());
    let _ = event_transmitter.send(RecorderEvent::stop_now());
    let _ = event_transmitter.send(RecorderEvent::stop_now());
    processor.process_audio(&mono(ramp(0, 8)), &Timestamp::zero());
    let notifications: Vec<RecorderNotification<Buffer>> = notification_receiver.try_iter().collect();
    assert_eq!(notifications.len(), 3);
    assert!(matches!(notifications[0], RecorderNotification::Start));
    assert!(matches!(notifications[1], RecorderNotification::Data(_, 0)));
    assert!(matches!(notifications[2], RecorderNotification::Stop));
}

#[test]
fn nothing_is_recorded_before_start() {
    let (_event_transmitter, notification_receiver, mut processor) = new_processor();
    processor.process_audio(&mono(ramp(0, 10_000)), &Timestamp::zero());
    assert_eq!(notification_receiver.try_iter().count(), 0);
}

#[test]
fn a_stop_without_a_start_sends_nothing() {
    let (event_transmitter, notification_receiver, mut processor) = new_processor();
    event_transmitter.send(RecorderEvent::stop_now()).expect("the processor listens");
    event_transmitter.send(RecorderEvent::return_buffer(mono(ramp(0, 16)))).expect("the processor listens");
    processor.process_audio(&mono(ramp(0, 512)), &Timestamp::zero());
    assert_eq!(notification_receiver.try_iter().count(), 0);
}

#[test]
fn handle_notifications_follows_the_last_start_or_stop_and_returns_buffers() {
    let (mut recorder, _processor) = new_recorder();
    recorder.handle_notifications(vec![
        RecorderNotification::Start,
        RecorderNotification::Data(mono(vec![1.0, 2.0, 3.0]), 2),
        RecorderNotification::Data(mono(vec![4.0, 5.0]), 5),
        RecorderNotification::Stop,
        RecorderNotification::Start,
    ]);
    assert!(recorder.is_recording());
    let recording = recorder.take_recording().expect("a recording");
    assert_eq!(recording.channel(0), &vec![1.0, 2.0, 4.0, 5.0]);
    recorder.handle_notifications(vec![RecorderNotification::Stop]);
    assert!(!recorder.is_recording());
    assert!(recorder.take_recording().is_none());
}

#[test]
fn frame_buffers_copy_and_extend() {
    let mut buffer = mono(vec![0.0; 6]);
    let input = mono(vec![1.0, 2.0, 3.0, 4.0]);
    buffer.copy_from(&input, rawdio::FrameCopy { source_frame: 1, destination_frame: 2, frame_count: 3 });
    assert_eq!(buffer.channel(0), &vec![0.0, 0.0, 2.0, 3.0, 4.0, 0.0]);
    assert_eq!(buffer.prefix(3).channel(0), &vec![0.0, 0.0, 2.0]);
    let extended = buffer.prefix(2).extended_with(&input, 2).expect("room");
    assert_eq!(extended.channel(0), &vec![0.0, 0.0, 1.0, 2.0]);
    assert!(FrameBuffer::from_channels(vec![vec![1.0_f32], vec![]], 1, 48_000).is_none());
    let silent: FrameBuffer<f32> = FrameBuffer::silent(4, 2, 44_100);
    assert_eq!(silent.channel(1), &vec![0.0; 4]);
}
