use rawdio::{Command, EventReceiver, EventTransmitter, Id, Mixer, MixerMatrix};

type MatrixReceiver = EventReceiver<MixerMatrix<f32>>;

fn added_counts(command_receiver: &crossbeam::channel::Receiver<Command<Box<rawdio::Dsp<MatrixReceiver, ()>>>>) -> (usize, usize, MatrixReceiver) {
    match command_receiver.try_recv().expect("the node is added") {
        Command::AddDsp(dsp) => {
            let counts = (dsp.input_count(), dsp.output_count());
            let dsp = *dsp;
            (counts.0, counts.1, dsp.processor)
        }
        _ => panic!("expected the node to be added"),
    }
}

fn levels(matrix: &MixerMatrix<f32>) -> Vec<Vec<f32>> {
    (0..matrix.output_count())
        .map(|output| (0..matrix.input_count()).map(|input| matrix.get_level(input, output)).collect())
        .collect()
}

#[test]
fn a_new_mixer_is_silent_and_adds_its_node() {
    let (command_transmitter, command_receiver) = crossbeam::channel::unbounded();
    let mixer = Mixer::new(Id::from_raw(8), EventTransmitter::new(command_transmitter), 3, 2, 0.0_f32, |receiver| receiver, ());
    let (inputs, outputs, matrices) = added_counts(&command_receiver);
    assert_eq!((inputs, outputs), (3, 2));
    assert_eq!(levels(&mixer.gain_matrix), vec![vec![0.0; 3], vec![0.0; 3]]);
    assert_eq!(matrices.try_iter().count(), 0);
}

#[test]
fn setting_a_level_sends_the_whole_matrix() {
    let (command_transmitter, command_receiver) = crossbeam::channel::unbounded();
    let mut mixer = Mixer::new(Id::from_raw(8), EventTransmitter::new(command_transmitter), 2, 2, 0.0_f32, |receiver| receiver, ());
    let (_, _, matrices) = added_counts(&command_receiver);
    mixer.set_level(1, 0, 0.5);
    mixer.set_level(0, 1, 0.25);
    assert_eq!(levels(&mixer.gain_matrix), vec![vec![0.0, 0.5], vec![0.25, 0.0]]);
    let sent: Vec<Vec<Vec<f32>>> = matrices.try_iter().map(|matrix| levels(&matrix)).collect();
    assert_eq!(sent, vec![vec![vec![0.0, 0.5], vec![0.0, 0.0]], vec![vec![0.0, 0.5], vec![0.25, 0.0]]]);
}

#[test]
fn mono_to_stereo_copies_the_input_to_both_outputs() {
    let (command_transmitter, command_receiver) = crossbeam::channel::unbounded();
    let mixer = Mixer::mono_to_stereo_splitter(Id::from_raw(9), EventTransmitter::new(command_transmitter), 0.0_f32, 1.0, |receiver| receiver, ());
    let (inputs, outputs, matrices) = added_counts(&command_receiver);
    assert_eq!((inputs, outputs), (1, 2));
    assert_eq!(levels(&mixer.gain_matrix), vec![vec![1.0], vec![1.0]]);
    assert_eq!(matrices.try_iter().count(), 2);
}

#[test]
fn a_unity_mixer_passes_each_channel_through() {
    let (command_transmitter, command_receiver) = crossbeam::channel::unbounded();
    let mixer = Mixer::unity(Id::from_raw(10), EventTransmitter::new(command_transmitter), 3, 0.0_f32, 1.0, |receiver| receiver, ());
    let (inputs, outputs, matrices) = added_counts(&command_receiver);
    assert_eq!((inputs, outputs), (3, 3));
    assert_eq!(levels(&mixer.gain_matrix), vec![vec![1.0, 0.0, 0.0], vec![0.0, 1.0, 0.0], vec![0.0, 0.0, 1.0]]);
    let sent: Vec<Vec<Vec<f32>>> = matrices.try_iter().map(|matrix| levels(&matrix)).collect();
    assert_eq!(sent.len(), 3);
    assert_eq!(sent[2], levels(&mixer.gain_matrix));
}
