use rawdio::{Command, Connection, Dsp, Endpoint, EndpointType, EventTransmitter, GraphNode, Id};

type Node = GraphNode<&'static str, u32>;
type Queue = crossbeam::channel::Sender<Command<Box<Dsp<&'static str, u32>>>>;

fn new_node(id: u64, transmitter: &Queue) -> Node {
    GraphNode::new(Id::from_raw(id), EventTransmitter::new(transmitter.clone()), 1, 2, "processor", 7)
}

#[test]
fn a_dsp_keeps_its_setup() {
    let dsp = Dsp::new(Id::from_raw(3), 2, 1, "processor", 9_u32);
    assert_eq!(dsp.get_id(), Id::from_raw(3));
    assert_eq!(dsp.input_count(), 2);
    assert_eq!(dsp.output_count(), 1);
    assert_eq!(dsp.processor, "processor");
    assert_eq!(dsp.parameters, 9);
}

#[test]
fn a_new_node_adds_its_dsp() {
    let (transmitter, receiver) = crossbeam::channel::unbounded();
    let node = new_node(5, &transmitter);
    assert_eq!(node.get_id(), Id::from_raw(5));
    let commands: Vec<Command<Box<Dsp<&'static str, u32>>>> = receiver.try_iter().collect();
    assert_eq!(commands.len(), 1);
    match &commands[0] {
        Command::AddDsp(dsp) => {
            assert_eq!(dsp.get_id(), Id::from_raw(5));
            assert_eq!(dsp.input_count(), 1);
            assert_eq!(dsp.output_count(), 2);
            assert_eq!(dsp.processor, "processor");
            assert_eq!(dsp.parameters, 7);
        }
        _ => panic!("expected the node's DSP to be added"),
    }
}

#[test]
fn connections_carry_the_node_ids() {
    let (transmitter, receiver) = crossbeam::channel::unbounded();
    let mut first = new_node(1, &transmitter);
    let second = new_node(2, &transmitter);
    let _ = receiver.try_iter().count();

    first.connect_to(&second);
    first.connect_channels_to(&second, 1, 0, 1);
    first.disconnect_from_node(&second);
    first.connect_to_input();
    first.connect_to_output();
    first.remove_from_audio_process();

    let commands: Vec<Command<Box<Dsp<&'static str, u32>>>> = receiver.try_iter().collect();
    assert_eq!(commands.len(), 6);
    assert!(matches!(commands[0], Command::AddConnection(connection)
        if connection == Connection::new(Id::from_raw(1), Id::from_raw(2), 2)));
    assert!(matches!(commands[1], Command::AddConnection(connection)
        if connection == Connection::new(Id::from_raw(1), Id::from_raw(2), 1)
            .with_source_output_channel(1)
            .with_destination_input_channel(0)));
    assert!(matches!(commands[2], Command::RemoveConnection(connection)
        if connection == Connection::new(Id::from_raw(1), Id::from_raw(2), 2)));
    assert!(matches!(commands[3], Command::ConnectToInput(endpoint)
        if endpoint == Endpoint::new(Id::from_raw(1), EndpointType::Input)));
    assert!(matches!(commands[4], Command::ConnectToOutput(endpoint)
        if endpoint == Endpoint::new(Id::from_raw(1), EndpointType::Output)));
    assert!(matches!(commands[5], Command::RemoveDsp(id) if id == Id::from_raw(1)));
}
