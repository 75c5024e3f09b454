use vstd::prelude::*;

verus! {

/// The sending half of a `crossbeam` channel
#[verifier::external_type_specification]
#[verifier::external_body]
#[verifier::reject_recursive_types(T)]
pub struct ExSender<T>(crossbeam::channel::Sender<T>);

/// The receiving half of a `crossbeam` channel
#[verifier::external_type_specification]
#[verifier::external_body]
#[verifier::reject_recursive_types(T)]
pub struct ExReceiver<T>(crossbeam::channel::Receiver<T>);

/// The receiving half of an event channel
pub type EventReceiver<T> = crossbeam::channel::Receiver<T>;

/// The largest capacity for which `crossbeam::channel::bounded` can set up its
/// ring buffer without overflowing its index arithmetic on any target: the
/// capacity plus one, rounded up to a power of two and then doubled, must fit
/// in 32 bits where the index is a 32-bit `usize`
pub const MAX_CHANNEL_CAPACITY: usize = 0x2000_0000;

/// The sending half of an event channel between the control thread and the
/// audio thread, with the record of every message handed to it
#[verifier::reject_recursive_types(T)]
pub struct EventTransmitter<T> {
    sender: crossbeam::channel::Sender<T>,
    handed_over: Ghost<Seq<T>>,
}

impl<T> EventTransmitter<T> {
    /// Every message handed to the channel through this transmitter, in
    /// order; only `send_message` adds to it
    pub closed spec fn sent(&self) -> Seq<T> {
        self.handed_over@
    }

    /// A transmitter that sends on `sender`, with nothing handed over yet
    pub fn new(sender: crossbeam::channel::Sender<T>) -> (transmitter: Self)
        ensures
            transmitter.sent() == Seq::<T>::empty(),
    {
        Self { sender, handed_over: Ghost(Seq::empty()) }
    }
}

/// Calls `crossbeam::channel::bounded`, which creates a channel that holds at
/// most `capacity` messages at a time.
///
/// Nothing is claimed of the two halves: what flows through them depends on
/// the other thread. `crossbeam` panics when the capacity is too large for its
/// index arithmetic, so the capacity is bounded.
#[verifier::external_body]
pub fn bounded_channel<T>(capacity: usize) -> (channel: (crossbeam::channel::Sender<T>, EventReceiver<T>))
    requires
        capacity <= MAX_CHANNEL_CAPACITY,
{
    crossbeam::channel::bounded(capacity)
}

/// A channel that holds at most `capacity` messages at a time, with nothing
/// handed over yet
pub fn event_channel<T>(capacity: usize) -> (channel: (EventTransmitter<T>, EventReceiver<T>))
    requires
        capacity <= MAX_CHANNEL_CAPACITY,
    ensures
        channel.0.sent() == Seq::<T>::empty(),
{
    let (sender, receiver) = bounded_channel(capacity);
    (EventTransmitter::new(sender), receiver)
}

/// Calls `crossbeam::channel::Sender::send`, which hands `message` to the
/// receiving side, blocking while a bounded channel is full.
///
/// The claim is that `message` is the one handed to `send`: the transmitter's
/// record grows by it. Whether the receiving side still exists, and so the
/// result, is not claimed.
#[verifier::external_body]
pub fn send_message<T>(transmitter: &mut EventTransmitter<T>, message: T) -> (accepted: bool)
    ensures
        final(transmitter).sent() == old(transmitter).sent().push(message),
{
    transmitter.sender.send(message).is_ok()
}

/// Calls `crossbeam::channel::Receiver::try_iter` and collects what it yields:
/// every message that is waiting in the channel, without blocking.
///
/// What is waiting depends on the other thread, so nothing is claimed of the
/// messages.
#[verifier::external_body]
pub fn drain_messages<T>(receiver: &EventReceiver<T>) -> (messages: Vec<T>) {
    receiver.try_iter().collect()
}

} // verus!
