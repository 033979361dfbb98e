//! Channels between the player's owner and its callers.
//!
//! Whether a message comes or goes depends on what other threads have done to the far end of the
//! channel, so the operations here do not say it. A message that was not sent is handed back.
//! Every caller passes the result on to a function that decides by it.
use vstd::prelude::*;

verus! {

/// The receiving end of `crossbeam_channel`'s channel.
#[verifier::external_type_specification]
#[verifier::external_body]
#[verifier::reject_recursive_types(T)]
pub struct ExReceiver<T>(crossbeam_channel::Receiver<T>);

/// The sending end of `crossbeam_channel`'s channel.
#[verifier::external_type_specification]
#[verifier::external_body]
#[verifier::reject_recursive_types(T)]
pub struct ExSender<T>(crossbeam_channel::Sender<T>);

/// A reading of the standard library's monotonic clock.
#[verifier::external_type_specification]
#[verifier::external_body]
pub struct ExInstant(std::time::Instant);

/// Why an attempt to receive gave nothing.
#[derive(Debug, Clone, Copy, PartialEq, Eq, Structural)]
pub enum TryReceiveError {
    /// The channel is empty.
    Empty,
    /// The channel is empty and has no sender any more.
    Disconnected,
}

/// Why a wait for a message ended without one: the channel has no sender any more.
#[derive(Debug, Clone, Copy, PartialEq, Eq, Structural)]
pub struct ReceiveError;

/// Why a wait for a message with a deadline ended without one.
#[derive(Debug, Clone, Copy, PartialEq, Eq, Structural)]
pub enum ReceiveUntilError {
    /// The deadline passed.
    Timeout,
    /// The channel is empty and has no sender any more.
    Disconnected,
}

/// Takes a message with `crossbeam_channel::Receiver::try_recv`. Which result comes back depends
/// on the senders.
#[verifier::external_body]
fn try_recv<T>(receiver: &crossbeam_channel::Receiver<T>) -> (r: Result<T, TryReceiveError>) {
    match receiver.try_recv() {
        Ok(message) => Ok(message),
        Err(crossbeam_channel::TryRecvError::Empty) => Err(TryReceiveError::Empty),
        Err(crossbeam_channel::TryRecvError::Disconnected) => Err(TryReceiveError::Disconnected),
    }
}

/// Waits for a message with `crossbeam_channel::Receiver::recv`. Which result comes back
/// depends on the senders.
#[verifier::external_body]
fn recv<T>(receiver: &crossbeam_channel::Receiver<T>) -> (r: Result<T, ReceiveError>) {
    receiver.recv().map_err(|_| ReceiveError)
}

/// Waits for a message until a deadline, with `crossbeam_channel::Receiver::recv_deadline`.
/// Which result comes back depends on the senders and the clock.
#[verifier::external_body]
fn recv_deadline<T>(
    receiver: &crossbeam_channel::Receiver<T>,
    deadline: std::time::Instant,
) -> (r: Result<T, ReceiveUntilError>) {
    match receiver.recv_deadline(deadline) {
        Ok(message) => Ok(message),
        Err(crossbeam_channel::RecvTimeoutError::Timeout) => Err(ReceiveUntilError::Timeout),
        Err(crossbeam_channel::RecvTimeoutError::Disconnected) => {
            Err(ReceiveUntilError::Disconnected)
        },
    }
}

/// Whether a result came of an attempt to take a message.
pub closed spec fn is_attempted<T>(
    receiver: crossbeam_channel::Receiver<T>,
    received: Result<T, TryReceiveError>,
) -> bool {
    call_ensures(try_recv::<T>, (&receiver,), received)
}

/// Takes a message without waiting.
pub(crate) fn try_receive<T>(receiver: &crossbeam_channel::Receiver<T>) -> (r: Result<
    T,
    TryReceiveError,
>)
    ensures
        is_attempted(*receiver, r),
{
    try_recv(receiver)
}

/// Whether a result came of a wait for a message.
pub closed spec fn is_awaited<T>(
    receiver: crossbeam_channel::Receiver<T>,
    received: Result<T, ReceiveError>,
) -> bool {
    call_ensures(recv::<T>, (&receiver,), received)
}

/// Waits for a message.
pub(crate) fn receive<T>(receiver: &crossbeam_channel::Receiver<T>) -> (r: Result<T, ReceiveError>)
    ensures
        is_awaited(*receiver, r),
{
    recv(receiver)
}

/// Whether a result came of a wait for a message until a deadline.
pub closed spec fn is_awaited_until<T>(
    receiver: crossbeam_channel::Receiver<T>,
    deadline: std::time::Instant,
    received: Result<T, ReceiveUntilError>,
) -> bool {
    call_ensures(recv_deadline::<T>, (&receiver, deadline), received)
}

/// Waits for a message until a deadline.
pub(crate) fn receive_until<T>(
    receiver: &crossbeam_channel::Receiver<T>,
    deadline: std::time::Instant,
) -> (r: Result<T, ReceiveUntilError>)
    ensures
        is_awaited_until(*receiver, deadline, r),
{
    recv_deadline(receiver, deadline)
}

/// The two ends of a new channel with room for a number of messages, from
/// `crossbeam_channel::bounded`. Which channel it is depends on what was made before.
#[verifier::external_body]
fn bounded<T>(capacity: usize) -> (r: (
    crossbeam_channel::Sender<T>,
    crossbeam_channel::Receiver<T>,
)) {
    crossbeam_channel::bounded(capacity)
}

/// Whether a sender and a receiver are the two ends that came of making one channel, with room
/// for a number of messages.
pub closed spec fn is_channel<T>(
    sender: crossbeam_channel::Sender<T>,
    receiver: crossbeam_channel::Receiver<T>,
    capacity: usize,
) -> bool {
    call_ensures(bounded::<T>, (capacity,), (sender, receiver))
}

/// The two ends of a new channel.
pub(crate) fn channel<T>(capacity: usize) -> (r: (
    crossbeam_channel::Sender<T>,
    crossbeam_channel::Receiver<T>,
))
    ensures
        is_channel(r.0, r.1, capacity),
{
    bounded(capacity)
}

/// Another handle to the receiving side of a channel, with the `Clone` of
/// `crossbeam_channel::Receiver`: it points to the same channel, so as a value it is the same
/// receiver.
#[verifier::external_body]
pub(crate) fn clone_receiver<T>(receiver: &crossbeam_channel::Receiver<T>) -> (r:
    crossbeam_channel::Receiver<T>)
    ensures
        r == *receiver,
{
    receiver.clone()
}

/// Why a message was not sent; it comes back.
#[derive(Debug, PartialEq, Eq)]
pub enum SendFailure<T> {
    /// The channel is full.
    Full(T),
    /// The channel has no receiver any more.
    Disconnected(T),
}

/// Whether a message that was not sent came back.
pub open spec fn comes_back<T>(message: T, sent: Result<(), SendFailure<T>>) -> bool {
    match sent {
        Ok(()) => true,
        Err(SendFailure::Full(unsent)) => unsent == message,
        Err(SendFailure::Disconnected(unsent)) => unsent == message,
    }
}

/// Sends a message with `crossbeam_channel::Sender::try_send`. Which result comes back depends on
/// the receivers; a message that was not sent is handed back.
#[verifier::external_body]
fn try_send_message<T>(sender: &crossbeam_channel::Sender<T>, message: T) -> (r: Result<
    (),
    SendFailure<T>,
>)
    ensures
        comes_back(message, r),
{
    match sender.try_send(message) {
        Ok(()) => Ok(()),
        Err(crossbeam_channel::TrySendError::Full(unsent)) => Err(SendFailure::Full(unsent)),
        Err(crossbeam_channel::TrySendError::Disconnected(unsent)) => {
            Err(SendFailure::Disconnected(unsent))
        },
    }
}

/// Sends a message and waits a while for room, with `crossbeam_channel::Sender::send_timeout`.
/// Which result comes back depends on the receivers and the clock; a message that was not sent
/// is handed back, as from a full channel where the while is over.
#[verifier::external_body]
fn send_timeout<T>(sender: &crossbeam_channel::Sender<T>, message: T, timeout_millis: u64) -> (r:
    Result<(), SendFailure<T>>)
    ensures
        comes_back(message, r),
{
    match sender.send_timeout(message, std::time::Duration::from_millis(timeout_millis)) {
        Ok(()) => Ok(()),
        Err(crossbeam_channel::SendTimeoutError::Timeout(unsent)) => Err(SendFailure::Full(unsent)),
        Err(crossbeam_channel::SendTimeoutError::Disconnected(unsent)) => {
            Err(SendFailure::Disconnected(unsent))
        },
    }
}

/// Whether a result came of an attempt to send a message.
pub closed spec fn is_offered<T>(
    sender: crossbeam_channel::Sender<T>,
    message: T,
    sent: Result<(), SendFailure<T>>,
) -> bool {
    call_ensures(try_send_message::<T>, (&sender, message), sent)
}

/// Sends a message without waiting.
pub(crate) fn try_send<T>(sender: &crossbeam_channel::Sender<T>, message: T) -> (r: Result<
    (),
    SendFailure<T>,
>)
    ensures
        is_offered(*sender, message, r),
        comes_back(message, r),
{
    try_send_message(sender, message)
}

/// Whether a result came of an attempt to send a message that waited a while for room.
pub closed spec fn is_offered_within<T>(
    sender: crossbeam_channel::Sender<T>,
    message: T,
    timeout_millis: u64,
    sent: Result<(), SendFailure<T>>,
) -> bool {
    call_ensures(send_timeout::<T>, (&sender, message, timeout_millis), sent)
}

/// Sends a message and waits a while for room.
pub(crate) fn send_within<T>(
    sender: &crossbeam_channel::Sender<T>,
    message: T,
    timeout_millis: u64,
) -> (r: Result<(), SendFailure<T>>)
    ensures
        is_offered_within(*sender, message, timeout_millis, r),
        comes_back(message, r),
{
    send_timeout(sender, message, timeout_millis)
}

/// Whether a message was offered to a channel, whatever became of it.
pub open spec fn is_reported<T>(sender: crossbeam_channel::Sender<T>, message: T) -> bool {
    exists|sent: Result<(), SendFailure<T>>| is_offered(sender, message, sent)
}

/// Sends a message without waiting. Where there is no room or nobody to receive it, it is dropped.
pub(crate) fn report<T>(sender: &crossbeam_channel::Sender<T>, message: T)
    ensures
        is_reported(*sender, message),
{
    let _sent = try_send(sender, message);
}

/// Whether a wakeup was offered to a channel. A full channel holds a wakeup already, and a
/// channel without a receiver has nobody to wake, so the result is of no interest.
pub open spec fn is_woken(sender: crossbeam_channel::Sender<()>) -> bool {
    is_reported(sender, ())
}

/// Leaves a wakeup in the channel.
pub(crate) fn wake(sender: &crossbeam_channel::Sender<()>)
    ensures
        is_woken(*sender),
{
    report(sender, ());
}

} // verus!
