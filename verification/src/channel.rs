//! The command channel: the ordered, unbounded, multi-producer /
//! single-consumer hand-off that decouples caller threads from the worker.

use vstd::prelude::*;

use crate::email::PreparedEmail;

verus! {

/// One instruction for the worker, consumed exactly once, in the order it
/// was enqueued.
pub enum Command {
    /// Process one outbound message and persist its delivery state.
    Dispatch(PreparedEmail),
    /// Stop consuming and exit.
    Shutdown,
}

#[verifier::external_type_specification]
#[verifier::external_body]
#[verifier::reject_recursive_types(T)]
pub struct ExSender<T>(std::sync::mpsc::Sender<T>);

#[verifier::external_type_specification]
#[verifier::external_body]
#[verifier::reject_recursive_types(T)]
pub struct ExReceiver<T>(std::sync::mpsc::Receiver<T>);

/// Relies on std::sync::mpsc::channel: a FIFO queue with no bound. Commands
/// reach the receiver in the order each sender enqueued them — never
/// reordered, duplicated or dropped while both ends live — and enqueueing
/// never blocks.
#[verifier::external_body]
pub(crate) fn command_channel() -> (r: (
    std::sync::mpsc::Sender<Command>,
    std::sync::mpsc::Receiver<Command>,
)) {
    std::sync::mpsc::channel()
}

/// Relies on std::sync::mpsc::Sender::send: never blocks and never panics;
/// fails exactly when the receiving end has been dropped, handing the
/// unsent command back to the caller.
#[verifier::external_body]
pub(crate) fn send_command(sender: &std::sync::mpsc::Sender<Command>, command: Command) -> (r:
    Result<(), Command>)
    ensures
        r matches Err(c) ==> c == command,
    opens_invariants none
    no_unwind
{
    match sender.send(command) {
        Ok(()) => Ok(()),
        Err(std::sync::mpsc::SendError(c)) => Err(c),
    }
}

/// Relies on std::sync::mpsc::Receiver::recv: blocks until a command is
/// available and returns it, or returns `None` once the queue is empty and
/// every sending end is gone.
#[verifier::external_body]
pub(crate) fn recv_command(receiver: &std::sync::mpsc::Receiver<Command>) -> (r: Option<Command>) {
    receiver.recv().ok()
}

} // verus!
