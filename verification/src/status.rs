//! Lifecycle state of the dispatch worker, and the shared cell that
//! publishes it to callers without locking.

use vstd::prelude::*;

verus! {

/// The lifecycle of the dispatch worker, as published to callers.
///
/// `Running` is the initial state. `Terminated` means the worker observed
/// a shutdown (an explicit command, or the command channel closing) and
/// exited. `Faulted` means the worker hit an unrecoverable fault while
/// processing a single dispatch and exited. Transitions are one-way: a
/// worker that reached `Terminated` or `Faulted` never runs again.
///
/// `Unknown` is never written by the worker: it is what a reader gets when
/// the status cell holds an unrecognized encoding, so corruption of the cell
/// is detectable rather than silently mapped to a live state.
#[derive(Clone, Copy, Debug, PartialEq, Eq, Structural)]
pub enum WorkerStatus {
    Running,
    Terminated,
    Faulted,
    Unknown,
}

/// The numeric encoding of a status. The encoding is confined to the
/// status-cell boundary: a status crosses threads only as one of these bytes.
pub open spec fn status_code(s: WorkerStatus) -> u8 {
    match s {
        WorkerStatus::Running => 0,
        WorkerStatus::Terminated => 1,
        WorkerStatus::Faulted => 2,
        WorkerStatus::Unknown => 255,
    }
}

/// Decoding of a byte read back from the status cell. Every byte outside the
/// three encodings the worker can write reads as `Unknown`.
pub open spec fn status_of_code(v: u8) -> WorkerStatus {
    if v == 0 {
        WorkerStatus::Running
    } else if v == 1 {
        WorkerStatus::Terminated
    } else if v == 2 {
        WorkerStatus::Faulted
    } else {
        WorkerStatus::Unknown
    }
}

/// A status the worker stops on. Once the worker's loop exits, the cell
/// holds one of these, never `Running`.
pub open spec fn is_terminal(s: WorkerStatus) -> bool {
    s == WorkerStatus::Terminated || s == WorkerStatus::Faulted
}

/// The one-way transition relation of the worker's lifecycle: a running
/// worker may stop, and a stopped worker never transitions again.
pub open spec fn valid_transition(from: WorkerStatus, to: WorkerStatus) -> bool {
    from == WorkerStatus::Running && is_terminal(to)
}

impl WorkerStatus {
    /// Encode this status for the status cell.
    pub fn to_u8(self) -> (r: u8)
        ensures
            r == status_code(self),
    {
        match self {
            WorkerStatus::Running => 0,
            WorkerStatus::Terminated => 1,
            WorkerStatus::Faulted => 2,
            WorkerStatus::Unknown => 255,
        }
    }

    /// Decode a byte read from the status cell.
    pub fn from_u8(v: u8) -> (r: WorkerStatus)
        ensures
            r == status_of_code(v),
    {
        if v == 0 {
            WorkerStatus::Running
        } else if v == 1 {
            WorkerStatus::Terminated
        } else if v == 2 {
            WorkerStatus::Faulted
        } else {
            WorkerStatus::Unknown
        }
    }
}

/// Law: decoding inverts encoding, so a status survives the trip through
/// the cell byte-for-byte.
pub proof fn lemma_status_round_trip(s: WorkerStatus)
    ensures
        status_of_code(status_code(s)) == s,
{
}

/// Law: a byte decodes to `Unknown` exactly when it is none of the three
/// encodings the worker can write — corruption of the cell is detected,
/// never silently defaulted to a live or terminal state.
pub proof fn lemma_corruption_detected(v: u8)
    ensures
        (status_of_code(v) == WorkerStatus::Unknown) <==> (v != 0 && v != 1 && v != 2),
{
}

/// Law: terminal states are final — no transition leaves `Terminated` or
/// `Faulted`; in particular, once a reader has seen `Terminated`, the worker
/// never again publishes `Running`.
pub proof fn lemma_terminal_is_final(from: WorkerStatus, to: WorkerStatus)
    ensures
        is_terminal(from) ==> !valid_transition(from, to),
{
}

/// Law: every transition out of the running state lands in a terminal
/// state, so a worker that stops consuming commands always publishes
/// `Terminated` or `Faulted`.
pub proof fn lemma_exit_is_terminal(from: WorkerStatus, to: WorkerStatus)
    ensures
        valid_transition(from, to) ==> is_terminal(to),
{
}

/// Relies on std::sync::Arc::clone: the clone refers to the same shared
/// value as the original.
#[verifier::external_body]
pub(crate) fn arc_clone<T>(v: &std::sync::Arc<T>) -> (r: std::sync::Arc<T>)
    ensures
        r == *v,
{
    std::sync::Arc::clone(v)
}

/// The shared cell that publishes a `WorkerStatus`. The status is encoded in
/// a single atomic byte, so a read observes a complete write, never a torn
/// value, and no operation blocks.
///
/// Protocol (by construction, not locally checkable): exactly one execution
/// context — the worker — ever calls `write`; arbitrarily many may call
/// `read`. A value read may already be stale by the time the caller acts
/// on it.
pub struct StatusCell {
    cell: std::sync::Arc<core::sync::atomic::AtomicU8>,
}

impl StatusCell {
    /// A fresh cell holding the running state.
    pub fn new() -> (r: StatusCell) {
        StatusCell {
            cell: std::sync::Arc::new(
                core::sync::atomic::AtomicU8::new(WorkerStatus::Running.to_u8()),
            ),
        }
    }

    /// Another handle on the same cell, for the other side of the
    /// reader/writer split.
    pub fn share(&self) -> (r: StatusCell)
        ensures
            r == *self,
    {
        StatusCell { cell: arc_clone(&self.cell) }
    }

    /// Publish a status. Called only by the worker, once per terminal
    /// transition.
    pub fn write(&self, status: WorkerStatus) {
        self.cell.store(status.to_u8(), core::sync::atomic::Ordering::SeqCst);
    }

    /// Read the most recently published status (or an earlier one; the cell
    /// makes no freshness promise). Never blocks.
    pub fn read(&self) -> WorkerStatus {
        WorkerStatus::from_u8(self.cell.load(core::sync::atomic::Ordering::SeqCst))
    }
}

} // verus!
