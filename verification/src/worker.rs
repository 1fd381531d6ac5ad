//! The worker: the single dedicated execution context that consumes
//! commands in order, invokes the externally-defined delivery procedure,
//! records outcomes through the storage gateway, and publishes a terminal
//! state before it stops.

use vstd::prelude::*;

use crate::channel::Command;
use crate::channel::recv_command;
use crate::email::PreparedEmail;
use crate::status::StatusCell;
use crate::status::WorkerStatus;
use crate::status::is_terminal;
use crate::status::valid_transition;
use crate::storage::DeliveryState;
use crate::storage::MailstromStorage;
use crate::storage::StorageHandle;

verus! {

/// What the delivery procedure reports for one message.
#[derive(Clone, Copy, Debug, PartialEq, Eq, Structural)]
pub enum DeliveryOutcome {
    /// The message was handed off.
    Delivered,
    /// Delivery was attempted and did not succeed.
    Failed,
}

/// The delivery state the worker records for an outcome.
pub open spec fn state_of_outcome(outcome: DeliveryOutcome) -> DeliveryState {
    match outcome {
        DeliveryOutcome::Delivered => DeliveryState::Sent,
        DeliveryOutcome::Failed => DeliveryState::Failed,
    }
}

/// The externally-defined delivery procedure the worker invokes once per
/// dispatch. Everything about it — protocol negotiation, address
/// resolution — is outside this core; the worker relies only on it
/// returning, and records whatever it reports. An implementation that
/// blocks forever stalls the worker and every queued command behind it, a
/// known limitation of the cooperative design.
pub trait DeliveryProcedure {
    /// Attempt delivery of one prepared message. `helo_name` is the host
    /// identity captured in the coordinator's configuration.
    fn deliver(&self, email: &PreparedEmail, helo_name: &String) -> DeliveryOutcome;
}

/// The single dedicated worker bound to one coordinator handle. Exactly one
/// exists per handle; it is not restartable — once it has stopped, no
/// further command is ever processed, even if more are enqueued.
#[verifier::reject_recursive_types(S)]
pub struct Worker<S> {
    receiver: std::sync::mpsc::Receiver<Command>,
    status: StatusCell,
    storage: StorageHandle<S>,
    helo_name: String,
    state: WorkerStatus,
}

impl<S> Worker<S> {
    #[verifier::type_invariant]
    spec fn inv(self) -> bool {
        self.state == WorkerStatus::Running || is_terminal(self.state)
    }
}

impl<S: MailstromStorage> Worker<S> {
    /// The worker's own view of its lifecycle. It starts `Running`, moves
    /// only along `valid_transition`, and every move is published to the
    /// status cell in the same step, so the cell never remains `Running`
    /// once the worker has stopped.
    pub closed spec fn lifecycle(&self) -> WorkerStatus {
        self.state
    }

    /// The host identity this worker hands to the delivery procedure.
    pub closed spec fn helo(&self) -> Seq<char> {
        self.helo_name@
    }

    /// The status cell this worker publishes to, as a spec value.
    pub closed spec fn status_cell(&self) -> StatusCell {
        self.status
    }

    /// The shared gateway handle this worker writes through, as a spec
    /// value.
    pub closed spec fn storage_handle(&self) -> StorageHandle<S> {
        self.storage
    }

    pub(crate) fn new(
        receiver: std::sync::mpsc::Receiver<Command>,
        status: StatusCell,
        storage: StorageHandle<S>,
        helo_name: String,
    ) -> (r: Worker<S>)
        ensures
            r.helo() == helo_name@,
            r.lifecycle() == WorkerStatus::Running,
            r.status_cell() == status,
            r.storage_handle() == storage,
    {
        Worker { receiver, status, storage, helo_name, state: WorkerStatus::Running }
    }

    /// Move to a terminal state: publish it to the cell first, then stop.
    /// Every path out of the running state goes through here and nothing
    /// else writes the cell, so the cell never remains `Running` once the
    /// worker has stopped.
    fn exit(&mut self, to: WorkerStatus) -> (r: WorkerStatus)
        requires
            valid_transition(old(self).lifecycle(), to),
        ensures
            r == to,
            is_terminal(r),
            final(self).lifecycle() == to,
            final(self).helo() == old(self).helo(),
    {
        self.status.write(to);
        self.state = to;
        to
    }

    /// React to one received command, invoking the delivery procedure for a
    /// dispatch and recording what it reported. The per-command decision:
    /// a closed channel or a shutdown command always terminates; a dispatch
    /// never terminates — it keeps the worker running, or faults it when
    /// the storage gateway is unusable (the lock is poisoned, or the slot
    /// was never returned). The gateway writes themselves are the contract
    /// of [`apply_received`], which this calls on the taken gateway.
    fn on_received<D: DeliveryProcedure>(&mut self, received: Option<Command>, delivery: &D) -> (r:
        Option<WorkerStatus>)
        requires
            old(self).lifecycle() == WorkerStatus::Running,
        ensures
            r is None <==> final(self).lifecycle() == WorkerStatus::Running,
            r matches Some(s) ==> s == final(self).lifecycle() && is_terminal(s),
            received is None ==> r == Some(WorkerStatus::Terminated),
            received matches Some(Command::Shutdown) ==> r == Some(WorkerStatus::Terminated),
            received matches Some(Command::Dispatch(e)) ==> r is None || r == Some(
                WorkerStatus::Faulted,
            ),
            final(self).helo() == old(self).helo(),
    {
        match &received {
            Some(Command::Dispatch(email)) => {
                let outcome = delivery.deliver(email, &self.helo_name);
                match self.storage.take() {
                    None => Some(self.exit(WorkerStatus::Faulted)),
                    Some(mut storage) => {
                        let decision = apply_received(&received, &mut storage, outcome);
                        proof {
                            assert(decision is None);
                        }
                        if self.storage.put(storage) {
                            None
                        } else {
                            Some(self.exit(WorkerStatus::Faulted))
                        }
                    },
                }
            },
            _ => Some(self.exit(WorkerStatus::Terminated)),
        }
    }

    /// Consume and process the next command, blocking until one arrives.
    /// The worker's dedicated execution context calls this in a loop until
    /// it reports a terminal state; that loop is the process's sole
    /// blocking point.
    ///
    /// `None` means a dispatch was processed and the worker is still
    /// running. `Some(s)` means the worker has stopped and `s` — always
    /// terminal, already published to the cell before this returns — says
    /// how: `Terminated` on a shutdown command, or on the channel closing
    /// with no pending command (the coordinator handle was dropped);
    /// `Faulted` when the storage gateway is unusable. A worker that has
    /// stopped consumes nothing further and reports its state unchanged.
    /// Shutdown is cooperative: a dispatch in progress — and this call, if
    /// its delivery blocks forever — runs to completion first.
    ///
    /// What the channel hands back is environmental, so this contract
    /// cannot promise which command arrives; what each received command
    /// does is the contract of `on_received` ([`apply_received`] for the
    /// gateway writes), which this merely feeds.
    pub fn step<D: DeliveryProcedure>(&mut self, delivery: &D) -> (r: Option<WorkerStatus>)
        ensures
            r is None <==> final(self).lifecycle() == WorkerStatus::Running,
            r matches Some(s) ==> s == final(self).lifecycle() && is_terminal(s),
            final(self).lifecycle() == old(self).lifecycle() || valid_transition(
                old(self).lifecycle(),
                final(self).lifecycle(),
            ),
            is_terminal(old(self).lifecycle()) ==> final(self).lifecycle() == old(
                self,
            ).lifecycle(),
            final(self).helo() == old(self).helo(),
    {
        proof {
            use_type_invariant(&*self);
        }
        match self.state {
            WorkerStatus::Running => {},
            other => {
                return Some(other);
            },
        }
        let received = recv_command(&self.receiver);
        self.on_received(received, delivery)
    }
}

/// What the worker does with one received command against a usable storage
/// gateway — the whole per-command protocol, delivery already performed.
///
/// A closed channel (`None`) or a shutdown command stops the worker with
/// `Terminated` and writes nothing through the gateway. A dispatch keeps it
/// running (`None`) and records the message: the item is first tracked with
/// the initial state `Queued`, then that record is replaced with what the
/// delivery procedure reported (`outcome`; it is ignored for anything but a
/// dispatch). A dispatch whose identifier is somehow already tracked is not
/// a fault: the later write supersedes the record, as the net effect says.
pub fn apply_received<S: MailstromStorage>(
    received: &Option<Command>,
    storage: &mut S,
    outcome: DeliveryOutcome,
) -> (r: Option<WorkerStatus>)
    ensures
        (*received is None || *received matches Some(Command::Shutdown)) ==> r == Some(
            WorkerStatus::Terminated,
        ) && final(storage).gateway() == old(storage).gateway(),
        *received matches Some(Command::Dispatch(e)) ==> r is None && final(storage).gateway()
            == old(storage).gateway().insert(e.message_id@, DeliveryState::Queued).insert(
            e.message_id@,
            state_of_outcome(outcome),
        ),
{
    match received {
        Some(Command::Dispatch(email)) => {
            let ghost at_first = storage.gateway();
            let recorded = match outcome {
                DeliveryOutcome::Delivered => DeliveryState::Sent,
                DeliveryOutcome::Failed => DeliveryState::Failed,
            };
            let created = storage.create(&email.message_id, DeliveryState::Queued);
            let updated = storage.update(&email.message_id, recorded);
            proof {
                assert(updated is Ok);
                if created is Err {
                    assert(storage.gateway() =~= at_first.insert(
                        email.message_id@,
                        DeliveryState::Queued,
                    ).insert(email.message_id@, state_of_outcome(outcome)));
                }
            }
            None
        },
        _ => Some(WorkerStatus::Terminated),
    }
}

} // verus!
