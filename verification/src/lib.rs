//! A background mail-dispatch coordinator: callers submit outbound messages
//! while a single dedicated worker processes them in order, persists their
//! delivery state through a caller-supplied storage gateway, and publishes
//! its own health through a lock-free status cell.
//!
//! [`Mailstrom::new`] builds the command channel, the status cell and the
//! shared gateway handle, and hands back the [`Worker`] bound to them; the
//! caller gives that worker a dedicated execution context and runs it
//! there. Callers then submit through [`Mailstrom::send_email`], request
//! shutdown through [`Mailstrom::die`], and observe the worker through
//! [`Mailstrom::worker_status`]; none of these ever waits for the worker.

use vstd::prelude::*;

mod channel;
mod email;
mod error;
mod status;
mod storage;
mod worker;

pub use crate::channel::Command;
pub use crate::email::PreparedEmail;
pub use crate::email::prepare_email;
pub use crate::email::prepare_rfc_email;
pub use crate::email::bytes_of;
pub use crate::email::recipients_of;
pub use crate::error::Error;
pub use crate::status::StatusCell;
pub use crate::status::WorkerStatus;
pub use crate::status::is_terminal;
pub use crate::status::lemma_corruption_detected;
pub use crate::status::lemma_exit_is_terminal;
pub use crate::status::lemma_status_round_trip;
pub use crate::status::lemma_terminal_is_final;
pub use crate::status::status_code;
pub use crate::status::status_of_code;
pub use crate::status::valid_transition;
pub use crate::storage::DeliveryState;
pub use crate::storage::MailstromStorage;
pub use crate::storage::MemoryStorage;
pub use crate::storage::StorageError;
pub use crate::storage::StorageHandle;
pub use crate::worker::DeliveryOutcome;
pub use crate::worker::DeliveryProcedure;
pub use crate::worker::Worker;
pub use crate::worker::apply_received;
pub use crate::worker::state_of_outcome;

use crate::channel::send_command;
use crate::email::prepare_rfc_email as prepare_submission;

verus! {

/// Immutable values captured at construction and read-only for the life of
/// the handle.
pub struct Config {
    /// The host identity the delivery procedure announces.
    pub helo_name: String,
}

impl Default for Config {
    /// The default configuration: `localhost` as the host identity.
    fn default() -> (r: Config)
        ensures
            r.helo_name@ == "localhost"@,
    {
        Config { helo_name: <String as vstd::string::StringExecFns>::from_str("localhost") }
    }
}

/// The caller-facing owner of one running coordinator instance: the sole
/// retained sending end of the command channel, the read side of the status
/// cell, and a share of the storage gateway. Several independent instances
/// coexist safely, each with its own worker and cell.
#[verifier::reject_recursive_types(S)]
pub struct Mailstrom<S: MailstromStorage> {
    config: Config,
    sender: std::sync::mpsc::Sender<Command>,
    worker_status: StatusCell,
    storage: StorageHandle<S>,
}

impl<S: MailstromStorage> Mailstrom<S> {
    /// Create a new Mailstrom instance for sending emails, together with
    /// the one worker bound to it.
    ///
    /// The instance is live only once the caller has given the worker a
    /// dedicated execution context and steps it there; the handle's
    /// operations assume a worker that is, or was, running.
    ///
    /// Handle and worker are two sides of one instance: they hold the same
    /// status cell and the same gateway handle, and the worker starts in
    /// the running state with the configured host identity.
    pub fn new(config: Config, storage: S) -> (r: (Mailstrom<S>, Worker<S>))
        ensures
            r.1.lifecycle() == WorkerStatus::Running,
            r.1.helo() == config.helo_name@,
            r.0.status_cell() == r.1.status_cell(),
            r.0.storage_handle() == r.1.storage_handle(),
    {
        let (sender, receiver) = crate::channel::command_channel();
        let storage_handle = StorageHandle::new(storage);
        let worker_status = StatusCell::new();
        let worker = Worker::new(
            receiver,
            worker_status.share(),
            storage_handle.share(),
            config.helo_name.clone(),
        );
        (Mailstrom { config, sender, worker_status, storage: storage_handle }, worker)
    }

    /// Ask the worker to die. This is not required: letting the handle fall
    /// out of scope requests the same shutdown. Fails with `ChannelClosed`
    /// exactly when the worker has already exited; idempotent in effect —
    /// a repeated request is either consumed harmlessly or refused here.
    pub fn die(&self) -> (r: Result<(), Error>)
        ensures
            r matches Err(e) ==> e == Error::ChannelClosed,
    {
        match send_command(&self.sender, Command::Shutdown) {
            Ok(()) => Ok(()),
            Err(_) => Err(Error::ChannelClosed),
        }
    }

    /// Determine the status of the worker: a non-blocking read of the
    /// status cell that always succeeds. The value may already be stale by
    /// the time the caller acts on it.
    pub fn worker_status(&self) -> WorkerStatus {
        self.worker_status.read()
    }

    /// Send an email: validate and transform it into the internal payload —
    /// `Validation` exactly when it names no recipient, before anything
    /// touches the channel — then enqueue a dispatch, `ChannelClosed` if
    /// the worker has already exited. Never blocks and never waits for the
    /// worker.
    pub fn send_email(&self, rfc_email: email_format::Email) -> (r: Result<(), Error>)
        ensures
            r matches Err(e) ==> e == Error::Validation || e == Error::ChannelClosed,
            (r matches Err(e) && e == Error::Validation) <==> recipients_of(rfc_email).len()
                == 0,
    {
        let email = match prepare_submission(&rfc_email, &self.config.helo_name) {
            Ok(email) => email,
            Err(e) => {
                return Err(e);
            },
        };
        match send_command(&self.sender, Command::Dispatch(email)) {
            Ok(()) => Ok(()),
            Err(_) => Err(Error::ChannelClosed),
        }
    }

    /// The status cell this coordinator reads, as a spec value.
    pub closed spec fn status_cell(&self) -> StatusCell {
        self.worker_status
    }

    /// The shared gateway handle this coordinator holds, as a spec value.
    pub closed spec fn storage_handle(&self) -> StorageHandle<S> {
        self.storage
    }

    /// Another handle on the shared storage gateway — the one the worker
    /// writes through — for readers that want to observe delivery state
    /// alongside it.
    pub fn storage(&self) -> (r: StorageHandle<S>)
        ensures
            r == self.storage_handle(),
    {
        self.storage.share()
    }
}

impl<S: MailstromStorage> Drop for Mailstrom<S> {
    /// Best-effort shutdown on release of the handle: enqueue `Shutdown`,
    /// swallowing the failure if the worker is already gone. Never blocks
    /// and does not wait for the worker to drain or exit.
    fn drop(&mut self)
        opens_invariants none
        no_unwind
    {
        let _ = send_command(&self.sender, Command::Shutdown);
    }
}

} // verus!
