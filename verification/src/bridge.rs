use vstd::prelude::*;
use crate::errors::ProviderError;
use crate::session::SessionId;

verus! {

/// A completion outcome deposited by a provider callback: the created or
/// joined session on success, the provider's failure otherwise. Transient:
/// created by the callback, consumed exactly once by a later poll.
pub type PendingResult = Result<SessionId, ProviderError>;

/// Declares `flume::Sender`, the producing half of a `flume` channel, so
/// that it can stand in fields here; its values stay opaque.
#[verifier::external_type_specification]
#[verifier::external_body]
#[verifier::reject_recursive_types(T)]
pub struct ExSender<T>(flume::Sender<T>);

/// Declares `flume::Receiver`, the consuming half of a `flume` channel, so
/// that it can stand in fields here; its values stay opaque.
#[verifier::external_type_specification]
#[verifier::external_body]
#[verifier::reject_recursive_types(T)]
pub struct ExReceiver<T>(flume::Receiver<T>);

/// Hand-off point between provider callback threads and the polling thread.
///
/// Producers deposit completion results through a [`ResultSink`] from any
/// thread; the polling thread takes them back out, one at a time, with
/// [`SessionBridge::try_take`]. The queue behind it is the unbounded channel
/// of the `flume` crate: depositing never blocks and never fails, taking
/// never blocks, and values come out in the order they went in (first in,
/// first out; per producer the order of its own deposits is kept).
///
/// Because producers run on threads the provider owns, nothing can be
/// pinned down here about what a given `try_take` returns; what each
/// possible outcome leads to is stated on `LobbyCoordinator::apply_outcome`,
/// which is verified for every outcome.
pub struct SessionBridge {
    tx: flume::Sender<PendingResult>,
    rx: flume::Receiver<PendingResult>,
}

/// A producer handle onto a [`SessionBridge`], made to be moved into a
/// provider completion callback and used from any thread. Each callback
/// gets one of its own from [`SessionBridge::sink`].
pub struct ResultSink {
    tx: flume::Sender<PendingResult>,
}

impl SessionBridge {
    /// Relies on `flume::unbounded`: a fresh channel, connected to itself
    /// and holding no values.
    #[verifier::external_body]
    pub fn new() -> SessionBridge {
        let (tx, rx) = flume::unbounded();
        SessionBridge { tx, rx }
    }

    /// Relies on `flume::Sender::clone`: the clone deposits into the same
    /// channel as this bridge.
    #[verifier::external_body]
    pub fn sink(&self) -> ResultSink {
        ResultSink { tx: self.tx.clone() }
    }

    /// Deposit one completion result. Never blocks and never fails.
    pub fn submit(&self, result: PendingResult) {
        self.sink().submit(result);
    }

    /// Relies on `flume::Receiver::try_recv`: returns the oldest value
    /// still in the channel, or nothing when the channel holds no value at
    /// this moment; never blocks. Which of the two happens depends on what
    /// the producer threads have deposited so far, so no more is promised
    /// here.
    #[verifier::external_body]
    pub fn try_take(&self) -> Option<PendingResult> {
        self.rx.try_recv().ok()
    }
}

impl ResultSink {
    /// Relies on `flume::Sender::send`: queues the value at the back of the
    /// channel; on an unbounded channel it never blocks, and it fails only
    /// when the receiving half is gone, in which case the value is dropped.
    #[verifier::external_body]
    pub fn submit(&self, result: PendingResult) {
        let _ = self.tx.send(result);
    }
}

} // verus!
