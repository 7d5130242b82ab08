//! The dictation lifecycle coordinator.
//!
//! A session cycles `Idle -> Recording -> Transcribing -> Idle`. The store
//! owns the process's single [`SessionState`] value, so at most one session
//! can be `Recording` or `Transcribing` at any instant: exclusivity is
//! structural, and the contracts below pin down every transition, including
//! that a call in the wrong state is refused with a protocol error and no
//! state change.
//!
//! The `Recording` state is the only holder of the session's single-use
//! cancellation sender. Ending a recording moves the sender out (it cannot be
//! copied), so it is fired at most once per session; overwriting a
//! `Recording` state drops the sender, which the receiver observes exactly
//! like a fired signal (an implicit cancellation, e.g. on teardown).
//!
//! The store's caller is expected to guard it with a mutual-exclusion lock
//! held only for these brief critical sections; none of them blocks or
//! suspends. Firing the sender happens outside the store, after `try_end`
//! has already released it.

use crate::errors::Error;
use tokio::sync::oneshot::{Receiver, Sender};
use vstd::prelude::*;

verus! {

/// Declares tokio::sync::oneshot::Sender: the consumable end of the
/// session's cancellation token, opaque here.
#[verifier::external_type_specification]
#[verifier::external_body]
#[verifier::reject_recursive_types(T)]
pub struct ExOneshotSender<T>(Sender<T>);

/// Declares tokio::sync::oneshot::Receiver: the waiting end of the
/// session's cancellation token, opaque here; the capture operation blocks
/// on it outside this crate.
#[verifier::external_type_specification]
#[verifier::external_body]
#[verifier::reject_recursive_types(T)]
pub struct ExOneshotReceiver<T>(Receiver<T>);

/// Declares tokio::sync::oneshot::error::RecvError, which a dropped sender
/// hands the waiting receiver.
#[verifier::external_type_specification]
#[verifier::external_body]
pub struct ExOneshotRecvError(tokio::sync::oneshot::error::RecvError);

/// Relies on tokio::sync::oneshot::channel: creates a fresh, connected
/// sender/receiver pair. Nothing further is assumed of the pair.
pub assume_specification<T>[ tokio::sync::oneshot::channel::<T> ]() -> (r: (
    Sender<T>,
    Receiver<T>,
));

/// Relies on tokio::sync::oneshot::Sender::send: consumes the sender and
/// completes the channel; if the receiver was already dropped, the value is
/// handed back in the error. Whether the send is delivered depends on the
/// receiver's side, so nothing more is assumed.
pub assume_specification<T>[ Sender::<T>::send ](s: Sender<T>, t: T) -> (r: Result<(), T>)
    ensures
        r matches Err(v) ==> v == t,
;

/// Which phase a dictation session is in, with the payload of `Recording`
/// left out.
#[derive(Clone, Copy, Debug, PartialEq, Eq, Structural)]
pub enum StateKind {
    Idle,
    Recording,
    Transcribing,
}

/// The session state proper. Exactly one value of this type exists per
/// store, and its `Recording` variant is the only holder of the session's
/// cancellation sender.
pub enum SessionState {
    /// No session is active; the initial state.
    Idle,
    /// A recording is in progress; firing (or dropping) the embedded sender
    /// ends it.
    Recording(Sender<()>),
    /// The sender has been consumed and the worker is transcribing.
    Transcribing,
}

impl SessionState {
    pub open spec fn kind(self) -> StateKind {
        match self {
            SessionState::Idle => StateKind::Idle,
            SessionState::Recording(_) => StateKind::Recording,
            SessionState::Transcribing => StateKind::Transcribing,
        }
    }
}

/// Whether `try_begin` succeeds in this state.
pub open spec fn begin_allowed(k: StateKind) -> bool {
    k == StateKind::Idle
}

/// The state `try_begin` leaves behind.
pub open spec fn begin_next(k: StateKind) -> StateKind {
    if begin_allowed(k) {
        StateKind::Recording
    } else {
        k
    }
}

/// Whether `try_end` succeeds in this state.
pub open spec fn end_allowed(k: StateKind) -> bool {
    k == StateKind::Recording
}

/// The state `try_end` leaves behind.
pub open spec fn end_next(k: StateKind) -> StateKind {
    if end_allowed(k) {
        StateKind::Transcribing
    } else {
        k
    }
}

/// The state the worker's completion step leaves behind, whatever state it
/// found: a finished session, successful or not, never locks out the next
/// one.
pub open spec fn worker_next(k: StateKind) -> StateKind {
    StateKind::Idle
}

/// Owns the single [`SessionState`] for the process lifetime.
pub struct SessionStore {
    st: SessionState,
}

impl SessionStore {
    /// The state currently held.
    pub closed spec fn state(self) -> SessionState {
        self.st
    }

    /// The phase of the state currently held.
    pub open spec fn kind(self) -> StateKind {
        self.state().kind()
    }

    /// A fresh store, with no session active.
    pub fn new() -> (s: Self)
        ensures
            s.state() == SessionState::Idle,
    {
        SessionStore { st: SessionState::Idle }
    }

    /// Reports the phase of the current state.
    pub fn state_kind(&self) -> (k: StateKind)
        ensures
            k == self.kind(),
    {
        match &self.st {
            SessionState::Idle => StateKind::Idle,
            SessionState::Recording(_) => StateKind::Recording,
            SessionState::Transcribing => StateKind::Transcribing,
        }
    }

    /// Starts a session if none is active: constructs a fresh cancellation
    /// token, keeps its sender as the new `Recording` state and returns the
    /// receiver for the capture operation. In any other state it returns
    /// `AlreadyDictating` and changes nothing.
    pub fn try_begin(&mut self) -> (r: Result<Receiver<()>, Error>)
        ensures
            final(self).kind() == begin_next(old(self).kind()),
            r is Ok <==> begin_allowed(old(self).kind()),
            r is Ok ==> final(self).state() is Recording,
            r is Err ==> r == Result::<Receiver<()>, Error>::Err(Error::AlreadyDictating)
                && final(self).state() == old(self).state(),
    {
        match &self.st {
            SessionState::Idle => {
                let (tx, rx) = tokio::sync::oneshot::channel::<()>();
                self.st = SessionState::Recording(tx);
                Ok(rx)
            },
            _ => Err(Error::AlreadyDictating),
        }
    }

    /// Ends the recording phase if one is active: moves the sender out,
    /// leaving `Transcribing` behind, and hands the sender to the caller,
    /// who fires it outside the store's critical section. In any other state
    /// it returns `NotDictating` and changes nothing.
    pub fn try_end(&mut self) -> (r: Result<Sender<()>, Error>)
        ensures
            final(self).kind() == end_next(old(self).kind()),
            r is Ok <==> end_allowed(old(self).kind()),
            r matches Ok(sender) ==> old(self).state() == SessionState::Recording(sender)
                && final(self).state() == SessionState::Transcribing,
            r is Err ==> r == Result::<Sender<()>, Error>::Err(Error::NotDictating)
                && final(self).state() == old(self).state(),
    {
        let mut taken = SessionState::Transcribing;
        core::mem::swap(&mut self.st, &mut taken);
        match taken {
            SessionState::Recording(sender) => Ok(sender),
            other => {
                self.st = other;
                Err(Error::NotDictating)
            },
        }
    }

    /// Unconditionally returns the store to `Idle`. Called only by the
    /// worker once its run is over, successful or not; if a sender was still
    /// held, it is dropped here, which the receiver observes as an implicit
    /// cancellation.
    pub fn reset_to_idle(&mut self)
        ensures
            final(self).state() == SessionState::Idle,
    {
        self.st = SessionState::Idle;
    }
}

/// Signals the active session to stop capturing and begin transcribing:
/// takes the sender out of the store and fires it. Resolves immediately
/// (it sends a signal; it does not wait for the transcription). A dropped
/// receiver is deliberately ignored: it means the session's worker is
/// already gone, which the holder of the pending result observes on its own.
pub fn end_recording(store: &mut SessionStore) -> (r: Result<(), Error>)
    ensures
        final(store).kind() == end_next(old(store).kind()),
        r is Ok <==> end_allowed(old(store).kind()),
        r is Ok ==> final(store).state() == SessionState::Transcribing,
        r is Err ==> r == Result::<(), Error>::Err(Error::NotDictating)
            && final(store).state() == old(store).state(),
{
    let sender = match store.try_end() {
        Ok(sender) => sender,
        Err(e) => {
            return Err(e);
        },
    };
    let _ = sender.send(());
    Ok(())
}

/// The worker's completion step: returns the store to `Idle` whatever
/// happened, then passes the session's outcome through unchanged, so a
/// failed session surfaces its error without locking out the next one.
pub fn worker_conclude(store: &mut SessionStore, outcome: Result<String, Error>) -> (r: Result<
    String,
    Error,
>)
    ensures
        final(store).state() == SessionState::Idle,
        r == outcome,
{
    store.reset_to_idle();
    outcome
}

/// Normalizes the worker's join outcome into the caller-visible result: a
/// worker that reported a result has that result passed through verbatim,
/// and a worker that terminated abnormally (its fault carried as a plain
/// message) becomes a distinct error instead of a raw fault or a hang.
pub fn normalize_join_outcome(joined: Result<Result<String, Error>, String>) -> (r: Result<
    String,
    Error,
>)
    ensures
        joined matches Ok(reported) ==> r == reported,
        joined matches Err(message) ==> r == Result::<String, Error>::Err(
            (Error::DictationTaskPanicked { message }),
        ),
{
    match joined {
        Ok(reported) => reported,
        Err(message) => Err(Error::DictationTaskPanicked { message }),
    }
}

/// Exclusivity: while a session is active, a further begin is refused and
/// the state is unchanged; together with the store owning the only
/// [`SessionState`] value, at most one session is ever `Recording` or
/// `Transcribing` at any instant.
pub proof fn lemma_begin_exclusive(k: StateKind)
    requires
        k == StateKind::Recording || k == StateKind::Transcribing,
    ensures
        !begin_allowed(k),
        begin_next(k) == k,
{
}

/// Protocol ordering: ending is only legal while recording; both before a
/// session has begun and after its recording has already ended, an end is
/// refused and the state is unchanged.
pub proof fn lemma_end_requires_recording(k: StateKind)
    requires
        k == StateKind::Idle || k == StateKind::Transcribing,
    ensures
        !end_allowed(k),
        end_next(k) == k,
{
}

/// Liveness of the cycle: from `Idle`, a begin succeeds and leads to
/// `Recording`, an end then succeeds and leads to `Transcribing`, and the
/// worker's completion returns the machine to `Idle`.
pub proof fn lemma_session_cycle(k: StateKind)
    requires
        k == StateKind::Idle,
    ensures
        begin_allowed(k),
        begin_next(k) == StateKind::Recording,
        end_allowed(begin_next(k)),
        end_next(begin_next(k)) == StateKind::Transcribing,
        worker_next(end_next(begin_next(k))) == StateKind::Idle,
{
}

/// Single consumption: once an end has succeeded, a second end is refused,
/// so the sender — which the first end moved out of the store — can never be
/// obtained, and hence fired, twice.
pub proof fn lemma_sender_consumed_once(k: StateKind)
    requires
        end_allowed(k),
    ensures
        !end_allowed(end_next(k)),
{
}

} // verus!
