//! The supervised slot: the one place that owns the handle of the running
//! backend between startup and shutdown.
//!
//! The slot is a state machine with the states `Empty` and `Populated`. Each
//! hook of the host is one step that takes the slot by exclusive reference
//! and hands back what the caller has to do next. A caller that shares the
//! slot between threads keeps it behind a lock, holds the lock for the step
//! alone, and acts on the result after releasing it: termination of the
//! process always happens on a handle that has already left the slot.

use vstd::prelude::*;

verus! {

/// Whether the slot holds a handle.
#[derive(Clone, Copy, Debug, PartialEq, Eq, Structural)]
pub enum SlotState {
    /// No handle: before startup, after a failed startup, after shutdown.
    Empty,
    /// The handle of the launched backend.
    Populated,
}

/// An event of the host's run loop, as far as supervision tells events apart.
#[derive(Clone, Copy, Debug, PartialEq, Eq, Structural)]
pub enum HostEvent {
    /// The application was asked to exit.
    ExitRequested,
    /// Any other event.
    Other,
}

/// State of a slot whose content is `held`.
pub open spec fn state_of<H>(held: Option<H>) -> SlotState {
    match held {
        Some(_) => SlotState::Populated,
        None => SlotState::Empty,
    }
}

/// The startup step: a launched handle is stored and startup goes on; a
/// launch error leaves the slot as it was and is handed back to abort
/// startup. The pair is the slot's next content and the hook's outcome.
pub open spec fn startup_step<H, E>(held: Option<H>, launched: Result<H, E>) -> (
    Option<H>,
    Result<(), E>,
) {
    match launched {
        Ok(handle) => (Some(handle), Ok(())),
        Err(error) => (held, Err(error)),
    }
}

/// The shutdown step: whatever the slot holds leaves it. The pair is the
/// slot's next content, always empty, and the handle to terminate, if any.
pub open spec fn shutdown_step<H>(held: Option<H>) -> (Option<H>, Option<H>) {
    (None, held)
}

/// The step for an event of the run loop: a request to exit is the shutdown
/// step, any other event changes nothing and asks for nothing.
pub open spec fn event_step<H>(held: Option<H>, event: HostEvent) -> (Option<H>, Option<H>) {
    match event {
        HostEvent::ExitRequested => shutdown_step(held),
        HostEvent::Other => (held, None),
    }
}

/// Storage for at most one process handle of type `H`. The handle is owned:
/// it moves in at startup and moves out, to the caller, at shutdown.
pub struct SupervisedSlot<H> {
    handle: Option<H>,
}

impl<H> View for SupervisedSlot<H> {
    type V = Option<H>;

    closed spec fn view(&self) -> Option<H> {
        self.handle
    }
}

impl<H> SupervisedSlot<H> {
    /// An empty slot.
    pub fn new() -> (slot: Self)
        ensures
            slot@ is None,
    {
        SupervisedSlot { handle: None }
    }

    /// The slot's state.
    pub fn state(&self) -> (state: SlotState)
        ensures
            state == state_of(self@),
    {
        match &self.handle {
            Some(_) => SlotState::Populated,
            None => SlotState::Empty,
        }
    }

    /// The startup hook, given the launcher's result. On success the handle
    /// is stored and the slot is `Populated`; on failure the slot is left
    /// untouched and the launch error is returned, so that startup aborts.
    pub fn on_startup<E>(&mut self, launched: Result<H, E>) -> (outcome: Result<(), E>)
        ensures
            (final(self)@, outcome) == startup_step(old(self)@, launched),
    {
        match launched {
            Ok(handle) => {
                self.handle = Some(handle);
                Ok(())
            },
            Err(error) => Err(error),
        }
    }

    /// The shutdown hook: drains the slot. The handle that was held, if any,
    /// is returned for the caller to terminate; the slot is `Empty` afterwards
    /// in every case. The step itself cannot fail, and what becomes of the
    /// termination never reaches the slot again.
    pub fn on_shutdown_requested(&mut self) -> (to_terminate: Option<H>)
        ensures
            (final(self)@, to_terminate) == shutdown_step(old(self)@),
    {
        self.handle.take()
    }

    /// One event of the host's run loop: drains the slot on a request to
    /// exit, and does nothing on any other event.
    pub fn on_run_event(&mut self, event: HostEvent) -> (to_terminate: Option<H>)
        ensures
            (final(self)@, to_terminate) == event_step(old(self)@, event),
    {
        match event {
            HostEvent::ExitRequested => self.on_shutdown_requested(),
            HostEvent::Other => None,
        }
    }
}

/// A successful startup leaves the slot `Populated` with the launched handle,
/// whatever it held before.
pub proof fn lemma_startup_success_populates<H, E>(held: Option<H>, handle: H)
    ensures
        startup_step::<H, E>(held, Ok(handle)).0 == Some(handle),
        state_of(startup_step::<H, E>(held, Ok(handle)).0) == SlotState::Populated,
        startup_step::<H, E>(held, Ok(handle)).1 is Ok,
{
}

/// A failed launch fails startup with the launcher's error and leaves an
/// empty slot empty.
pub proof fn lemma_failed_startup_stays_empty<H, E>(error: E)
    ensures
        startup_step::<H, E>(None, Err(error)).1 == Err::<(), E>(error),
        state_of(startup_step::<H, E>(None, Err(error)).0) == SlotState::Empty,
{
}

/// After a shutdown request the slot is `Empty`, whether it was `Empty` or
/// `Populated` before.
pub proof fn lemma_shutdown_empties<H>(held: Option<H>)
    ensures
        state_of(shutdown_step(held).0) == SlotState::Empty,
        state_of(event_step(held, HostEvent::ExitRequested).0) == SlotState::Empty,
{
}

/// Of two shutdown requests in succession, the second finds the slot empty,
/// hands out nothing to terminate and leaves the slot empty.
pub proof fn lemma_second_shutdown_is_noop<H>(held: Option<H>)
    ensures
        shutdown_step(shutdown_step(held).0) == (None::<H>, None::<H>),
{
}

/// A backend started into an empty slot is handed out for termination by the
/// first shutdown request after it, and by no later one.
pub proof fn lemma_started_backend_terminated_once<H, E>(handle: H)
    ensures
        ({
            let started = startup_step::<H, E>(None, Ok(handle)).0;
            let first = shutdown_step(started);
            let second = shutdown_step(first.0);
            &&& first.1 == Some(handle)
            &&& second.1 is None
        }),
{
}

} // verus!
