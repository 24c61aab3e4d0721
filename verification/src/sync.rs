//! Debounced synchronisation of schedule edits with a backing store.
//!
//! The controller decides; the host acts. Every event that reaches the
//! controller (an edit, the debounce timer firing, a write coming back) is
//! answered with the one action the host has to perform. Arming a timer
//! replaces the timer armed before, so that only the timer of the last edit
//! of a burst ever fires.

use crate::schedule::Availability;
use vstd::prelude::*;

verus! {

/// Quiet time after the last edit before it is written, in milliseconds.
pub const DEBOUNCE_MS: u32 = 2_000;

/// What the host has to do after an event.
#[derive(Clone, Copy, Debug, PartialEq, Eq, Structural)]
pub enum Action {
    /// Nothing.
    Nothing,
    /// Arm the debounce timer for this many milliseconds, in place of any
    /// timer armed before.
    ArmTimer(u32),
    /// Write this value to the store and report how the write ended.
    Write(Availability),
}

/// What can happen to a controller.
#[derive(Clone, Copy, Debug, PartialEq, Eq, Structural)]
pub enum Event {
    /// The user changed the schedule to this value.
    Edit(Availability),
    /// The debounce timer fired.
    TimerFired,
    /// The write in flight ended, successfully or not.
    WriteCompleted(bool),
    /// The host asks for the pending edit to be written at once.
    FlushNow,
    /// The host gives up the pending edit.
    Discard,
}

/// Where a controller stands.
#[derive(Clone, Copy, Debug, PartialEq, Eq, Structural)]
pub enum Phase {
    /// No flush is scheduled and no write is in flight.
    Idle,
    /// An edit waits for its debounce window to close, or for the write in
    /// flight to end.
    Pending,
    /// A write is in flight and nothing newer waits behind it.
    Flushing,
}

/// The state of a controller.
pub struct SyncState {
    /// The latest value that is not known to be stored.
    pub pending: Option<Availability>,
    /// Whether the debounce timer is armed.
    pub timer_armed: bool,
    /// Whether a write is in flight.
    pub in_flight: bool,
    /// Whether the pending value is to be written as soon as the write in
    /// flight ends.
    pub flush_due: bool,
}

/// A state after an event, with the action the event calls for.
pub struct Step {
    pub next: SyncState,
    pub action: Action,
}

impl SyncState {
    /// The state of a fresh controller: nothing pending, armed or in flight.
    pub open spec fn idle() -> SyncState {
        SyncState { pending: None, timer_armed: false, in_flight: false, flush_due: false }
    }

    /// What holds of every state a controller can reach: a timer is armed
    /// or a flush is due only for a value that is pending, and a flush is
    /// due only behind a write in flight and with no timer armed.
    pub open spec fn wf(self) -> bool {
        &&& self.timer_armed ==> self.pending is Some
        &&& self.flush_due ==> self.pending is Some && self.in_flight && !self.timer_armed
    }

    /// Whether there are changes that are not known to be stored.
    pub open spec fn is_dirty(self) -> bool {
        self.pending is Some
    }

    /// Where the controller stands.
    pub open spec fn phase(self) -> Phase {
        if self.timer_armed || self.flush_due {
            Phase::Pending
        } else if self.in_flight {
            Phase::Flushing
        } else {
            Phase::Idle
        }
    }

    /// An edit replaces the pending value and starts a new debounce window.
    pub open spec fn edit(self, value: Availability) -> Step {
        Step {
            next: SyncState {
                pending: Some(value),
                timer_armed: true,
                in_flight: self.in_flight,
                flush_due: false,
            },
            action: Action::ArmTimer(DEBOUNCE_MS),
        }
    }

    /// The pending value goes out as the one write in flight.
    pub open spec fn start_write(self) -> Step {
        Step {
            next: SyncState {
                pending: self.pending,
                timer_armed: false,
                in_flight: true,
                flush_due: false,
            },
            action: Action::Write(self.pending->0),
        }
    }

    /// The pending value is to go out when the write in flight has ended.
    pub open spec fn defer_write(self) -> Step {
        Step {
            next: SyncState {
                pending: self.pending,
                timer_armed: false,
                in_flight: true,
                flush_due: true,
            },
            action: Action::Nothing,
        }
    }

    /// The state stays as it is and the host has nothing to do.
    pub open spec fn stay(self) -> Step {
        Step { next: self, action: Action::Nothing }
    }

    /// The debounce window closes: the pending value is written, or, behind
    /// a write in flight, is due when that write ends. A timer that was
    /// replaced or given up changes nothing.
    pub open spec fn timer_fired(self) -> Step {
        if !self.timer_armed {
            self.stay()
        } else if self.in_flight {
            self.defer_write()
        } else {
            self.start_write()
        }
    }

    /// The write in flight ends. A value that is due goes out next. A newer
    /// edit keeps waiting for its own window. Otherwise the controller is
    /// idle, and the pending value is cleared if and only if the write
    /// succeeded.
    pub open spec fn write_completed(self, success: bool) -> Step {
        if !self.in_flight {
            self.stay()
        } else if self.flush_due {
            self.start_write()
        } else if self.timer_armed {
            Step {
                next: SyncState {
                    pending: self.pending,
                    timer_armed: true,
                    in_flight: false,
                    flush_due: false,
                },
                action: Action::Nothing,
            }
        } else {
            Step {
                next: SyncState {
                    pending: if success {
                        None
                    } else {
                        self.pending
                    },
                    timer_armed: false,
                    in_flight: false,
                    flush_due: false,
                },
                action: Action::Nothing,
            }
        }
    }

    /// The host forces a flush: the pending value is written without
    /// waiting for its window, or, behind a write in flight that carries an
    /// older value, is due when that write ends. With nothing pending, or
    /// with the pending value itself in flight, nothing happens.
    pub open spec fn flush_now(self) -> Step {
        if self.pending is None {
            self.stay()
        } else if !self.in_flight {
            self.start_write()
        } else if self.timer_armed {
            self.defer_write()
        } else {
            self.stay()
        }
    }

    /// The host gives up the pending value: nothing is pending, armed or
    /// due any more. A write in flight is left to end.
    pub open spec fn discard(self) -> Step {
        Step {
            next: SyncState {
                pending: None,
                timer_armed: false,
                in_flight: self.in_flight,
                flush_due: false,
            },
            action: Action::Nothing,
        }
    }

    /// The state after `event`, with the action it calls for.
    pub open spec fn step(self, event: Event) -> Step {
        match event {
            Event::Edit(value) => self.edit(value),
            Event::TimerFired => self.timer_fired(),
            Event::WriteCompleted(success) => self.write_completed(success),
            Event::FlushNow => self.flush_now(),
            Event::Discard => self.discard(),
        }
    }

    /// The state after all of `edits`, one after the other.
    pub open spec fn after_edits(self, edits: Seq<Availability>) -> SyncState
        decreases edits.len(),
    {
        if edits.len() == 0 {
            self
        } else {
            self.after_edits(edits.drop_last()).edit(edits.last()).next
        }
    }
}

/// Turns a stream of schedule edits into at most one write per quiet period
/// and keeps track of whether there are unsaved changes.
#[derive(Debug)]
pub struct SyncController {
    pending: Option<Availability>,
    timer_armed: bool,
    in_flight: bool,
    flush_due: bool,
}

impl View for SyncController {
    type V = SyncState;

    closed spec fn view(&self) -> SyncState {
        SyncState {
            pending: self.pending,
            timer_armed: self.timer_armed,
            in_flight: self.in_flight,
            flush_due: self.flush_due,
        }
    }
}

impl SyncController {
    #[verifier::type_invariant]
    spec fn consistent(self) -> bool {
        self@.wf()
    }

    /// A controller with nothing pending.
    pub fn new() -> (controller: SyncController)
        ensures
            controller@ == SyncState::idle(),
    {
        SyncController { pending: None, timer_armed: false, in_flight: false, flush_due: false }
    }

    /// Whether there are changes that are not known to be stored.
    pub fn is_dirty(&self) -> (dirty: bool)
        ensures
            dirty == self@.is_dirty(),
    {
        self.pending.is_some()
    }

    /// The latest value that is not known to be stored.
    pub fn pending(&self) -> (value: Option<Availability>)
        ensures
            value == self@.pending,
    {
        self.pending
    }

    /// Where the controller stands. The state of a controller is well formed
    /// whenever it is looked at.
    pub fn phase(&self) -> (phase: Phase)
        ensures
            phase == self@.phase(),
            self@.wf(),
    {
        proof {
            use_type_invariant(self);
        }
        if self.timer_armed || self.flush_due {
            Phase::Pending
        } else if self.in_flight {
            Phase::Flushing
        } else {
            Phase::Idle
        }
    }

    /// Sends the pending value out as the write in flight.
    fn start_write(&mut self) -> (action: Action)
        requires
            old(self)@.pending is Some,
        ensures
            final(self)@ == old(self)@.start_write().next,
            action == old(self)@.start_write().action,
    {
        let pending = self.pending;
        *self = SyncController { pending, timer_armed: false, in_flight: true, flush_due: false };
        match pending {
            Some(value) => Action::Write(value),
            None => Action::Nothing,
        }
    }

    /// Leaves the pending value to go out when the write in flight ends.
    fn defer_write(&mut self)
        requires
            old(self)@.pending is Some,
        ensures
            final(self)@ == old(self)@.defer_write().next,
    {
        let pending = self.pending;
        *self = SyncController { pending, timer_armed: false, in_flight: true, flush_due: true };
    }

    /// Records an edit. The value replaces whatever was pending, the
    /// controller is dirty from this moment on, and the host is told to arm
    /// the debounce timer anew.
    pub fn edit(&mut self, value: Availability) -> (action: Action)
        ensures
            final(self)@ == old(self)@.edit(value).next,
            action == old(self)@.edit(value).action,
    {
        let in_flight = self.in_flight;
        *self = SyncController {
            pending: Some(value),
            timer_armed: true,
            in_flight,
            flush_due: false,
        };
        Action::ArmTimer(DEBOUNCE_MS)
    }

    /// Reacts to the debounce timer.
    pub fn timer_fired(&mut self) -> (action: Action)
        ensures
            final(self)@ == old(self)@.timer_fired().next,
            action == old(self)@.timer_fired().action,
    {
        proof {
            use_type_invariant(&*self);
        }
        if !self.timer_armed {
            Action::Nothing
        } else if self.in_flight {
            self.defer_write();
            Action::Nothing
        } else {
            self.start_write()
        }
    }

    /// Reacts to the end of the write in flight.
    pub fn write_completed(&mut self, success: bool) -> (action: Action)
        ensures
            final(self)@ == old(self)@.write_completed(success).next,
            action == old(self)@.write_completed(success).action,
    {
        proof {
            use_type_invariant(&*self);
        }
        if !self.in_flight {
            Action::Nothing
        } else if self.flush_due {
            self.start_write()
        } else {
            let timer_armed = self.timer_armed;
            let pending = if success && !timer_armed {
                None
            } else {
                self.pending
            };
            *self = SyncController { pending, timer_armed, in_flight: false, flush_due: false };
            Action::Nothing
        }
    }

    /// Forces the pending value out without waiting for its window.
    pub fn flush_now(&mut self) -> (action: Action)
        ensures
            final(self)@ == old(self)@.flush_now().next,
            action == old(self)@.flush_now().action,
    {
        proof {
            use_type_invariant(&*self);
        }
        if self.pending.is_none() {
            Action::Nothing
        } else if !self.in_flight {
            self.start_write()
        } else if self.timer_armed {
            self.defer_write();
            Action::Nothing
        } else {
            Action::Nothing
        }
    }

    /// Gives up the pending value.
    pub fn discard(&mut self)
        ensures
            final(self)@ == old(self)@.discard().next,
    {
        let in_flight = self.in_flight;
        *self = SyncController { pending: None, timer_armed: false, in_flight, flush_due: false };
    }

    /// The warning to show before the session ends: some text while there
    /// are unsaved changes, nothing otherwise.
    pub fn unsaved_changes_warning(&self) -> (warning: Option<&'static str>)
        ensures
            warning is Some <==> self@.is_dirty(),
            warning matches Some(text) ==> text@ == "Changes you made may not be saved."@,
    {
        if self.pending.is_some() {
            Some("Changes you made may not be saved.")
        } else {
            None
        }
    }

    /// Reacts to `event` and says what the host has to do.
    pub fn handle(&mut self, event: Event) -> (action: Action)
        ensures
            final(self)@ == old(self)@.step(event).next,
            action == old(self)@.step(event).action,
    {
        match event {
            Event::Edit(value) => self.edit(value),
            Event::TimerFired => self.timer_fired(),
            Event::WriteCompleted(success) => self.write_completed(success),
            Event::FlushNow => self.flush_now(),
            Event::Discard => {
                self.discard();
                Action::Nothing
            },
        }
    }
}

/// Every event leaves a well-formed state well formed.
pub proof fn lemma_step_preserves_wf(s: SyncState, event: Event)
    requires
        s.wf(),
    ensures
        s.step(event).next.wf(),
{
}

/// At most one write is in flight at a time. A write starts only when none
/// is in flight or when the one in flight has just ended, it carries the
/// value that is pending at that moment, and nothing but a write starting
/// or ending changes whether one is in flight.
pub proof fn lemma_single_write_in_flight(s: SyncState, event: Event)
    requires
        s.wf(),
    ensures
        s.step(event).action is Write ==> {
            &&& !s.in_flight || event is WriteCompleted
            &&& s.step(event).next.in_flight
            &&& s.pending is Some
            &&& s.step(event).action == Action::Write(s.pending->0)
            &&& s.step(event).next.pending == s.pending
        },
        !(s.step(event).action is Write) && !(event is WriteCompleted) ==> s.step(
            event,
        ).next.in_flight == s.in_flight,
{
}

/// The dirty flag is exact. An edit makes the state dirty at once. A state
/// with a flush scheduled is dirty. Only giving up the edit, or a write
/// that succeeded with nothing newer waiting behind it, makes a dirty
/// state clean.
pub proof fn lemma_dirty_is_exact(s: SyncState, event: Event)
    requires
        s.wf(),
    ensures
        event is Edit ==> s.step(event).next.is_dirty(),
        s.phase() == Phase::Pending ==> s.is_dirty(),
        s.is_dirty() && !s.step(event).next.is_dirty() ==> event is Discard || (event
            == Event::WriteCompleted(true) && s.phase() == Phase::Flushing),
        !s.is_dirty() && s.step(event).next.is_dirty() ==> event is Edit,
{
}

/// The state after a burst of edits holds the last of them and waits for
/// its window; whether a write is in flight is as before the burst.
pub proof fn lemma_after_edits(s: SyncState, edits: Seq<Availability>)
    requires
        edits.len() > 0,
    ensures
        s.after_edits(edits) == (SyncState {
            pending: Some(edits.last()),
            timer_armed: true,
            in_flight: s.in_flight,
            flush_due: false,
        }),
    decreases edits.len(),
{
    if edits.len() > 1 {
        lemma_after_edits(s, edits.drop_last());
    } else {
        reveal_with_fuel(SyncState::after_edits, 2);
    }
}

/// A burst of edits within one debounce window leads to exactly one write,
/// which carries the last edit. No edit of the burst writes: each only arms
/// the timer anew. The state is dirty from the first edit on and stays so
/// when the window closes and the write goes out. When that write succeeds
/// the controller is idle and clean, and asks for nothing more.
pub proof fn lemma_burst_writes_last_edit(s: SyncState, edits: Seq<Availability>)
    requires
        s.wf(),
        !s.in_flight,
        edits.len() > 0,
    ensures
        forall|k: int|
            0 <= k < edits.len() ==> s.after_edits(#[trigger] edits.take(k)).edit(
                edits[k],
            ).action == Action::ArmTimer(DEBOUNCE_MS),
        forall|k: int| 1 <= k <= edits.len() ==> s.after_edits(#[trigger] edits.take(k)).is_dirty(),
        s.after_edits(edits).timer_fired().action == Action::Write(edits.last()),
        s.after_edits(edits).timer_fired().next.is_dirty(),
        s.after_edits(edits).timer_fired().next.phase() == Phase::Flushing,
        s.after_edits(edits).timer_fired().next.write_completed(true) == (Step {
            next: SyncState::idle(),
            action: Action::Nothing,
        }),
{
    lemma_after_edits(s, edits);
    assert forall|k: int| 1 <= k <= edits.len() implies s.after_edits(
        #[trigger] edits.take(k),
    ).is_dirty() by {
        lemma_after_edits(s, edits.take(k));
    }
}

/// A flush that fails leaves the edit pending and the state dirty, and the
/// controller idle: it does not try again by itself. No timer and no
/// completion makes it write; a forced flush writes the value that was
/// kept, and a new edit opens a new window.
pub proof fn lemma_failed_flush_stays_dirty(s: SyncState)
    requires
        s.wf(),
        s.phase() == Phase::Flushing,
        s.is_dirty(),
    ensures
        s.write_completed(false).action == Action::Nothing,
        s.write_completed(false).next.is_dirty(),
        s.write_completed(false).next.pending == s.pending,
        s.write_completed(false).next.phase() == Phase::Idle,
        s.write_completed(false).next.timer_fired() == s.write_completed(false).next.stay(),
        forall|success: bool| #[trigger]
            s.write_completed(false).next.write_completed(success) == s.write_completed(
                false,
            ).next.stay(),
        s.write_completed(false).next.flush_now().action == Action::Write(s.pending->0),
        forall|value: Availability| #[trigger]
            s.write_completed(false).next.edit(value).action == Action::ArmTimer(DEBOUNCE_MS),
{
}

} // verus!
