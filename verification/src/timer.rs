//! The timer: a state machine from events to actions.
//!
//! The daemon performs each action and hands back the event that follows it.
//! A timer starts by announcing itself. Each time a notice has been handed to
//! the mail transport it asks for a sleep; each time a sleep has ended it
//! fires: it counts the reminder, notes the instant and asks for the reminder
//! to be sent. A termination signal, at any point, asks for the state to be
//! written and the process to end.
//!
//! After a restart the first sleep ends where the interrupted one would have
//! ended: it is the full wait, counted from the latest reminder rather than
//! from the restart. Where that instant has already passed, nothing is caught
//! up and nothing is skipped: the timer sleeps the full wait from now.

use vstd::prelude::*;
use crate::clock::{later_of, Timestamp, WaitDuration, MAX_SECS, NANOS_PER_SEC};
use crate::notice::{reminder_notice, reminder_text, startup_notice, startup_text, Notice, NoticeText};
use crate::schedule::{wait_secs, ScheduleState, StepCounter, MAX_STEP};
use crate::store::{encode_state, state_text};

verus! {

/// The exit status of a process that was told to stop and has saved its
/// state.
pub const EXIT_STATE_SAVED: i32 = 1;

/// The seconds to sleep for a first wait of `nominal` seconds, when the
/// latest reminder fired at `last_fired` and the clock reads `now`: what is
/// left until `last_fired + nominal`, in whole seconds, where that instant
/// lies ahead; the full wait where it does not.
pub open spec fn first_wait_secs(last_fired: Timestamp, nominal: nat, now: Timestamp) -> nat {
    let deadline: int = last_fired@ + nominal * 1_000_000_000;
    if deadline > now@ {
        ((deadline - now@) / 1_000_000_000) as nat
    } else {
        nominal
    }
}

/// The first wait after a start: see `first_wait_secs`.
pub fn first_wait(last_fired: &Timestamp, nominal: WaitDuration, now: &Timestamp) -> (d:
    WaitDuration)
    requires
        last_fired.well_formed(),
        now.well_formed(),
        nominal@ <= MAX_SECS,
    ensures
        d@ == first_wait_secs(*last_fired, nominal@, *now),
{
    let deadline_secs: u64 = last_fired.secs + nominal.secs;
    let deadline_nanos: u32 = last_fired.nanos;
    if deadline_secs > now.secs || (deadline_secs == now.secs && deadline_nanos > now.nanos) {
        if deadline_nanos >= now.nanos {
            WaitDuration { secs: deadline_secs - now.secs }
        } else {
            WaitDuration { secs: deadline_secs - now.secs - 1 }
        }
    } else {
        nominal
    }
}

/// Where the deadline lies ahead, the first wait ends within the second
/// before it, and never after it.
pub proof fn lemma_first_wait_keeps_deadline(last_fired: Timestamp, nominal: nat, now: Timestamp)
    requires
        last_fired.well_formed(),
        now.well_formed(),
        last_fired@ + nominal * 1_000_000_000 > now@,
    ensures
        now@ + first_wait_secs(last_fired, nominal, now) * 1_000_000_000 <= last_fired@ + nominal
            * 1_000_000_000,
        last_fired@ + nominal * 1_000_000_000 < now@ + (first_wait_secs(last_fired, nominal, now)
            + 1) * 1_000_000_000,
{
}

/// Where in its life a timer stands.
#[derive(Clone, Copy, Debug, PartialEq, Eq, Structural)]
pub enum Phase {
    /// No sleep has been asked for yet.
    Starting,
    /// The timer goes from sleep to reminder and back.
    Waiting,
}

/// What the daemon reports to the timer.
#[derive(Clone, Copy, Debug, PartialEq, Eq, Structural)]
pub enum Event {
    /// The notice asked for has been handed to the mail transport, which took
    /// it (`delivered`) or refused it; the clock reads `now`.
    Notified { now: Timestamp, delivered: bool },
    /// The sleep asked for has ended; the clock reads `now`.
    Woke { now: Timestamp },
    /// A termination signal has arrived.
    Terminate,
}

/// What the timer asks the daemon to do.
#[derive(Debug)]
pub enum Action {
    /// Send this notice, then report `Notified`.
    Notify(Notice),
    /// Sleep this long, then report `Woke`.
    Sleep(WaitDuration),
    /// Write `content` over the state file, then end the process with
    /// `status`.
    PersistAndExit { content: String, status: i32 },
}

/// An action, as contracts see it.
pub enum ActionModel {
    Notify(NoticeText),
    Sleep(nat),
    PersistAndExit { content: Seq<char>, status: int },
}

impl View for Action {
    type V = ActionModel;

    open spec fn view(&self) -> ActionModel {
        match self {
            Action::Notify(notice) => ActionModel::Notify(notice@),
            Action::Sleep(wait) => ActionModel::Sleep(wait@),
            Action::PersistAndExit { content, status } => ActionModel::PersistAndExit {
                content: content@,
                status: *status as int,
            },
        }
    }
}

/// A timer, as contracts see it: the state that a termination signal would
/// save, the schedule's counter, and the phase.
pub struct TimerModel {
    pub state: ScheduleState,
    pub counter: nat,
    pub phase: Phase,
}

impl TimerModel {
    /// Whether a reminder has been scheduled and not yet fired.
    pub open spec fn pending(self) -> bool {
        self.counter == self.state.step + 1
    }

    /// The counter stands at the number of reminders sent, or one ahead of it
    /// while a reminder is scheduled; a timer that is starting has scheduled
    /// nothing.
    pub open spec fn well_formed(self) -> bool {
        &&& self.state.well_formed()
        &&& self.counter == self.state.step || (self.pending() && self.counter <= MAX_STEP)
        &&& self.phase == Phase::Starting ==> self.counter == self.state.step
    }

    /// The timer that starts from what was restored, or from the baseline
    /// where nothing was.
    pub open spec fn started(restored: Option<ScheduleState>) -> TimerModel {
        let state: ScheduleState = match restored {
            Some(state) => state,
            None => ScheduleState { step: 0, last_fired: crate::schedule::base_line() },
        };
        TimerModel { state, counter: state.step as nat, phase: Phase::Starting }
    }

    /// Whether `event` can follow on what the timer asked for last.
    pub open spec fn expects(self, event: Event) -> bool {
        match event {
            Event::Notified { now, delivered } => now.well_formed() && !self.pending()
                && self.counter < MAX_STEP,
            Event::Woke { now } => now.well_formed() && self.pending(),
            Event::Terminate => true,
        }
    }

    /// The timer after `event`.
    pub open spec fn after(self, event: Event) -> TimerModel {
        match event {
            Event::Notified { now, delivered } => TimerModel {
                state: self.state,
                counter: self.counter + 1,
                phase: Phase::Waiting,
            },
            Event::Woke { now } => TimerModel {
                state: ScheduleState {
                    step: self.counter as u64,
                    last_fired: later_of(self.state.last_fired, now),
                },
                counter: self.counter,
                phase: Phase::Waiting,
            },
            Event::Terminate => self,
        }
    }

    /// What the timer asks for in answer to `event`.
    pub open spec fn action(self, event: Event) -> ActionModel {
        match event {
            Event::Notified { now, delivered } => {
                let nominal: nat = wait_secs((self.counter + 1) as int) as nat;
                if self.phase == Phase::Starting {
                    ActionModel::Sleep(first_wait_secs(self.state.last_fired, nominal, now))
                } else {
                    ActionModel::Sleep(nominal)
                }
            },
            Event::Woke { now } => ActionModel::Notify(reminder_text(self.after(event).state)),
            Event::Terminate => ActionModel::PersistAndExit {
                content: state_text(self.state),
                status: 1,
            },
        }
    }
}

/// A termination signal changes nothing in the timer, so a second one right
/// after the first asks for the same content and the same status: whichever
/// of the two writes last, the file holds the one state that both saw.
pub proof fn lemma_terminate_repeats(timer: TimerModel)
    ensures
        timer.after(Event::Terminate) == timer,
        timer.after(Event::Terminate).action(Event::Terminate) == timer.action(Event::Terminate),
        timer.action(Event::Terminate) == (ActionModel::PersistAndExit {
            content: state_text(timer.state),
            status: 1,
        }),
{
}

/// Every event that a timer expects leaves it well formed, and neither
/// lowers the count of reminders sent nor moves the latest reminder back.
pub proof fn lemma_state_advances(timer: TimerModel, event: Event)
    requires
        timer.well_formed(),
        timer.expects(event),
    ensures
        timer.after(event).well_formed(),
        timer.after(event).state.step >= timer.state.step,
        timer.after(event).state.last_fired@ >= timer.state.last_fired@,
{
}

/// What a termination signal would save changes only when a reminder fires:
/// the count goes up by one, and the instant moves to the clock's reading
/// where the clock has not gone back.
pub proof fn lemma_only_firing_changes_state(timer: TimerModel, event: Event)
    requires
        timer.well_formed(),
        timer.expects(event),
    ensures
        !(event is Woke) ==> timer.after(event).state == timer.state,
        event matches Event::Woke { now } ==> timer.after(event).state.step == timer.state.step + 1,
        event matches Event::Woke { now } ==> now@ >= timer.state.last_fired@ ==> timer.after(
            event,
        ).state.last_fired == now,
{
    if let Event::Woke { now } = event {
        if now@ == timer.state.last_fired@ {
            crate::clock::lemma_view_injective(now, timer.state.last_fired);
        }
    }
}

/// A refused notice is not fatal and is not sent again at once: the timer
/// goes on exactly as after a delivered one.
pub proof fn lemma_refusal_changes_nothing(timer: TimerModel, now: Timestamp)
    ensures
        timer.after(Event::Notified { now, delivered: false }) == timer.after(
            Event::Notified { now, delivered: true },
        ),
        timer.action(Event::Notified { now, delivered: false }) == timer.action(
            Event::Notified { now, delivered: true },
        ),
{
}

/// A timer that starts from the saved state of an earlier run schedules the
/// reminder after the saved count, and counts its wait from the saved
/// instant, not from the restart: where that wait has not run out at `now`,
/// the sleep ends within the second before it does.
pub proof fn lemma_restart_resumes(saved: ScheduleState, now: Timestamp)
    requires
        saved.well_formed(),
        now.well_formed(),
        saved.step < MAX_STEP,
    ensures
        ({
            let timer = TimerModel::started(Some(saved));
            let event = Event::Notified { now, delivered: true };
            let wait: nat = wait_secs(saved.step + 1) as nat;
            let due: int = saved.last_fired@ + wait * 1_000_000_000;
            &&& timer.expects(event)
            &&& timer.after(event).counter == saved.step + 1
            &&& timer.after(event).state == saved
            &&& timer.action(event) == ActionModel::Sleep(
                first_wait_secs(saved.last_fired, wait, now),
            )
            &&& due > now@ ==> now@ + first_wait_secs(saved.last_fired, wait, now) * 1_000_000_000
                <= due < now@ + (first_wait_secs(saved.last_fired, wait, now) + 1) * 1_000_000_000
            &&& due <= now@ ==> first_wait_secs(saved.last_fired, wait, now) == wait
        }),
{
    let wait: nat = wait_secs(saved.step + 1) as nat;
    if saved.last_fired@ + wait * 1_000_000_000 > now@ {
        lemma_first_wait_keeps_deadline(saved.last_fired, wait, now);
    }
}

/// The timer of one reminder schedule.
#[derive(Debug)]
pub struct Timer {
    state: ScheduleState,
    counter: StepCounter,
    phase: Phase,
}

impl View for Timer {
    type V = TimerModel;

    closed spec fn view(&self) -> TimerModel {
        TimerModel { state: self.state, counter: self.counter@, phase: self.phase }
    }
}

impl Timer {
    #[verifier::type_invariant]
    spec fn consistent(&self) -> bool {
        self@.well_formed()
    }

    /// Starts a timer from the state that was restored, or from the baseline
    /// where there was none, and asks for the starting notice to be sent.
    pub fn start(restored: Option<ScheduleState>) -> (r: (Timer, Action))
        requires
            restored matches Some(state) ==> state.well_formed(),
        ensures
            r.0@ == TimerModel::started(restored),
            r.0@.well_formed(),
            r.1@ == ActionModel::Notify(startup_text(r.0@.state)),
    {
        let state: ScheduleState = match restored {
            Some(state) => state,
            None => ScheduleState::baseline(),
        };
        let timer = Timer { state, counter: StepCounter::resume(state.step), phase: Phase::Starting };
        (timer, Action::Notify(startup_notice(&state)))
    }

    /// The state that a termination signal would save now: the reminders
    /// sent so far and the instant of the latest.
    pub fn snapshot(&self) -> (r: ScheduleState)
        ensures
            r == self@.state,
            r.well_formed(),
    {
        proof {
            use_type_invariant(self);
        }
        self.state
    }

    /// The phase the timer is in.
    pub fn phase(&self) -> (r: Phase)
        ensures
            r == self@.phase,
    {
        self.phase
    }

    /// Whether `event` can follow on what the timer asked for last: `handle`
    /// takes the events for which this holds.
    pub fn expects(&self, event: &Event) -> (r: bool)
        ensures
            r == self@.expects(*event),
            self@.well_formed(),
    {
        proof {
            use_type_invariant(self);
        }
        let pending: bool = self.counter.value != self.state.step;
        match event {
            Event::Notified { now, delivered } => now.secs <= MAX_SECS && now.nanos < NANOS_PER_SEC
                && !pending && !self.counter.exhausted(),
            Event::Woke { now } => now.secs <= MAX_SECS && now.nanos < NANOS_PER_SEC && pending,
            Event::Terminate => true,
        }
    }

    /// Takes an event and answers with the next action.
    ///
    /// After a notice, delivered or not: schedules the next reminder and asks
    /// for the sleep before it. After a sleep: counts the reminder, moves the
    /// instant of the latest reminder to `now` (never backwards) and asks for
    /// the reminder to be sent. On a termination signal: changes nothing and
    /// asks for the state to be written and the process to end with status 1.
    pub fn handle(&mut self, event: Event) -> (action: Action)
        requires
            old(self)@.expects(event),
        ensures
            final(self)@ == old(self)@.after(event),
            final(self)@.well_formed(),
            action@ == old(self)@.action(event),
    {
        proof {
            use_type_invariant(&*self);
        }
        match event {
            Event::Notified { now, delivered } => {
                let mut counter: StepCounter = self.counter;
                let nominal: WaitDuration = counter.next_wait();
                proof {
                    crate::schedule::lemma_wait_fits(counter@ as int);
                }
                let wait: WaitDuration = match self.phase {
                    Phase::Starting => first_wait(&self.state.last_fired, nominal, &now),
                    Phase::Waiting => nominal,
                };
                *self = Timer { state: self.state, counter, phase: Phase::Waiting };
                Action::Sleep(wait)
            },
            Event::Woke { now } => {
                let state = ScheduleState {
                    step: self.counter.value,
                    last_fired: self.state.last_fired.later(now),
                };
                *self = Timer { state, counter: self.counter, phase: Phase::Waiting };
                Action::Notify(reminder_notice(&state))
            },
            Event::Terminate => Action::PersistAndExit {
                content: encode_state(&self.state),
                status: EXIT_STATE_SAVED,
            },
        }
    }
}

} // verus!
