//! The messages that the timer sends: one when it starts, one per reminder.

use vstd::prelude::*;
use vstd::string::StringExecFns;
use crate::clock::Timestamp;
use crate::schedule::ScheduleState;
use crate::text::{decimal, decimal_text};

verus! {

/// The text that `chrono` writes for the UTC date and time `secs` seconds and
/// `nanos` nanoseconds after the Unix epoch, such as
/// `2019-08-07 17:10:00 UTC`; `None` where `chrono` has no date for the pair.
pub uninterp spec fn utc_display(secs: int, nanos: int) -> Option<Seq<char>>;

/// Makes the date with `chrono::DateTime::<Utc>::from_timestamp` and writes
/// it with the `Display` of `DateTime`, through `to_string`. The contract
/// claims only that the outcome depends on the two numbers alone.
#[verifier::external_body]
fn utc_text(secs: i64, nanos: u32) -> (r: Option<String>)
    ensures
        match r {
            Some(text) => utc_display(secs as int, nanos as int) == Some(text@),
            None => utc_display(secs as int, nanos as int) is None,
        },
{
    match chrono::DateTime::<chrono::Utc>::from_timestamp(secs, nanos) {
        Some(date) => Some(date.to_string()),
        None => None,
    }
}

/// The text for an instant, given what the calendar made of it: the date
/// where there is one, the count of seconds otherwise.
pub open spec fn label_of(rendered: Option<Seq<char>>, at: Timestamp) -> Seq<char> {
    match rendered {
        Some(text) => text,
        None => decimal(at.secs as nat) + " seconds since the Unix epoch"@,
    }
}

/// The text for the instant `at` in a message.
pub open spec fn time_text(at: Timestamp) -> Seq<char> {
    label_of(utc_display(at.secs as int, at.nanos as int), at)
}

/// The body of the message sent at start.
pub open spec fn startup_body(step: nat, time: Seq<char>) -> Seq<char> {
    "Starting, last time setted is: "@ + time + ", with counter: "@ + decimal(step)
}

/// The body of a reminder.
pub open spec fn reminder_body(step: nat, time: Seq<char>) -> Seq<char> {
    "Reminder for the "@ + decimal(step) + " time, sent time: "@ + time
}

/// The text for the instant `at`, given the date `rendered` that the calendar
/// wrote for it, or `None` where it wrote none.
pub fn time_label(rendered: Option<String>, at: &Timestamp) -> (s: String)
    ensures
        s@ == label_of(
            match rendered {
                Some(text) => Some(text@),
                None => None,
            },
            *at,
        ),
{
    match rendered {
        Some(text) => text,
        None => {
            let mut s: String = decimal_text(at.secs);
            s.append(" seconds since the Unix epoch");
            s
        },
    }
}

/// The text for the instant `at`: its UTC date and time.
pub fn describe_time(at: &Timestamp) -> (s: String)
    requires
        at.well_formed(),
    ensures
        s@ == time_text(*at),
{
    let rendered: Option<String> = utc_text(at.secs as i64, at.nanos);
    time_label(rendered, at)
}

/// The body of the message sent at start, for a timer that has sent `step`
/// reminders, the latest at the instant written as `time`.
pub fn startup_message(step: u64, time: &str) -> (s: String)
    ensures
        s@ == startup_body(step as nat, time@),
{
    let mut s: String = String::from_str("Starting, last time setted is: ");
    s.append(time);
    s.append(", with counter: ");
    s.append(decimal_text(step).as_str());
    s
}

/// The body of reminder number `step`, sent at the instant written as `time`.
pub fn reminder_message(step: u64, time: &str) -> (s: String)
    ensures
        s@ == reminder_body(step as nat, time@),
{
    let mut s: String = String::from_str("Reminder for the ");
    s.append(decimal_text(step).as_str());
    s.append(" time, sent time: ");
    s.append(time);
    s
}

/// A message to send: the identifier it travels under and its body.
#[derive(Debug)]
pub struct Notice {
    pub id: String,
    pub body: String,
}

/// What a notice says.
pub struct NoticeText {
    pub id: Seq<char>,
    pub body: Seq<char>,
}

impl View for Notice {
    type V = NoticeText;

    open spec fn view(&self) -> NoticeText {
        NoticeText { id: self.id@, body: self.body@ }
    }
}

/// What the notice sent at start says, for a timer that starts from `state`.
pub open spec fn startup_text(state: ScheduleState) -> NoticeText {
    NoticeText {
        id: "start id"@,
        body: startup_body(state.step as nat, time_text(state.last_fired)),
    }
}

/// What the reminder says that brought the timer to `state`.
pub open spec fn reminder_text(state: ScheduleState) -> NoticeText {
    NoticeText { id: "id"@, body: reminder_body(state.step as nat, time_text(state.last_fired)) }
}

/// The notice sent at start, for a timer that starts from `state`.
pub fn startup_notice(state: &ScheduleState) -> (n: Notice)
    requires
        state.well_formed(),
    ensures
        n@ == startup_text(*state),
{
    let time: String = describe_time(&state.last_fired);
    Notice { id: String::from_str("start id"), body: startup_message(state.step, time.as_str()) }
}

/// The reminder that brought the timer to `state`: it names the step and the
/// instant of firing.
pub fn reminder_notice(state: &ScheduleState) -> (n: Notice)
    requires
        state.well_formed(),
    ensures
        n@ == reminder_text(*state),
{
    let time: String = describe_time(&state.last_fired);
    Notice { id: String::from_str("id"), body: reminder_message(state.step, time.as_str()) }
}

} // verus!
