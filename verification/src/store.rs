//! The text form of the persisted state.
//!
//! The state file holds one JSON object: `counter`, the number of reminders
//! sent, and `time`, an object with `secs_since_epoch` and
//! `nanos_since_epoch`. Writing is done here, digit by digit; reading goes
//! through `serde_json`, so any JSON text with these members is accepted.

use vstd::prelude::*;
use vstd::string::StringExecFns;
use crate::clock::{Timestamp, MAX_SECS, NANOS_PER_SEC};
use crate::schedule::ScheduleState;
use crate::text::{decimal, decimal_text};

verus! {

/// The name of the state file, in the user's home directory.
pub const STATE_FILE: &'static str = ".alarm_integral.state";

/// What `serde_json` reads in `text` at the JSON Pointer `pointer`: the
/// number there, where `text` parses as a JSON document, the pointer leads to
/// a value of it and that value is an integer that fits `u64`; `None`
/// otherwise.
pub uninterp spec fn json_u64_at(text: Seq<char>, pointer: Seq<char>) -> Option<u64>;

/// Parses `text` with `serde_json::from_str` into a `serde_json::Value`,
/// looks `pointer` up with `Value::pointer` and reads the value found with
/// `Value::as_u64`. Each step yields `None` in place of a failure. The
/// contract claims only that the outcome depends on the two texts alone.
#[verifier::external_body]
fn read_json_u64(text: &str, pointer: &str) -> (r: Option<u64>)
    ensures
        r == json_u64_at(text@, pointer@),
{
    match serde_json::from_str::<serde_json::Value>(text) {
        Ok(document) => match document.pointer(pointer) {
            Some(value) => value.as_u64(),
            None => None,
        },
        Err(_) => None,
    }
}

/// The state that three members read from a state file stand for: all three
/// must be there, the seconds must fit a signed 64-bit clock and the
/// nanoseconds must stay below one second.
pub open spec fn state_of_fields(
    counter: Option<u64>,
    secs: Option<u64>,
    nanos: Option<u64>,
) -> Option<ScheduleState> {
    if counter is Some && secs is Some && nanos is Some && secs.unwrap() <= MAX_SECS
        && nanos.unwrap() < NANOS_PER_SEC {
        Some(
            ScheduleState {
                step: counter.unwrap(),
                last_fired: Timestamp { secs: secs.unwrap(), nanos: nanos.unwrap() as u32 },
            },
        )
    } else {
        None
    }
}

/// Builds the state from the three members read from a state file, or
/// `None` where one is missing or out of range.
pub fn state_from_fields(counter: Option<u64>, secs: Option<u64>, nanos: Option<u64>) -> (r:
    Option<ScheduleState>)
    ensures
        r == state_of_fields(counter, secs, nanos),
        r matches Some(s) ==> s.well_formed(),
{
    match (counter, secs, nanos) {
        (Some(step), Some(secs), Some(nanos)) => {
            if secs <= MAX_SECS && nanos < NANOS_PER_SEC as u64 {
                Some(ScheduleState { step, last_fired: Timestamp { secs, nanos: nanos as u32 } })
            } else {
                None
            }
        },
        _ => None,
    }
}

/// The state that the text of a state file stands for.
pub open spec fn decoded(text: Seq<char>) -> Option<ScheduleState> {
    state_of_fields(
        json_u64_at(text, "/counter"@),
        json_u64_at(text, "/time/secs_since_epoch"@),
        json_u64_at(text, "/time/nanos_since_epoch"@),
    )
}

/// Reads a state from the text of a state file; `None` where the text is no
/// JSON or lacks a member or holds one out of range.
pub fn decode_state(text: &str) -> (r: Option<ScheduleState>)
    ensures
        r == decoded(text@),
        r matches Some(s) ==> s.well_formed(),
{
    let counter: Option<u64> = read_json_u64(text, "/counter");
    let secs: Option<u64> = read_json_u64(text, "/time/secs_since_epoch");
    let nanos: Option<u64> = read_json_u64(text, "/time/nanos_since_epoch");
    state_from_fields(counter, secs, nanos)
}

/// The outcome of restoring from what was found at the state file's place:
/// `None` for `content` means that no file could be read.
pub open spec fn restored(content: Option<Seq<char>>) -> Option<ScheduleState> {
    match content {
        Some(text) => decoded(text),
        None => None,
    }
}

/// Restores the state from the content of the state file. A file that is
/// missing or unreadable (`None`) and a file with invalid content both give
/// `None`: there is no state, and that is no error.
pub fn restore(content: Option<&str>) -> (r: Option<ScheduleState>)
    ensures
        r == restored(
            match content {
                Some(text) => Some(text@),
                None => None,
            },
        ),
        content is None ==> r is None,
        r matches Some(s) ==> s.well_formed(),
{
    match content {
        Some(text) => decode_state(text),
        None => None,
    }
}

/// The text written for `state`.
pub open spec fn state_text(state: ScheduleState) -> Seq<char> {
    "{\"counter\":"@ + decimal(state.step as nat) + ",\"time\":{\"secs_since_epoch\":"@ + decimal(
        state.last_fired.secs as nat,
    ) + ",\"nanos_since_epoch\":"@ + decimal(state.last_fired.nanos as nat) + "}}"@
}

/// Writes `state` as the text of a state file.
pub fn encode_state(state: &ScheduleState) -> (s: String)
    ensures
        s@ == state_text(*state),
{
    let mut s: String = String::from_str("{\"counter\":");
    s.append(decimal_text(state.step).as_str());
    s.append(",\"time\":{\"secs_since_epoch\":");
    s.append(decimal_text(state.last_fired.secs).as_str());
    s.append(",\"nanos_since_epoch\":");
    s.append(decimal_text(state.last_fired.nanos as u64).as_str());
    s.append("}}");
    s
}

/// The three numbers written for a well-formed state, read back as written,
/// give that state again.
pub proof fn lemma_fields_round_trip(state: ScheduleState)
    requires
        state.well_formed(),
    ensures
        state_of_fields(
            Some(state.step),
            Some(state.last_fired.secs),
            Some(state.last_fired.nanos as u64),
        ) == Some(state),
{
}

} // verus!
