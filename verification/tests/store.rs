use alarm_integral::clock::{Timestamp, MAX_SECS};
use alarm_integral::schedule::ScheduleState;
use alarm_integral::store::{decode_state, encode_state, restore, state_from_fields, STATE_FILE};

fn state(step: u64, secs: u64, nanos: u32) -> ScheduleState {
    ScheduleState { step, last_fired: Timestamp { secs, nanos } }
}

#[test]
fn encode_writes_the_three_members() {
    assert_eq!(
        encode_state(&state(7, 1_565_197_800, 0)),
        "{\"counter\":7,\"time\":{\"secs_since_epoch\":1565197800,\"nanos_since_epoch\":0}}"
    );
    assert_eq!(
        encode_state(&state(0, 0, 999_999_999)),
        "{\"counter\":0,\"time\":{\"secs_since_epoch\":0,\"nanos_since_epoch\":999999999}}"
    );
}

#[test]
fn persisted_state_round_trips() {
    let saved = state(7, 1_700_000_123, 456_789_012);
    let text = encode_state(&saved);
    assert_eq!(decode_state(&text), Some(saved));
    assert_eq!(restore(Some(&text)), Some(saved));
}

#[test]
fn round_trip_at_the_edges() {
    for saved in [
        state(0, 0, 0),
        state(1, 1, 1),
        state(u64::MAX, MAX_SECS, 999_999_999),
        state(175_341_305, 1_565_197_800, 0),
    ] {
        assert_eq!(decode_state(&encode_state(&saved)), Some(saved));
    }
}

#[test]
fn restore_without_a_file_gives_no_state() {
    assert_eq!(restore(None), None);
}

#[test]
fn restore_from_corrupt_content_gives_no_state() {
    assert_eq!(restore(Some("")), None);
    assert_eq!(restore(Some("not json at all")), None);
    assert_eq!(restore(Some("{\"counter\":7,\"time\":{\"secs_since_epoch\":1")), None);
    assert_eq!(restore(Some("\u{0}\u{1}\u{2}")), None);
    assert_eq!(restore(Some("[1,2,3]")), None);
    assert_eq!(restore(Some("null")), None);
    assert_eq!(
        restore(Some(
            "{\"counter\":7,\"time\":{\"secs_since_epoch\":1,\"nanos_since_epoch\":0}} trailing"
        )),
        None
    );
}

#[test]
fn decode_needs_every_member() {
    assert_eq!(decode_state("{}"), None);
    assert_eq!(
        decode_state("{\"time\":{\"secs_since_epoch\":1,\"nanos_since_epoch\":0}}"),
        None
    );
    assert_eq!(decode_state("{\"counter\":7}"), None);
    assert_eq!(decode_state("{\"counter\":7,\"time\":{\"secs_since_epoch\":1}}"), None);
    assert_eq!(decode_state("{\"counter\":7,\"time\":{\"nanos_since_epoch\":1}}"), None);
    assert_eq!(decode_state("{\"counter\":7,\"time\":5}"), None);
}

#[test]
fn decode_rejects_members_out_of_range() {
    assert_eq!(
        decode_state("{\"counter\":-1,\"time\":{\"secs_since_epoch\":1,\"nanos_since_epoch\":0}}"),
        None
    );
    assert_eq!(
        decode_state("{\"counter\":1.5,\"time\":{\"secs_since_epoch\":1,\"nanos_since_epoch\":0}}"),
        None
    );
    assert_eq!(
        decode_state(
            "{\"counter\":\"7\",\"time\":{\"secs_since_epoch\":1,\"nanos_since_epoch\":0}}"
        ),
        None
    );
    assert_eq!(
        decode_state(
            "{\"counter\":7,\"time\":{\"secs_since_epoch\":1,\"nanos_since_epoch\":1000000000}}"
        ),
        None
    );
    assert_eq!(
        decode_state(
            "{\"counter\":7,\"time\":{\"secs_since_epoch\":9223372036854775808,\"nanos_since_epoch\":0}}"
        ),
        None
    );
    assert_eq!(
        decode_state(
            "{\"counter\":7,\"time\":{\"secs_since_epoch\":-5,\"nanos_since_epoch\":0}}"
        ),
        None
    );
}

#[test]
fn decode_accepts_any_json_layout() {
    let text = " {\n  \"time\" : { \"nanos_since_epoch\" : 3, \"secs_since_epoch\" : 20 },\n  \"extra\" : [true],\n  \"counter\" : 4\n}\n";
    assert_eq!(decode_state(text), Some(state(4, 20, 3)));
}

#[test]
fn decode_reads_each_member_at_its_own_place() {
    let text = "{\"counter\":11,\"time\":{\"secs_since_epoch\":22,\"nanos_since_epoch\":33}}";
    let got = decode_state(text).unwrap();
    assert_eq!(got.step, 11);
    assert_eq!(got.last_fired.secs, 22);
    assert_eq!(got.last_fired.nanos, 33);
}

#[test]
fn fields_make_a_state_only_when_all_are_valid() {
    assert_eq!(state_from_fields(Some(7), Some(10), Some(20)), Some(state(7, 10, 20)));
    assert_eq!(state_from_fields(None, Some(10), Some(20)), None);
    assert_eq!(state_from_fields(Some(7), None, Some(20)), None);
    assert_eq!(state_from_fields(Some(7), Some(10), None), None);
    assert_eq!(state_from_fields(Some(7), Some(MAX_SECS), Some(999_999_999)), Some(state(7, MAX_SECS, 999_999_999)));
    assert_eq!(state_from_fields(Some(7), Some(MAX_SECS + 1), Some(0)), None);
    assert_eq!(state_from_fields(Some(7), Some(10), Some(1_000_000_000)), None);
    assert_eq!(state_from_fields(Some(7), Some(10), Some(u64::MAX)), None);
    assert_eq!(state_from_fields(Some(7), Some(10), Some(4_294_967_296)), None);
}

#[test]
fn state_file_has_its_fixed_name() {
    assert_eq!(STATE_FILE, ".alarm_integral.state");
}
