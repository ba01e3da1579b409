use noraproxy::outbound::{normalize_payload, outbound_step, OutboundAction};
use noraproxy::policy::FLOOD_INTERVAL_UNITS;

#[test]
fn missing_terminator_is_appended() {
    let r = normalize_payload(String::from("PRIVMSG #chan :hello"));
    assert_eq!(r, "PRIVMSG #chan :hello\r\n");
}

#[test]
fn present_terminator_is_kept_unchanged() {
    let r = normalize_payload(String::from("PRIVMSG #chan :hello\r\n"));
    assert_eq!(r, "PRIVMSG #chan :hello\r\n");
}

#[test]
fn normalization_is_idempotent() {
    let once = normalize_payload(String::from("PRIVMSG #chan :hello"));
    let twice = normalize_payload(once.clone());
    assert_eq!(once, twice);
}

#[test]
fn empty_payload_gets_terminator() {
    assert_eq!(normalize_payload(String::new()), "\r\n");
}

#[test]
fn bare_newline_is_not_a_terminator() {
    assert_eq!(normalize_payload(String::from("x\n")), "x\n\r\n");
}

#[test]
fn empty_pop_is_repolled() {
    let r = outbound_step(None);
    assert!(matches!(r, OutboundAction::Repoll));
}

#[test]
fn malformed_pop_entry_is_repolled() {
    let r = outbound_step(Some(vec![String::from("irc-write")]));
    assert!(matches!(r, OutboundAction::Repoll));
}

#[test]
fn queued_command_is_dispatched_in_wire_form() {
    // Queue entry ["irc-write", "PRIVMSG #chan :hello"]: the payload gains
    // the terminator, parses, and is dispatched under the flood pause.
    // The protocol crate renders a single-word trailing argument without
    // the leading colon; the wire form always ends in the terminator.
    let entry = vec![String::from("irc-write"), String::from("PRIVMSG #chan :hello")];
    match outbound_step(Some(entry)) {
        OutboundAction::Dispatch { message, pause } => {
            assert_eq!(message.to_string(), "PRIVMSG #chan hello\r\n");
            assert_eq!(pause, FLOOD_INTERVAL_UNITS);
            assert!(pause >= 1);
        }
        _ => panic!("expected a dispatch"),
    }
}

#[test]
fn terminated_payload_round_trips_to_the_wire() {
    // A trailing argument with a space keeps its colon, so the sent
    // message is exactly the normalized payload.
    let entry = vec![
        String::from("irc-write"),
        String::from("PRIVMSG #chan :hello there\r\n"),
    ];
    match outbound_step(Some(entry)) {
        OutboundAction::Dispatch { message, pause } => {
            assert_eq!(message.to_string(), "PRIVMSG #chan :hello there\r\n");
            assert_eq!(pause, FLOOD_INTERVAL_UNITS);
        }
        _ => panic!("expected a dispatch"),
    }
}

#[test]
fn unparsable_payload_is_discarded_with_pause() {
    // ":a :b" keeps a prefix but no command, which the protocol parser
    // rejects; the entry is dropped unsent, still under the flood pause.
    let entry = vec![String::from("irc-write"), String::from(":a :b")];
    match outbound_step(Some(entry)) {
        OutboundAction::Discard { pause } => {
            assert_eq!(pause, FLOOD_INTERVAL_UNITS);
        }
        _ => panic!("expected a discard"),
    }
    // The next pop proceeds normally.
    let entry = vec![String::from("irc-write"), String::from("PRIVMSG #chan :hi")];
    assert!(matches!(outbound_step(Some(entry)), OutboundAction::Dispatch { .. }));
}
