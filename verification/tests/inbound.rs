use noraproxy::digits::u64_to_string;
use noraproxy::history::BoundedHistory;
use noraproxy::inbound::{build_record, handle_event, process_event, InboundState};

#[test]
fn renders_decimal_digits() {
    assert_eq!(u64_to_string(0), "0");
    assert_eq!(u64_to_string(7), "7");
    assert_eq!(u64_to_string(10), "10");
    assert_eq!(u64_to_string(105), "105");
    assert_eq!(u64_to_string(1000), "1000");
    assert_eq!(u64_to_string(u64::MAX), "18446744073709551615");
}

#[test]
fn builds_record_line() {
    assert_eq!(build_record(42, "hello"), "42 hello");
    assert_eq!(build_record(0, ""), "0 ");
}

#[test]
fn inbound_event_is_recorded_and_announced() {
    // Counter starts at 0, so the increment yields 1.
    let eff = process_event("PRIVMSG #chan :hi", Some(1), 1000);
    assert_eq!(eff.sequence, 1);
    assert_eq!(eff.record, "1 PRIVMSG #chan :hi");
    assert_eq!(eff.trim_start, -1000);
    assert_eq!(eff.trim_end, -1);
}

#[test]
fn counter_failure_falls_back_to_zero() {
    let eff = process_event("PRIVMSG #chan :hi", None, 5);
    assert_eq!(eff.sequence, 0);
    assert_eq!(eff.record, "0 PRIVMSG #chan :hi");
    assert_eq!(eff.trim_start, -5);
    assert_eq!(eff.trim_end, -1);
}

#[test]
fn handle_event_records_rendered_message() {
    let msg: irc::proto::Message = "PRIVMSG #chan :hi there\r\n".parse().unwrap();
    let eff = handle_event(&msg, Some(1), 1000);
    assert_eq!(eff.sequence, 1);
    assert_eq!(eff.record, "1 PRIVMSG #chan :hi there\r\n");
    assert_eq!(eff.trim_start, -1000);
    assert_eq!(eff.trim_end, -1);
}

#[test]
fn full_history_append_evicts_exactly_the_oldest() {
    let mut h = BoundedHistory::new(2);
    h.append(String::from("1 a"));
    h.append(String::from("2 b"));
    assert_eq!(h.entries, vec![String::from("1 a"), String::from("2 b")]);
    h.append(String::from("3 c"));
    assert_eq!(h.entries, vec![String::from("2 b"), String::from("3 c")]);
}

#[test]
fn history_with_limit_one_keeps_only_newest() {
    let mut h = BoundedHistory::new(1);
    h.append(String::from("1 a"));
    h.append(String::from("2 b"));
    assert_eq!(h.entries, vec![String::from("2 b")]);
}

#[test]
fn inbound_state_keeps_newest_records_in_order() {
    let mut st = InboundState::new(2);
    st.record_event("a");
    st.record_event("b");
    st.record_event("c");
    assert_eq!(st.counter, 3);
    assert_eq!(st.history.entries, vec![String::from("2 b"), String::from("3 c")]);
}

#[test]
fn inbound_state_below_limit_keeps_everything() {
    let mut st = InboundState::new(10);
    st.record_event("a");
    st.record_event("b");
    assert_eq!(st.counter, 2);
    assert_eq!(st.history.entries, vec![String::from("1 a"), String::from("2 b")]);
}
