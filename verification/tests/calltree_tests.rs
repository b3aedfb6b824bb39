use oneclick_brm::calltree::{build_call_trees, match_calls, CallEvent, CallNode};

fn ev(is_enter: bool, op: &str) -> CallEvent {
    CallEvent { is_enter, operation: op.to_string() }
}

#[test]
fn nested_calls_pair_inner_first() {
    let events = vec![
        ev(true, "A"),
        ev(true, "B"),
        ev(false, "B"),
        ev(false, "A"),
    ];
    assert_eq!(match_calls(&events), vec![(1, 2), (0, 3)]);
}

#[test]
fn mismatched_exit_is_dropped_with_its_entry() {
    // The exit of C pops B's entry, and the names differ: no pair.
    let events = vec![
        ev(true, "A"),
        ev(true, "B"),
        ev(false, "C"),
        ev(false, "A"),
    ];
    assert_eq!(match_calls(&events), vec![(0, 3)]);
}

#[test]
fn exit_without_entry_is_ignored() {
    let events = vec![ev(false, "X"), ev(true, "A"), ev(false, "A")];
    assert_eq!(match_calls(&events), vec![(1, 2)]);
}

#[test]
fn empty_trace_has_no_pairs_and_no_tree() {
    let events: Vec<CallEvent> = Vec::new();
    assert!(match_calls(&events).is_empty());
    let mut index: usize = 0;
    assert!(build_call_trees(&events, &mut index).is_empty());
    assert_eq!(index, 0);
}

fn shape(n: &CallNode) -> String {
    let mut s = format!("{}", n.enter);
    if let Some(x) = n.exit {
        s.push_str(&format!("-{}", x));
    }
    if !n.children.is_empty() {
        s.push('(');
        let parts: Vec<String> = n.children.iter().map(shape).collect();
        s.push_str(&parts.join(","));
        s.push(')');
    }
    s
}

#[test]
fn tree_of_nested_and_sibling_calls() {
    let events = vec![
        ev(true, "A"),
        ev(true, "B"),
        ev(false, "B"),
        ev(true, "C"),
        ev(false, "C"),
        ev(false, "A"),
        ev(true, "D"),
        ev(false, "D"),
    ];
    let mut index: usize = 0;
    let tree = build_call_trees(&events, &mut index);
    let shapes: Vec<String> = tree.iter().map(shape).collect();
    assert_eq!(shapes, vec!["0-5(1-2,3-4)".to_string(), "6-7".to_string()]);
    assert_eq!(index, 8);
}

#[test]
fn tree_stops_at_an_exit_of_another_operation() {
    // C's exit ends B's children; B gets no exit, and the level above ends.
    let events = vec![
        ev(true, "A"),
        ev(true, "B"),
        ev(false, "C"),
        ev(false, "A"),
    ];
    let mut index: usize = 0;
    let tree = build_call_trees(&events, &mut index);
    let shapes: Vec<String> = tree.iter().map(shape).collect();
    assert_eq!(shapes, vec!["0(1)".to_string()]);
    assert_eq!(index, 2);
}

#[test]
fn tree_from_a_leading_exit_is_empty() {
    let events = vec![ev(false, "A"), ev(true, "B")];
    let mut index: usize = 0;
    assert!(build_call_trees(&events, &mut index).is_empty());
    assert_eq!(index, 0);
}

use oneclick_brm::calltree::{parse_callstack_lines, TraceError};

#[test]
fn trace_lines_are_read() {
    let input = "  1.500 Enter PCM_OP_READ (0)\n\n1.750   ..Exit PCM_OP_READ (ERR 5) trailing\n";
    let lines = parse_callstack_lines(input).unwrap();
    assert_eq!(lines.len(), 2);
    assert_eq!(lines[0].timestamp, "1.500");
    assert_eq!(lines[0].level, 0);
    assert!(lines[0].is_enter);
    assert_eq!(lines[0].operation, "PCM_OP_READ");
    assert_eq!(lines[0].return_code, "0");
    assert_eq!(lines[1].timestamp, "1.750");
    assert_eq!(lines[1].level, 2);
    assert!(!lines[1].is_enter);
    assert_eq!(lines[1].operation, "PCM_OP_READ");
    assert_eq!(lines[1].return_code, "ERR 5");
}

#[test]
fn blank_trace_has_no_lines() {
    assert!(parse_callstack_lines("").unwrap().is_empty());
    assert!(parse_callstack_lines(" \n\t\n").unwrap().is_empty());
}

#[test]
fn unmatched_trace_line_is_reported() {
    match parse_callstack_lines("1.0 Enter A (0)\nnot a trace line\n2.0 Exit A (0)") {
        Err(TraceError::Line { message, parsed }) => {
            assert_eq!(message, "Failed to parse line: not a trace line");
            assert_eq!(parsed.len(), 1);
            assert_eq!(parsed[0].operation, "A");
            assert!(parsed[0].is_enter);
        },
        other => panic!("unexpected {:?}", other),
    }
    // The return code needs at least one character, and the `)`.
    assert!(matches!(parse_callstack_lines("1.0 Enter A ()"), Err(TraceError::Line { .. })));
    assert!(matches!(parse_callstack_lines("1.0 Enter A (0"), Err(TraceError::Line { .. })));
    // The timestamp needs digits on both sides of the dot.
    assert!(matches!(parse_callstack_lines("1. Enter A (0)"), Err(TraceError::Line { .. })));
    assert!(matches!(parse_callstack_lines(".5 Enter A (0)"), Err(TraceError::Line { .. })));
}

#[test]
fn non_ascii_timestamp_is_reported() {
    match parse_callstack_lines("\u{661}.\u{665} Enter A (0)") {
        Err(TraceError::Timestamp { text, parsed }) => {
            assert_eq!(text, "\u{661}.\u{665}");
            assert!(parsed.is_empty());
        },
        other => panic!("unexpected {:?}", other),
    }
}

#[test]
fn word_characters_beyond_ascii_are_names() {
    let lines = parse_callstack_lines("3.25 Enter Opér_ation (x)").unwrap();
    assert_eq!(lines[0].operation, "Opér_ation");
}
