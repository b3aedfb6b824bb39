//! BRM call stack traces: reading their lines, which `Enter` line each exit
//! line closes, and the call tree. Entries are taken by position; the
//! timestamps stay text here, and the caller measures durations between the
//! positions paired here.
use vstd::prelude::*;

use crate::lfield::{run_end, scan_run, CharClass};
use crate::text::{
    all_whitespace, all_ws, char_views, chars_are, chars_of, lines, lines_chars, string_of,
    sub_chars,
};

verus! {

/// The groups of a call stack trace line: the timestamp, the nesting level
/// (the number of dots), the action, the operation and the return code.
pub struct TraceParts {
    pub timestamp: Seq<char>,
    pub level: int,
    pub action: Seq<char>,
    pub operation: Seq<char>,
    pub return_code: Seq<char>,
}

/// The groups of a call stack trace line under the grammar
/// `^\s*(\d+\.\d+)\s+(\.*)(\w+)\s+(\w+)\s+\(([^)]+)\)` (Unicode classes; what
/// follows the `)` is free), or `None` where the line does not match. Each
/// run is the longest one: no class includes the character that must follow
/// its run, so that is the only way the pattern can match.
pub open spec fn trace_parts(s: Seq<char>) -> Option<TraceParts> {
    let a = run_end(s, 0, CharClass::Space);
    let b = run_end(s, a, CharClass::Decimal);
    let c = run_end(s, b + 1, CharClass::Decimal);
    let d = run_end(s, c, CharClass::Space);
    let e = run_end(s, d, CharClass::Dot);
    let f = run_end(s, e, CharClass::Word);
    let g = run_end(s, f, CharClass::Space);
    let h = run_end(s, g, CharClass::Word);
    let i = run_end(s, h, CharClass::Space);
    let j = run_end(s, i + 1, CharClass::NotCloseParen);
    if a < b < s.len() && s[b] == '.' && b + 1 < c < d && e < f < g < h < i < s.len() && s[i]
        == '(' && i + 1 < j < s.len() {
        Some(
            TraceParts {
                timestamp: s.subrange(a, c),
                level: e - d,
                action: s.subrange(e, f),
                operation: s.subrange(g, h),
                return_code: s.subrange(i + 1, j),
            },
        )
    } else {
        None
    }
}

/// The groups of a trace line, as character vectors.
pub struct TraceTokens {
    pub timestamp: Vec<char>,
    pub level: usize,
    pub action: Vec<char>,
    pub operation: Vec<char>,
    pub return_code: Vec<char>,
}

impl View for TraceTokens {
    type V = TraceParts;

    open spec fn view(&self) -> TraceParts {
        TraceParts {
            timestamp: self.timestamp@,
            level: self.level as int,
            action: self.action@,
            operation: self.operation@,
            return_code: self.return_code@,
        }
    }
}

/// Match a line against the trace line grammar.
pub fn match_trace_line(s: &Vec<char>) -> (r: Option<TraceTokens>)
    ensures
        r matches Some(t) ==> trace_parts(s@) == Some(t@),
        r is None ==> trace_parts(s@) is None,
{
    let n = s.len();
    let a = scan_run(s, 0, &CharClass::Space);
    let b = scan_run(s, a, &CharClass::Decimal);
    if !(a < b && b < n && s[b] == '.') {
        return None;
    }
    let c = scan_run(s, b + 1, &CharClass::Decimal);
    let d = scan_run(s, c, &CharClass::Space);
    let e = scan_run(s, d, &CharClass::Dot);
    let f = scan_run(s, e, &CharClass::Word);
    let g = scan_run(s, f, &CharClass::Space);
    let h = scan_run(s, g, &CharClass::Word);
    let i = scan_run(s, h, &CharClass::Space);
    if !(b + 1 < c && c < d && e < f && f < g && g < h && h < i && i < n && s[i] == '(') {
        return None;
    }
    let j = scan_run(s, i + 1, &CharClass::NotCloseParen);
    if !(i + 1 < j && j < n) {
        return None;
    }
    Some(
        TraceTokens {
            timestamp: sub_chars(s, a, c),
            level: e - d,
            action: sub_chars(s, e, f),
            operation: sub_chars(s, g, h),
            return_code: sub_chars(s, i + 1, j),
        },
    )
}

/// The text of a timestamp holds only ASCII digits and `.`, so that it reads
/// as a decimal number of `f64`.
pub open spec fn ascii_decimal(t: Seq<char>) -> bool {
    forall|k: int| 0 <= k < t.len() ==> #[trigger] t[k] == '.' || ('0' <= t[k] && t[k] <= '9')
}

/// Decide `ascii_decimal`.
pub fn is_ascii_decimal(t: &Vec<char>) -> (r: bool)
    ensures
        r == ascii_decimal(t@),
{
    let n = t.len();
    for k in 0..n
        invariant
            n == t@.len(),
            forall|m: int|
                0 <= m < k ==> #[trigger] t@[m] == '.' || ('0' <= t@[m] && t@[m] <= '9'),
    {
        let c = t[k];
        if !(c == '.' || ('0' <= c && c <= '9')) {
            return false;
        }
    }
    true
}

/// One line of a call stack trace.
pub struct TraceLineView {
    pub timestamp: Seq<char>,
    pub level: int,
    pub is_enter: bool,
    pub operation: Seq<char>,
    pub return_code: Seq<char>,
}

/// The entry of a matched line: it enters where its action is `Enter`.
pub open spec fn trace_line_of(p: TraceParts) -> TraceLineView {
    TraceLineView {
        timestamp: p.timestamp,
        level: p.level,
        is_enter: p.action == "Enter"@,
        operation: p.operation,
        return_code: p.return_code,
    }
}

/// Why a trace cannot be read: a non-blank line that does not match the
/// grammar, or a timestamp that is not ASCII (the first such line counts);
/// with the entries read before that line.
pub enum TraceFailure {
    Line { line: Seq<char>, parsed: Seq<TraceLineView> },
    Timestamp { text: Seq<char>, parsed: Seq<TraceLineView> },
}

/// A failure with `acc` read before the entries it already holds.
pub open spec fn after_entries(acc: Seq<TraceLineView>, e: TraceFailure) -> TraceFailure {
    match e {
        TraceFailure::Line { line, parsed } => TraceFailure::Line { line, parsed: acc + parsed },
        TraceFailure::Timestamp { text, parsed } => TraceFailure::Timestamp {
            text,
            parsed: acc + parsed,
        },
    }
}

/// Read the lines of a trace from line `i` on: blank lines are skipped.
pub open spec fn trace_from(ls: Seq<Seq<char>>, i: int) -> Result<Seq<TraceLineView>, TraceFailure>
    decreases ls.len() - i,
{
    if i < 0 || i >= ls.len() {
        Ok(Seq::empty())
    } else if all_ws(ls[i]) {
        trace_from(ls, i + 1)
    } else {
        match trace_parts(ls[i]) {
            None => Err(TraceFailure::Line { line: ls[i], parsed: Seq::empty() }),
            Some(p) => if !ascii_decimal(p.timestamp) {
                Err(TraceFailure::Timestamp { text: p.timestamp, parsed: Seq::empty() })
            } else {
                match trace_from(ls, i + 1) {
                    Ok(rest) => Ok(seq![trace_line_of(p)] + rest),
                    Err(e) => Err(after_entries(seq![trace_line_of(p)], e)),
                }
            },
        }
    }
}

/// The entries of a trace text, or why it cannot be read.
pub open spec fn parse_trace(input: Seq<char>) -> Result<Seq<TraceLineView>, TraceFailure> {
    trace_from(lines(input), 0)
}

/// One line of a call stack trace, with its timestamp as text.
#[derive(Debug)]
pub struct TraceLine {
    pub timestamp: String,
    pub level: usize,
    pub is_enter: bool,
    pub operation: String,
    pub return_code: String,
}

impl View for TraceLine {
    type V = TraceLineView;

    open spec fn view(&self) -> TraceLineView {
        TraceLineView {
            timestamp: self.timestamp@,
            level: self.level as int,
            is_enter: self.is_enter,
            operation: self.operation@,
            return_code: self.return_code@,
        }
    }
}

/// The views of a sequence of trace lines.
pub open spec fn trace_views(v: Seq<TraceLine>) -> Seq<TraceLineView> {
    v.map_values(|t: TraceLine| t@)
}

/// Why a trace cannot be read: the message for a line that does not match,
/// or the timestamp text that does not read as a number; with the entries
/// read before that line.
#[derive(Debug)]
pub enum TraceError {
    Line { message: String, parsed: Vec<TraceLine> },
    Timestamp { text: String, parsed: Vec<TraceLine> },
}

/// The reading that `trace_from(ls, i)` gives, after the entries `acc`.
pub open spec fn trace_after(acc: Seq<TraceLineView>, ls: Seq<Seq<char>>, i: int) -> Result<
    Seq<TraceLineView>,
    TraceFailure,
> {
    match trace_from(ls, i) {
        Ok(rest) => Ok(acc + rest),
        Err(e) => Err(after_entries(acc, e)),
    }
}

/// Read a call stack trace (see `parse_trace`): an unmatched line gives
/// `Failed to parse line: <line>`; a failure carries the entries read
/// before it.
pub fn parse_callstack_lines(input: &str) -> (r: Result<Vec<TraceLine>, TraceError>)
    ensures
        match parse_trace(input@) {
            Ok(v) => r matches Ok(x) && trace_views(x@) == v,
            Err(TraceFailure::Line { line, parsed }) => r matches Err(
                TraceError::Line { message, parsed: got },
            ) && message@ == "Failed to parse line: "@ + line && trace_views(got@) == parsed,
            Err(TraceFailure::Timestamp { text, parsed }) => r matches Err(
                TraceError::Timestamp { text: t, parsed: got },
            ) && t@ == text && trace_views(got@) == parsed,
        },
{
    let ls = lines_chars(&chars_of(input));
    let ghost lv = char_views(ls@);
    let mut out: Vec<TraceLine> = Vec::new();
    let n = ls.len();
    proof {
        if trace_from(lv, 0) is Ok {
            assert(trace_views(out@) + trace_from(lv, 0)->Ok_0 =~= trace_from(lv, 0)->Ok_0);
        }
    }
    for i in 0..n
        invariant
            n == ls@.len(),
            lv == char_views(ls@),
            lv == lines(input@),
            trace_from(lv, 0) == trace_after(trace_views(out@), lv, i as int),
    {
        let line = &ls[i];
        assert(lv[i as int] == line@);
        if !all_whitespace(line) {
            match match_trace_line(line) {
                None => {
                    let mut m = String::from_str("Failed to parse line: ");
                    m.append(string_of(line).as_str());
                    proof {
                        assert(trace_views(out@) + Seq::<TraceLineView>::empty() =~= trace_views(
                            out@,
                        ));
                    }
                    return Err(TraceError::Line { message: m, parsed: out });
                },
                Some(t) => {
                    if !is_ascii_decimal(&t.timestamp) {
                        proof {
                            assert(trace_views(out@) + Seq::<TraceLineView>::empty() =~= trace_views(
                                out@,
                            ));
                        }
                        return Err(
                            TraceError::Timestamp { text: string_of(&t.timestamp), parsed: out },
                        );
                    }
                    let entry = TraceLine {
                        timestamp: string_of(&t.timestamp),
                        level: t.level,
                        is_enter: chars_are(&t.action, "Enter"),
                        operation: string_of(&t.operation),
                        return_code: string_of(&t.return_code),
                    };
                    let ghost before = trace_views(out@);
                    out.push(entry);
                    assert(trace_views(out@) =~= before.push(trace_line_of(t@)));
                    proof {
                        match trace_from(lv, i + 1) {
                            Ok(rest) => {
                                assert(before + (seq![trace_line_of(t@)] + rest) =~= before.push(
                                    trace_line_of(t@),
                                ) + rest);
                            },
                            Err(e) => {
                                let l = seq![trace_line_of(t@)];
                                assert(before + (l + match e {
                                    TraceFailure::Line { line, parsed } => parsed,
                                    TraceFailure::Timestamp { text, parsed } => parsed,
                                }) =~= before.push(trace_line_of(t@)) + match e {
                                    TraceFailure::Line { line, parsed } => parsed,
                                    TraceFailure::Timestamp { text, parsed } => parsed,
                                });
                            },
                        }
                    }
                },
            }
        }
    }
    assert(trace_views(out@) + Seq::<TraceLineView>::empty() =~= trace_views(out@));
    Ok(out)
}

/// One trace entry: whether it enters or exits an operation, and the
/// operation's name.
#[derive(Debug, Clone)]
pub struct CallEvent {
    pub is_enter: bool,
    pub operation: String,
}

/// The views of a sequence of trace entries.
pub open spec fn event_views(v: Seq<CallEvent>) -> Seq<(bool, Seq<char>)> {
    v.map_values(|e: CallEvent| (e.is_enter, e.operation@))
}

/// The open calls (operation and position of its entry) and the pairs of
/// positions (entry, exit) found after the first `k` entries: an entry is
/// pushed; an exit pops the innermost open call and pairs with it where the
/// operation names agree (and is dropped otherwise, as is an exit with no
/// open call).
pub open spec fn pair_state(ev: Seq<(bool, Seq<char>)>, k: int) -> (Seq<(Seq<char>, int)>, Seq<
    (int, int),
>)
    decreases k,
{
    if k <= 0 || k > ev.len() {
        (Seq::empty(), Seq::empty())
    } else {
        let (stack, pairs) = pair_state(ev, k - 1);
        let e = ev[k - 1];
        if e.0 {
            (stack.push((e.1, k - 1)), pairs)
        } else if stack.len() > 0 {
            let top = stack.last();
            if top.0 == e.1 {
                (stack.drop_last(), pairs.push((top.1, k - 1)))
            } else {
                (stack.drop_last(), pairs)
            }
        } else {
            (stack, pairs)
        }
    }
}

/// The (entry, exit) position pairs of a trace whose durations are
/// measured, in the order of the exits.
pub open spec fn call_pairs(ev: Seq<(bool, Seq<char>)>) -> Seq<(int, int)> {
    pair_state(ev, ev.len() as int).1
}

/// The open-call stack, as text and positions.
pub open spec fn stack_views(v: Seq<(String, usize)>) -> Seq<(Seq<char>, int)> {
    v.map_values(|p: (String, usize)| (p.0@, p.1 as int))
}

/// The pairs, as integers.
pub open spec fn pair_views(v: Seq<(usize, usize)>) -> Seq<(int, int)> {
    v.map_values(|p: (usize, usize)| (p.0 as int, p.1 as int))
}

/// Pair each exit of a trace with the entry that it closes (see
/// `pair_state`).
pub fn match_calls(events: &Vec<CallEvent>) -> (r: Vec<(usize, usize)>)
    ensures
        pair_views(r@) == call_pairs(event_views(events@)),
{
    let ghost ev = event_views(events@);
    let mut stack: Vec<(String, usize)> = Vec::new();
    let mut pairs: Vec<(usize, usize)> = Vec::new();
    let n = events.len();
    for i in 0..n
        invariant
            n == events@.len(),
            ev == event_views(events@),
            (stack_views(stack@), pair_views(pairs@)) == pair_state(ev, i as int),
    {
        let e = &events[i];
        assert(ev[i as int] == (e.is_enter, e.operation@));
        let ghost sv = stack_views(stack@);
        let ghost pv = pair_views(pairs@);
        if e.is_enter {
            stack.push((e.operation.clone(), i));
            assert(stack_views(stack@) =~= sv.push((e.operation@, i as int)));
        } else if stack.len() > 0 {
            let (op, start) = stack.pop().unwrap();
            assert(stack_views(stack@) =~= sv.drop_last());
            assert(sv.last() == (op@, start as int));
            if op == e.operation {
                pairs.push((start, i));
                assert(pair_views(pairs@) =~= pv.push((start as int, i as int)));
            }
        }
    }
    pairs
}

/// A node of the call tree: the position of its entry, the position of the
/// exit that closes it (if the next entry after its children is an exit of
/// the same operation), and the calls made inside it.
pub struct CallTreeSpec {
    pub enter: int,
    pub exit: Option<int>,
    pub children: Seq<CallTreeSpec>,
}

/// The call trees that start at position `i` of a trace, and the position
/// after them: consecutive entries each with the calls made inside it and
/// its matching exit; an exit that matches no open call ends the level.
pub open spec fn trees_from(ev: Seq<(bool, Seq<char>)>, i: int) -> (Seq<CallTreeSpec>, int)
    decreases ev.len() - i,
{
    if i < 0 || i >= ev.len() || !ev[i].0 {
        (Seq::empty(), i)
    } else {
        let (children, j) = trees_from(ev, i + 1);
        let (exit, k) = if 0 <= j < ev.len() && !ev[j].0 && ev[j].1 == ev[i].1 {
            (Some(j), j + 1)
        } else {
            (None, j)
        };
        let next = if i < k <= ev.len() {
            k
        } else {
            ev.len() as int
        };
        let (rest, e) = trees_from(ev, next);
        (seq![CallTreeSpec { enter: i, exit: exit, children: children }] + rest, e)
    }
}

/// The trees end no earlier than they start, within the trace.
pub proof fn lemma_trees_end(ev: Seq<(bool, Seq<char>)>, i: int)
    requires
        0 <= i <= ev.len(),
    ensures
        i <= trees_from(ev, i).1 <= ev.len(),
    decreases ev.len() - i,
{
    if i < ev.len() && ev[i].0 {
        lemma_trees_end(ev, i + 1);
        let (children, j) = trees_from(ev, i + 1);
        let k = if 0 <= j < ev.len() && !ev[j].0 && ev[j].1 == ev[i].1 {
            j + 1
        } else {
            j
        };
        lemma_trees_end(ev, k);
    }
}

/// The trees from an entry at position `i`: the first is the tree of that
/// entry, with the calls made inside it and its exit where the next line
/// after them closes it; the rest start after that.
pub proof fn lemma_trees_first(ev: Seq<(bool, Seq<char>)>, i: int)
    requires
        0 <= i < ev.len(),
        ev[i].0,
    ensures
        ({
            let (children, j) = trees_from(ev, i + 1);
            let closes = 0 <= j < ev.len() && !ev[j].0 && ev[j].1 == ev[i].1;
            let k = if closes {
                j + 1
            } else {
                j
            };
            let all = trees_from(ev, i);
            &&& all.0.len() > 0
            &&& all.0[0] == CallTreeSpec {
                enter: i,
                exit: if closes {
                    Some(j)
                } else {
                    None
                },
                children: children,
            }
            &&& all.0.drop_first() == trees_from(ev, k).0
            &&& all.1 == trees_from(ev, k).1
        }),
{
    lemma_trees_end(ev, i + 1);
    let (children, j) = trees_from(ev, i + 1);
    let closes = 0 <= j < ev.len() && !ev[j].0 && ev[j].1 == ev[i].1;
    let k = if closes {
        j + 1
    } else {
        j
    };
    let first = CallTreeSpec {
        enter: i,
        exit: if closes {
            Some(j)
        } else {
            None
        },
        children: children,
    };
    assert(trees_from(ev, i).0 == seq![first] + trees_from(ev, k).0);
    assert((seq![first] + trees_from(ev, k).0).drop_first() =~= trees_from(ev, k).0);
}

/// Appending the node of the next tree keeps the nodes built so far the
/// first trees of `all`.
proof fn lemma_nodes_push(
    before: Seq<CallNode>,
    node: CallNode,
    all: Seq<CallTreeSpec>,
    rest: Seq<CallTreeSpec>,
)
    requires
        all.len() == before.len() + rest.len(),
        nodes_are(before, all.take(before.len() as int)),
        rest == all.skip(before.len() as int),
        rest.len() > 0,
        node.enter == rest[0].enter,
        node.exit matches Some(x) ==> rest[0].exit == Some(x as int),
        node.exit is None ==> rest[0].exit is None,
        nodes_are(node.children@, rest[0].children),
    ensures
        nodes_are(before.push(node), all.take(before.len() as int + 1)),
        rest.drop_first() == all.skip(before.len() as int + 1),
{
    let ns = before.push(node);
    let ts = all.take(before.len() as int + 1);
    assert(all[before.len() as int] == rest[0]);
    assert forall|k: int| 0 <= k < ts.len() implies {
        &&& #[trigger] ns[k].enter == ts[k].enter
        &&& ns[k].exit matches Some(x) ==> ts[k].exit == Some(x as int)
        &&& ns[k].exit is None ==> ts[k].exit is None
        &&& nodes_are(ns[k].children@, ts[k].children)
    } by {
        if k < before.len() {
            assert(ns[k] == before[k]);
            assert(ts[k] == all.take(before.len() as int)[k]);
            assert(before[k].enter == all.take(before.len() as int)[k].enter);
        } else {
            assert(ns[k] == node);
            assert(ts[k] == rest[0]);
        }
    }
    assert(rest.drop_first() =~= all.skip(before.len() as int + 1));
}

/// A node of the call tree.
#[derive(Debug)]
pub struct CallNode {
    pub enter: usize,
    pub exit: Option<usize>,
    pub children: Vec<CallNode>,
}

/// The nodes `ns` are the trees `ts`.
pub open spec fn nodes_are(ns: Seq<CallNode>, ts: Seq<CallTreeSpec>) -> bool
    decreases ts,
{
    &&& ns.len() == ts.len()
    &&& forall|k: int|
        0 <= k < ts.len() ==> {
            &&& #[trigger] ns[k].enter == ts[k].enter
            &&& ns[k].exit matches Some(x) ==> ts[k].exit == Some(x as int)
            &&& ns[k].exit is None ==> ts[k].exit is None
            &&& nodes_are(ns[k].children@, ts[k].children)
        }
}

/// Build the call trees of a trace from position `*index` on, leaving
/// `*index` after them (see `trees_from`).
pub fn build_call_trees(events: &Vec<CallEvent>, index: &mut usize) -> (r: Vec<CallNode>)
    requires
        *old(index) <= events@.len(),
    ensures
        nodes_are(r@, trees_from(event_views(events@), *old(index) as int).0),
        *final(index) == trees_from(event_views(events@), *old(index) as int).1,
    decreases events@.len() - *old(index),
{
    let ghost ev = event_views(events@);
    let ghost start = *index as int;
    let mut nodes: Vec<CallNode> = Vec::new();
    let n = events.len();
    proof {
        lemma_trees_end(ev, start);
    }
    loop
        invariant_except_break
            n == events@.len(),
            ev == event_views(events@),
            *index <= n,
            0 <= start <= *index <= n,
            start == *old(index),
            trees_from(ev, start).1 == trees_from(ev, *index as int).1,
            ({
                let all = trees_from(ev, start).0;
                let rest = trees_from(ev, *index as int).0;
                &&& all.len() == nodes@.len() + rest.len()
                &&& nodes_are(nodes@, all.take(nodes@.len() as int))
                &&& rest == all.skip(nodes@.len() as int)
            }),
        ensures
            nodes_are(nodes@, trees_from(ev, start).0),
            *index == trees_from(ev, start).1,
        decreases n - *index,
    {
        let ghost i = *index as int;
        proof {
            lemma_trees_end(ev, i);
        }
        let stop = *index >= n || !events[*index].is_enter;
        proof {
            if i < n {
                assert(ev[i] == (events@[i].is_enter, events@[i].operation@));
            }
        }
        if stop {
            let ghost all = trees_from(ev, start).0;
            assert(all.take(nodes@.len() as int) =~= all);
            break;
        }
        assert(ev[i] == (events@[i].is_enter, events@[i].operation@));
        proof {
            lemma_trees_first(ev, i);
        }
        let enter_index = *index;
        *index = *index + 1;
        let children = build_call_trees(events, index);
        let ghost j = *index as int;
        proof {
            lemma_trees_end(ev, i + 1);
        }
        let exit = if *index < n && !events[*index].is_enter && events[*index].operation
            == events[enter_index].operation {
            assert(ev[j] == (events@[j].is_enter, events@[j].operation@));
            let x = *index;
            *index = *index + 1;
            Some(x)
        } else {
            proof {
                if j < n {
                    assert(ev[j] == (events@[j].is_enter, events@[j].operation@));
                }
            }
            None
        };
        let ghost before = nodes@;
        let node = CallNode { enter: enter_index, exit: exit, children: children };
        proof {
            lemma_nodes_push(before, node, trees_from(ev, start).0, trees_from(ev, i).0);
        }
        nodes.push(node);
    }
    nodes
}

} // verus!
