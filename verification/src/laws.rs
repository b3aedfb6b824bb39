//! Properties of the library that span several operations or every input.
use vstd::prelude::*;

use crate::calltree::{call_pairs, lemma_trees_end, pair_state, trees_from, CallTreeSpec};
use crate::fields::{
    after_load, field_index, field_index_from, lemma_field_index_from, line_field, load_table,
    lookup_field, names_distinct, upsert, FieldView,
};
use crate::flist::{
    add_code_spec, add_flist_var, add_plain, ccode_ok, ccode_spec, code_emit, code_prepare, flist_level_name, var_name,
    code_start, code_step, code_step_ok, unwind, add_xml_spec, close_count, initial_state, lemma_close_tags, read_line_into, xml_close_count,
    xml_finish, xml_ok, xml_spec, xml_start, xml_step, xml_step_ok, FlistState, add_xml_ok, close_tag,
    close_tags, pop_tab,
};
use crate::podl::tabs;
use crate::lfield::{lemma_run_end, line_level_ok, line_parts, read_line, set_field_spec, CharClass};
use crate::number::{all_digits, digits_value, parse_i8, parse_int};
use crate::podl::{
    class_conversion, class_counts, class_fresh, counted_step, ClassPODL, class_podl,
    class_run_ok, add_nested1, add_nested2, class_line_step, class_run, class_start, field_podl_spec, first_char,
    kid_index_from, leading_tabs, tree_index_from, tree_pair_from, ClassModel, FieldLevel1,
    FieldLevel2, FieldPODLView,
};
use crate::text::{all_ws, split, trim};
use crate::service::{lemma_reg_index_from, reg_index_from, reg_lookup, reg_remove, SessionView};
use crate::text::{run_lines, run_lines_ok};

verus! {

/// The field that the last line of `ls` defining `name` defines.
pub open spec fn last_definition(ls: Seq<Seq<char>>, name: Seq<char>) -> Option<FieldView>
    decreases ls.len(),
{
    if ls.len() == 0 {
        None
    } else {
        match line_field(ls.last()) {
            Some(f) => if f.name == name {
                Some(f)
            } else {
                last_definition(ls.drop_last(), name)
            },
            None => last_definition(ls.drop_last(), name),
        }
    }
}

/// Looking a name up after inserting a field finds the inserted field if
/// the names agree, and what was there before otherwise.
pub proof fn lemma_lookup_upsert(t: Seq<FieldView>, f: FieldView, name: Seq<char>)
    ensures
        lookup_field(upsert(t, f), name) == if f.name == name {
            Some(f)
        } else {
            lookup_field(t, name)
        },
{
    let u = upsert(t, f);
    lemma_field_index_from(t, f.name, 0);
    lemma_field_index_from(t, name, 0);
    lemma_field_index_from(u, name, 0);
    match field_index(t, f.name) {
        Some(i) => {
            assert(u == t.update(i, f));
            if f.name == name {
                assert(u[i].name == name);
                if let Some(k) = field_index(u, name) {
                    if k < i {
                        assert(t[k].name == name);
                    }
                }
            } else {
                if let Some(k) = field_index(u, name) {
                    assert(k != i);
                    assert(t[k].name == name);
                    if let Some(m) = field_index(t, name) {
                        if m < k {
                            assert(u[m].name == name);
                        }
                    }
                } else if let Some(m) = field_index(t, name) {
                    assert(m != i);
                    assert(u[m].name == name);
                }
            }
        },
        None => {
            assert(u == t.push(f));
            if f.name == name {
                assert(u[t.len() as int].name == name);
                if let Some(k) = field_index(u, name) {
                    if k < t.len() {
                        assert(t[k].name == name);
                    }
                }
            } else {
                if let Some(k) = field_index(u, name) {
                    assert(k < t.len());
                    assert(t[k].name == name);
                    if let Some(m) = field_index(t, name) {
                        if m < k {
                            assert(u[m].name == name);
                        }
                    }
                } else if let Some(m) = field_index(t, name) {
                    assert(u[m].name == name);
                }
            }
        },
    }
}

/// A field table read from lines gives, for each name, the field of the last
/// line that defines it: a later definition replaces an earlier one.
pub proof fn law_lookup_after_load(ls: Seq<Seq<char>>, name: Seq<char>)
    ensures
        lookup_field(load_table(ls), name) == last_definition(ls, name),
    decreases ls.len(),
{
    if ls.len() > 0 {
        law_lookup_after_load(ls.drop_last(), name);
        if let Some(f) = line_field(ls.last()) {
            lemma_lookup_upsert(load_table(ls.drop_last()), f, name);
        }
    }
}

/// Inserting a field keeps the names of a table distinct.
pub proof fn lemma_upsert_distinct(t: Seq<FieldView>, f: FieldView)
    requires
        names_distinct(t),
    ensures
        names_distinct(upsert(t, f)),
{
    lemma_field_index_from(t, f.name, 0);
    let u = upsert(t, f);
    match field_index(t, f.name) {
        Some(i) => {
            assert forall|a: int, b: int| 0 <= a < b < u.len() implies u[a].name != u[b].name by {
                if a == i {
                    assert(t[i].name == f.name);
                } else if b == i {
                    assert(t[i].name == f.name);
                }
            }
        },
        None => {
            assert forall|a: int, b: int| 0 <= a < b < u.len() implies u[a].name != u[b].name by {
                if b == t.len() {
                    assert(u[a] == t[a]);
                }
            }
        },
    }
}

/// A field table read from lines never holds two fields of the same name.
pub proof fn law_loaded_names_distinct(ls: Seq<Seq<char>>)
    ensures
        names_distinct(load_table(ls)),
    decreases ls.len(),
{
    if ls.len() > 0 {
        law_loaded_names_distinct(ls.drop_last());
        if let Some(f) = line_field(ls.last()) {
            lemma_upsert_distinct(load_table(ls.drop_last()), f);
        }
    }
}

/// Once a session has fields, loading again changes nothing: the first
/// load that gives a session fields is the one that stays.
pub proof fn law_load_once(t: Seq<FieldView>, first: Seq<char>, second: Seq<char>)
    requires
        after_load(t, first).len() > 0,
    ensures
        after_load(after_load(t, first), second) == after_load(t, first),
{
}

/// No two registered sessions have the same id.
pub open spec fn ids_distinct(s: Seq<SessionView>) -> bool {
    forall|i: int, j: int| 0 <= i < j < s.len() ==> s[i].id != s[j].id
}

/// Registering a session whose id is not registered keeps the ids distinct,
/// makes the session findable by its id, and leaves every other id's
/// session as it was.
pub proof fn law_register(s: Seq<SessionView>, x: SessionView, other: Seq<char>)
    requires
        ids_distinct(s),
        reg_lookup(s, x.id) is None,
        other != x.id,
    ensures
        ids_distinct(s.push(x)),
        reg_lookup(s.push(x), x.id) == Some(x),
        reg_lookup(s.push(x), other) == reg_lookup(s, other),
{
    let u = s.push(x);
    lemma_reg_index_from(s, x.id, 0);
    lemma_reg_index_from(u, x.id, 0);
    lemma_reg_index_from(s, other, 0);
    lemma_reg_index_from(u, other, 0);
    assert(u[s.len() as int].id == x.id);
    if let Some(k) = reg_index_from(u, x.id, 0) {
        if k < s.len() {
            assert(s[k].id == x.id);
        }
    }
    if let Some(k) = reg_index_from(u, other, 0) {
        assert(k < s.len());
        assert(s[k].id == other);
        if let Some(m) = reg_index_from(s, other, 0) {
            if m < k {
                assert(u[m].id == other);
            }
        }
    } else if let Some(m) = reg_index_from(s, other, 0) {
        assert(u[m].id == other);
    }
    assert forall|i: int, j: int| 0 <= i < j < u.len() implies u[i].id != u[j].id by {
        if j == s.len() {
            assert(u[i] == s[i]);
        }
    }
}

/// Unregistering a session makes its id unknown and leaves every other
/// id's session as it was, the ids staying distinct.
pub proof fn law_unregister(s: Seq<SessionView>, id: Seq<char>, other: Seq<char>)
    requires
        ids_distinct(s),
        other != id,
    ensures
        ids_distinct(reg_remove(s, id)),
        reg_lookup(reg_remove(s, id), id) is None,
        reg_lookup(reg_remove(s, id), other) == reg_lookup(s, other),
{
    lemma_reg_index_from(s, id, 0);
    let u = reg_remove(s, id);
    lemma_reg_index_from(u, id, 0);
    lemma_reg_index_from(u, other, 0);
    lemma_reg_index_from(s, other, 0);
    match reg_index_from(s, id, 0) {
        Some(i) => {
            assert(u == s.remove(i));
            if let Some(k) = reg_index_from(u, id, 0) {
                if k < i {
                    assert(u[k] == s[k]);
                } else {
                    assert(u[k] == s[k + 1]);
                }
            }
            if let Some(k) = reg_index_from(u, other, 0) {
                let ks = if k < i {
                    k
                } else {
                    k + 1
                };
                assert(u[k] == s[ks]);
                if let Some(m) = reg_index_from(s, other, 0) {
                    if m < ks {
                        assert(m != i);
                        let mu = if m < i {
                            m
                        } else {
                            m - 1
                        };
                        assert(u[mu] == s[m]);
                    } else if ks < m {
                        assert(s[ks].id == other);
                    }
                }
            } else if let Some(m) = reg_index_from(s, other, 0) {
                assert(m != i);
                let mu = if m < i {
                    m
                } else {
                    m - 1
                };
                assert(u[mu] == s[m]);
            }
            assert forall|a: int, b: int| 0 <= a < b < u.len() implies u[a].id != u[b].id by {
                let sa = if a < i {
                    a
                } else {
                    a + 1
                };
                let sb = if b < i {
                    b
                } else {
                    b + 1
                };
                assert(u[a] == s[sa]);
                assert(u[b] == s[sb]);
            }
        },
        None => {},
    }
}

/// The level that a line sets is never negative.
pub proof fn lemma_line_level_nonneg(f: crate::lfield::LFieldView, line: Seq<char>)
    requires
        f.level >= 0,
        line_level_ok(line),
    ensures
        set_field_spec(f, line).level >= 0,
{
    if let Some(p) = line_parts(line) {
        lemma_run_end(line, 0, CharClass::Decimal);
        assert(p.level[0] == line[0]);
        assert(parse_i8(p.level).unwrap() >= 0);
    }
}

/// Closing count for a stack of `len` entries at a level that is not
/// negative leaves at least one entry.
pub proof fn lemma_close_count_bound(len: int, lvl: i8)
    requires
        len >= 1,
        lvl >= 0,
    ensures
        close_count(len, lvl) <= len - 1,
{
    if len <= 127 {
        assert((len as i8) as int == len);
    } else {
        assert((len as i8) as int <= 127);
    }
}

/// The XML element stack holds the root `FLIST` at the bottom, and the
/// current level is not negative.
pub open spec fn xml_root_open(s: FlistState) -> bool {
    &&& s.xml_tag_stack.len() >= 1
    &&& s.xml_tag_stack[0] == "FLIST"@
    &&& s.cur_field.level >= 0
}

/// One line of XML conversion keeps the root open.
pub proof fn lemma_xml_step_root(s: FlistState, line: Seq<char>)
    requires
        xml_root_open(s),
        xml_step_ok(s, line),
    ensures
        xml_root_open(xml_step(s, line)),
{
    lemma_line_level_nonneg(s.cur_field, line);
    let r = read_line_into(s, line);
    let n = xml_close_count(r);
    if n > 0 {
        lemma_close_count_bound(r.xml_tag_stack.len() as int, r.cur_field.level);
        lemma_close_tags(r, n as nat);
        assert(add_xml_spec(r).xml_tag_stack[0] == r.xml_tag_stack[0]);
    }
}

/// A run of XML conversion steps keeps the root open.
pub proof fn lemma_xml_run_root(s: FlistState, ls: Seq<Seq<char>>)
    requires
        xml_root_open(s),
        run_lines_ok(
            s,
            ls,
            |t: FlistState, l: Seq<char>| xml_step(t, l),
            |t: FlistState, l: Seq<char>| xml_step_ok(t, l),
        ),
    ensures
        xml_root_open(run_lines(s, ls, |t: FlistState, l: Seq<char>| xml_step(t, l))),
    decreases ls.len(),
{
    if ls.len() > 0 {
        lemma_xml_run_root(s, ls.drop_last());
        lemma_xml_step_root(
            run_lines(s, ls.drop_last(), |t: FlistState, l: Seq<char>| xml_step(t, l)),
            ls.last(),
        );
    }
}

/// The XML indentation is one tab per open element.
pub open spec fn xml_tabs_match(s: FlistState) -> bool {
    s.tab == tabs(s.xml_tag_stack.len())
}

/// `b` extends the XML of `a` and leaves its C code as it was.
pub open spec fn xml_only_grows(a: FlistState, b: FlistState) -> bool {
    &&& a.xml_code.len() <= b.xml_code.len()
    &&& b.xml_code.take(a.xml_code.len() as int) == a.xml_code
    &&& b.code == a.code
    &&& b.vars == a.vars
    &&& b.c_code == a.c_code
}

/// Closing elements keeps the indentation at one tab per open element and
/// only extends the XML.
pub proof fn lemma_close_tags_tabs(s: FlistState, k: nat)
    requires
        k <= s.xml_tag_stack.len(),
        xml_tabs_match(s),
    ensures
        xml_tabs_match(close_tags(s, k)),
        xml_only_grows(s, close_tags(s, k)),
    decreases k,
{
    lemma_close_tags(s, k);
    assert(s.xml_code.take(s.xml_code.len() as int) =~= s.xml_code);
    if k > 0 {
        lemma_close_tags_tabs(s, (k - 1) as nat);
        let p = close_tags(s, (k - 1) as nat);
        lemma_close_tags(s, (k - 1) as nat);
        let n = p.xml_tag_stack.len();
        assert(n >= 1);
        assert(tabs(n) == tabs((n - 1) as nat).push('\t'));
        assert(pop_tab(p.tab) =~= tabs((n - 1) as nat));
        let q = close_tag(p);
        assert(q.xml_code.take(p.xml_code.len() as int) =~= p.xml_code);
        assert(q.xml_code.take(s.xml_code.len() as int) =~= s.xml_code);
    }
}

/// Emitting the XML of one field keeps the root at the bottom of the element
/// stack and the indentation at one tab per open element, only extends the
/// XML, and leaves the C code as it was.
pub proof fn law_add_xml_element_tabs(s: FlistState)
    requires
        s.xml_tag_stack.len() >= 1,
        xml_tabs_match(s),
        s.cur_field.level >= 0,
        add_xml_ok(s),
    ensures
        add_xml_spec(s).xml_tag_stack.len() >= 1,
        add_xml_spec(s).xml_tag_stack[0] == s.xml_tag_stack[0],
        xml_tabs_match(add_xml_spec(s)),
        xml_only_grows(s, add_xml_spec(s)),
{
    let r = add_xml_spec(s);
    let f = s.cur_field;
    let t = f.ftype;
    if t == "ARRAY"@ || t == "SUBSTRUCT"@ {
        let n = xml_close_count(s);
        if n > 0 {
            lemma_close_count_bound(s.xml_tag_stack.len() as int, f.level);
            lemma_close_tags(s, n as nat);
            lemma_close_tags_tabs(s, n as nat);
        }
        let s1 = if n > 0 {
            close_tags(s, n as nat)
        } else {
            s
        };
        reveal_strlit("\t");
        assert(r.tab =~= tabs(s1.xml_tag_stack.len() + 1));
        assert(r.xml_tag_stack[0] == s1.xml_tag_stack[0]);
        assert(r.xml_code.take(s1.xml_code.len() as int) =~= s1.xml_code);
        assert(r.xml_code.take(s.xml_code.len() as int) =~= s.xml_code);
    } else {
        assert(r.xml_code.take(s.xml_code.len() as int) =~= s.xml_code);
    }
}

/// One line of XML conversion keeps the indentation at one tab per open
/// element.
pub proof fn lemma_xml_step_tabs(s: FlistState, line: Seq<char>)
    requires
        xml_root_open(s),
        xml_tabs_match(s),
        xml_step_ok(s, line),
    ensures
        xml_tabs_match(xml_step(s, line)),
        xml_only_grows(s, xml_step(s, line)),
{
    lemma_line_level_nonneg(s.cur_field, line);
    law_add_xml_element_tabs(read_line_into(s, line));
}

/// A run of XML conversion steps keeps the indentation at one tab per open
/// element.
pub proof fn lemma_xml_run_tabs(s: FlistState, ls: Seq<Seq<char>>)
    requires
        xml_root_open(s),
        xml_tabs_match(s),
        run_lines_ok(
            s,
            ls,
            |t: FlistState, l: Seq<char>| xml_step(t, l),
            |t: FlistState, l: Seq<char>| xml_step_ok(t, l),
        ),
    ensures
        xml_tabs_match(run_lines(s, ls, |t: FlistState, l: Seq<char>| xml_step(t, l))),
    decreases ls.len(),
{
    if ls.len() > 0 {
        lemma_xml_run_tabs(s, ls.drop_last());
        lemma_xml_run_root(s, ls.drop_last());
        lemma_xml_step_tabs(
            run_lines(s, ls.drop_last(), |t: FlistState, l: Seq<char>| xml_step(t, l)),
            ls.last(),
        );
    }
}

/// Throughout an XML conversion the indentation is one tab per open
/// element: after the last line, and, once every element but the root is
/// closed, one tab.
pub proof fn law_xml_tabs(text: Seq<char>)
    requires
        xml_ok(initial_state(), text),
    ensures
        xml_tabs_match(
            run_lines(
                xml_start(initial_state()),
                crate::text::lines(text),
                |t: FlistState, l: Seq<char>| xml_step(t, l),
            ),
        ),
        xml_tabs_match(xml_spec(initial_state(), text)),
{
    let s0 = xml_start(initial_state());
    reveal_strlit("\t");
    assert(s0.xml_tag_stack =~= seq!["FLIST"@]);
    assert(tabs(0) == Seq::<char>::empty());
    assert(tabs(1) == Seq::<char>::empty().push('\t'));
    assert(s0.tab =~= tabs(1));
    lemma_xml_run_tabs(s0, crate::text::lines(text));
    lemma_xml_run_root(s0, crate::text::lines(text));
    let e = run_lines(s0, crate::text::lines(text), |t: FlistState, l: Seq<char>| xml_step(t, l));
    let n = e.xml_tag_stack.len();
    if n > 1 {
        lemma_close_tags_tabs(e, (n - 1) as nat);
    }
}

/// Converting an FLIST dump to XML closes every element it opens but the
/// root, which the final `</flist>` closes: the element stack ends as just
/// the root.
pub proof fn law_xml_elements_closed(text: Seq<char>)
    requires
        xml_ok(initial_state(), text),
    ensures
        xml_spec(initial_state(), text).xml_tag_stack == seq!["FLIST"@],
{
    let s0 = xml_start(initial_state());
    assert(s0.xml_tag_stack =~= seq!["FLIST"@]);
    let step = |t: FlistState, l: Seq<char>| xml_step(t, l);
    lemma_xml_run_root(s0, crate::text::lines(text));
    let r = run_lines(s0, crate::text::lines(text), step);
    let n = r.xml_tag_stack.len();
    if n > 1 {
        lemma_close_tags(r, (n - 1) as nat);
    }
    assert(xml_finish(r).xml_tag_stack =~= seq!["FLIST"@]);
}

/// The top-level fields of a class being read match its list of top-level
/// names one for one, the names are distinct, and the field count is the
/// number of fields (one less before a class line came).
pub open spec fn class_fields_consistent(m: ClassModel) -> bool {
    &&& m.fields.len() == m.lvl0.len()
    &&& m.no_of_fields == m.fields.len() || m.no_of_fields == m.fields.len() - 1
    &&& forall|i: int| 0 <= i < m.fields.len() ==> #[trigger] m.fields[i].field.name == m.lvl0[i]
    &&& forall|i: int, j: int| 0 <= i < j < m.lvl0.len() ==> m.lvl0[i] != m.lvl0[j]
}

/// `r` has the top-level fields, names and count of `m`, whatever is
/// nested in them.
pub open spec fn same_top_level(m: ClassModel, r: ClassModel) -> bool {
    &&& r.lvl0 == m.lvl0
    &&& r.no_of_fields == m.no_of_fields
    &&& r.fields.len() == m.fields.len()
    &&& forall|i: int| 0 <= i < m.fields.len() ==> #[trigger] r.fields[i].field == m.fields[i].field
}

/// A top-level field found by name lies within the fields.
pub proof fn lemma_tree_index_bounds(ts: Seq<FieldLevel1>, name: Seq<char>, i: int)
    requires
        0 <= i,
    ensures
        tree_index_from(ts, name, i) matches Some(k) ==> i <= k < ts.len(),
    decreases ts.len() - i,
{
    if i < ts.len() {
        lemma_tree_index_bounds(ts, name, i + 1);
    }
}

/// A first-level field found by name lies within the fields.
pub proof fn lemma_kid_index_bounds(ks: Seq<FieldLevel2>, name: Seq<char>, i: int)
    requires
        0 <= i,
    ensures
        kid_index_from(ks, name, i) matches Some(k) ==> i <= k < ks.len(),
    decreases ks.len() - i,
{
    if i < ks.len() {
        lemma_kid_index_bounds(ks, name, i + 1);
    }
}

/// A pair of fields found by name lies within the fields.
pub proof fn lemma_tree_pair_bounds(ts: Seq<FieldLevel1>, at0: Seq<char>, at1: Seq<char>, i: int)
    requires
        0 <= i,
    ensures
        tree_pair_from(ts, at0, at1, i) matches Some(p) ==> i <= p.0 < ts.len() && 0 <= p.1
            < ts[p.0].nested.len(),
    decreases ts.len() - i,
{
    if i < ts.len() {
        lemma_kid_index_bounds(ts[i].nested, at1, 0);
        lemma_tree_pair_bounds(ts, at0, at1, i + 1);
    }
}

/// Adding a first-level nested field keeps the top level.
pub proof fn lemma_add_nested1_top(m: ClassModel, at0: Seq<char>, name: Seq<char>, f: FieldPODLView)
    ensures
        same_top_level(m, add_nested1(m, at0, name, f)),
{
    lemma_tree_index_bounds(m.fields, at0, 0);
    let r = add_nested1(m, at0, name, f);
    assert forall|i: int| 0 <= i < m.fields.len() implies #[trigger] r.fields[i].field
        == m.fields[i].field by {}
}

/// Adding a second-level nested field keeps the top level.
pub proof fn lemma_add_nested2_top(
    m: ClassModel,
    at0: Seq<char>,
    at1: Seq<char>,
    name: Seq<char>,
    f: FieldPODLView,
)
    ensures
        same_top_level(m, add_nested2(m, at0, at1, name, f)),
{
    lemma_tree_pair_bounds(m.fields, at0, at1, 0);
    let r = add_nested2(m, at0, at1, name, f);
    assert forall|i: int| 0 <= i < m.fields.len() implies #[trigger] r.fields[i].field
        == m.fields[i].field by {}
}

/// Reading one line keeps a class consistent.
pub proof fn lemma_class_step_consistent(t: Seq<FieldView>, m: ClassModel, line: Seq<char>)
    requires
        class_fields_consistent(m),
    ensures
        class_fields_consistent(class_line_step(t, m, line)),
{
    let r = class_line_step(t, m, line);
    if r.lvl0.len() == m.lvl0.len() + 1 {
        assert forall|i: int, j: int| 0 <= i < j < r.lvl0.len() implies r.lvl0[i] != r.lvl0[j] by {
            if j == m.lvl0.len() {
                assert(r.lvl0[i] == m.lvl0[i]);
            }
        }
        assert forall|i: int| 0 <= i < r.fields.len() implies #[trigger] r.fields[i].field.name
            == r.lvl0[i] by {
            if i < m.fields.len() {
                assert(r.fields[i] == m.fields[i]);
            }
        }
    } else {
        let parts = split(line, seq!['|']);
        if !(all_ws(line) || parts.len() < 2) && first_char(line) != '/' {
            let second = split(parts[1], "->"@);
            let name = trim(parts[0]);
            let f = field_podl_spec(t, parts[0], second);
            let depth = leading_tabs(line);
            if depth == 2 {
                lemma_add_nested1_top(ClassModel { cur1: name, ..m }, m.cur0, name, f);
            } else if depth == 3 {
                lemma_add_nested2_top(m, m.cur0, m.cur1, name, f);
            }
            if depth == 2 || depth == 3 {
                assert forall|i: int| 0 <= i < r.fields.len() implies #[trigger] r.fields[i].field.name
                    == r.lvl0[i] by {
                    assert(r.fields[i].field == m.fields[i].field);
                }
            }
        }
    }
}

/// A class specification read so far is consistent.
pub proof fn lemma_class_run_consistent(t: Seq<FieldView>, s: ClassModel, ls: Seq<Seq<char>>)
    requires
        class_fields_consistent(s),
    ensures
        class_fields_consistent(
            run_lines(s, ls, |m: ClassModel, l: Seq<char>| class_line_step(t, m, l)),
        ),
    decreases ls.len(),
{
    if ls.len() > 0 {
        lemma_class_run_consistent(t, s, ls.drop_last());
        lemma_class_step_consistent(
            t,
            run_lines(s, ls.drop_last(), |m: ClassModel, l: Seq<char>| class_line_step(t, m, l)),
            ls.last(),
        );
    }
}

/// The PODL of a class specification has one field block per top-level
/// field name, in order of first appearance, with no name twice; the field
/// count is the number of blocks (one less where no class line came).
pub proof fn law_class_fields_distinct(t: Seq<FieldView>, data: Seq<char>)
    ensures
        class_fields_consistent(class_run(t, data)),
{
    lemma_class_run_consistent(t, class_start(), crate::podl::class_lines(data));
}

/// In a class specification four spaces mean the same as a tab: writing
/// them as tabs first changes neither what is read nor whether reading
/// fails.
pub proof fn law_class_spaces_as_tab(t: Seq<FieldView>, data: Seq<char>)
    ensures
        class_run(t, crate::text::replace(data, "    "@, "\t"@)) == class_run(t, data),
        class_run_ok(crate::text::replace(data, "    "@, "\t"@)) == class_run_ok(data),
{
    reveal_strlit("    ");
    reveal_strlit("\t");
    let p = "    "@;
    let q = "\t"@;
    assert(!p.contains(q[0])) by {
        if p.contains(q[0]) {
            let k = choose|k: int| 0 <= k < p.len() && p[k] == q[0];
            assert(p[k] == ' ');
        }
    }
    crate::text::lemma_replace_twice(data, p, q);
}

/// Indenting a class specification by four spaces means the same as
/// indenting it by a tab: for every field table, `convert_class_spec_to_podl`
/// gives the same answer for the data and for the data with each run of four
/// spaces made a tab, and it accepts both or neither.
pub proof fn law_class_conversion_spaces_as_tab(t: Seq<FieldView>, data: Seq<char>)
    ensures
        class_conversion(t, crate::text::replace(data, "    "@, "\t"@)) == class_conversion(
            t,
            data,
        ),
        class_podl(class_run(t, crate::text::replace(data, "    "@, "\t"@))) == class_podl(
            class_run(t, data),
        ),
        class_run_ok(crate::text::replace(data, "    "@, "\t"@)) == class_run_ok(data),
{
    law_class_spaces_as_tab(t, data);
}

/// Whichever way a class was made (`ClassPODL::new` counts from -1,
/// `ClassPODL::new_value` from 0), after any run of `add_0th_lvl_field`,
/// `add_1st_lvl_field` and `add_2nd_lvl_field` calls each top-level field
/// has its name recorded and the count is the number of top-level fields
/// plus the starting count. `cs` is the class before the first call and
/// after each call.
pub proof fn law_class_counts_over_adds(cs: Seq<ClassPODL>, base: int)
    requires
        cs.len() > 0,
        class_fresh(cs[0], base),
        forall|i: int, j: int|
            0 <= i && j == i + 1 && j < cs.len() ==> #[trigger] counted_step(cs[i], cs[j]),
    ensures
        class_counts(cs.last(), base),
    decreases cs.len(),
{
    if cs.len() > 1 {
        let p = cs.drop_last();
        assert forall|i: int, j: int| 0 <= i && j == i + 1 && j < p.len() implies #[trigger] counted_step(
            p[i],
            p[j],
        ) by {
            assert(counted_step(cs[i], cs[j]));
        }
        law_class_counts_over_adds(p, base);
        assert(counted_step(cs[cs.len() - 2], cs[cs.len() - 1]));
    }
}

/// The first open flist is `name`, and the current level is not negative.
pub open spec fn top_flist_open(s: FlistState, name: Seq<char>) -> bool {
    &&& s.flname_list.len() >= 1
    &&& s.flname_list[0] == name
    &&& s.cur_field.level >= 0
}

/// Going back to a level that is not negative keeps the first open flist.
pub proof fn lemma_unwind_keeps_top(s: FlistState, lvl: i8, name: Seq<char>)
    requires
        top_flist_open(s, name),
        lvl >= 0,
    ensures
        top_flist_open(unwind(s, lvl), name),
{
    lemma_close_count_bound(s.flname_list.len() as int, lvl);
}

/// One line of C conversion keeps the first open flist.
pub proof fn lemma_code_step_top(s: FlistState, line: Seq<char>, name: Seq<char>)
    requires
        top_flist_open(s, name),
        code_step_ok(s, line),
    ensures
        top_flist_open(code_step(s, line), name),
{
    lemma_line_level_nonneg(s.cur_field, line);
    let r = read_line_into(s, line);
    let f = r.cur_field;
    let lvl = f.level;
    assert(top_flist_open(r, name));
    if r.cur_level >= lvl {
        lemma_unwind_keeps_top(r, lvl, name);
    }
    let p = code_prepare(r);
    assert(top_flist_open(p.0, name));
    if p.0.cur_level > p.0.cur_field.level {
        lemma_unwind_keeps_top(p.0, p.0.cur_field.level, name);
    }
}

/// A run of C conversion steps keeps the first open flist.
pub proof fn lemma_code_run_top(s: FlistState, ls: Seq<Seq<char>>, name: Seq<char>)
    requires
        top_flist_open(s, name),
        run_lines_ok(
            s,
            ls,
            |t: FlistState, l: Seq<char>| code_step(t, l),
            |t: FlistState, l: Seq<char>| code_step_ok(t, l),
        ),
    ensures
        top_flist_open(run_lines(s, ls, |t: FlistState, l: Seq<char>| code_step(t, l)), name),
    decreases ls.len(),
{
    if ls.len() > 0 {
        lemma_code_run_top(s, ls.drop_last(), name);
        lemma_code_step_top(
            run_lines(s, ls.drop_last(), |t: FlistState, l: Seq<char>| code_step(t, l)),
            ls.last(),
            name,
        );
    }
}

/// Converting an FLIST dump to C code never closes the flist that the
/// conversion builds: it stays the first open flist throughout.
pub proof fn law_top_flist_stays_open(text: Seq<char>, name: Seq<char>)
    requires
        ccode_ok(initial_state(), text, name),
    ensures
        ccode_spec(initial_state(), text, name).flname_list[0] == name,
        ccode_spec(initial_state(), text, name).flname_list.len() >= 1,
{
    let s0 = code_start(initial_state(), name);
    assert(s0.flname_list =~= seq![name]);
    lemma_code_run_top(s0, crate::text::lines(text), name);
}


/// Adding a name that a list does not hold keeps its names distinct.
pub proof fn lemma_push_fresh(l: Seq<Seq<char>>, x: Seq<char>)
    requires
        l.no_duplicates(),
        !l.contains(x),
    ensures
        l.push(x).no_duplicates(),
{
    let m = l.push(x);
    assert forall|i: int, j: int| 0 <= i < m.len() && 0 <= j < m.len() && i != j implies m[i]
        != m[j] by {
        if i < l.len() && j < l.len() {
            assert(m[i] == l[i] && m[j] == l[j]);
        } else if i < l.len() {
            assert(m[i] == l[i]);
        } else if j < l.len() {
            assert(m[j] == l[j]);
        }
    }
}

/// One line of C conversion keeps each flist variable recorded once.
pub proof fn lemma_code_step_flists_once(s: FlistState, line: Seq<char>)
    requires
        s.flname_with_level_list.no_duplicates(),
    ensures
        code_step(s, line).flname_with_level_list.no_duplicates(),
{
    let r = read_line_into(s, line);
    let f = r.cur_field;
    let t = f.ftype;
    if t == "ARRAY"@ || t == "SUBSTRUCT"@ {
        let vname = var_name(f.name, t);
        let base = if r.cur_level >= f.level {
            let u = unwind(r, f.level);
            FlistState { code: u.code + "\n"@, ..u }
        } else {
            r
        };
        let n = flist_level_name(vname, f.level);
        if !base.flname_with_level_list.contains(n) {
            lemma_push_fresh(base.flname_with_level_list, n);
        }
    }
}

/// A run of C conversion steps keeps each flist variable recorded once.
pub proof fn lemma_code_run_flists_once(s: FlistState, ls: Seq<Seq<char>>)
    requires
        s.flname_with_level_list.no_duplicates(),
    ensures
        run_lines(s, ls, |t: FlistState, l: Seq<char>| code_step(t, l)).flname_with_level_list.no_duplicates(),
    decreases ls.len(),
{
    if ls.len() > 0 {
        lemma_code_run_flists_once(s, ls.drop_last());
        lemma_code_step_flists_once(
            run_lines(s, ls.drop_last(), |t: FlistState, l: Seq<char>| code_step(t, l)),
            ls.last(),
        );
    }
}

/// Converting an FLIST dump to C code declares each flist variable once: the
/// flist variables it records (the top one and one per array or substruct
/// name and level) hold no name twice.
pub proof fn law_flist_vars_declared_once(text: Seq<char>, name: Seq<char>)
    ensures
        ccode_spec(initial_state(), text, name).flname_with_level_list.no_duplicates(),
{
    let s0 = code_start(initial_state(), name);
    assert(s0.flname_with_level_list =~= seq![name + "-0"@]);
    lemma_code_run_flists_once(s0, crate::text::lines(text));
}

/// The open calls after `k` trace entries are entries of the trace, in the
/// order they came, each under its own operation's name; the pairs found so
/// far go from an entry to a later exit of the same operation.
pub open spec fn pairing_sound(ev: Seq<(bool, Seq<char>)>, k: int) -> bool {
    let (stack, pairs) = pair_state(ev, k);
    &&& forall|a: int|
        0 <= a < stack.len() ==> {
            &&& 0 <= #[trigger] stack[a].1 < k
            &&& ev[stack[a].1].0
            &&& ev[stack[a].1].1 == stack[a].0
        }
    &&& forall|a: int, b: int| 0 <= a < b < stack.len() ==> stack[a].1 < stack[b].1
    &&& forall|p: int|
        0 <= p < pairs.len() ==> {
            let (x, y) = #[trigger] pairs[p];
            &&& 0 <= x < y < k
            &&& ev[x].0
            &&& !ev[y].0
            &&& ev[x].1 == ev[y].1
        }
    &&& forall|p: int, q: int|
        0 <= p < q < pairs.len() ==> #[trigger] pairs[p].1 < #[trigger] pairs[q].1
    &&& forall|p: int, q: int|
        0 <= p < q < pairs.len() ==> #[trigger] pairs[p].0 != #[trigger] pairs[q].0
    &&& forall|a: int, p: int|
        0 <= a < stack.len() && 0 <= p < pairs.len() ==> #[trigger] stack[a].1
            != #[trigger] pairs[p].0
}

/// After any number of trace entries the pairing is sound (see
/// `pairing_sound`).
pub proof fn lemma_pairing_sound(ev: Seq<(bool, Seq<char>)>, k: int)
    requires
        0 <= k <= ev.len(),
    ensures
        pairing_sound(ev, k),
    decreases k,
{
    if k > 0 {
        lemma_pairing_sound(ev, k - 1);
        let (stack, pairs) = pair_state(ev, k - 1);
        let (stack2, pairs2) = pair_state(ev, k);
        let e = ev[k - 1];
        if e.0 {
            assert(stack2 == stack.push((e.1, k - 1)));
            assert forall|a: int, b: int| 0 <= a < b < stack2.len() implies stack2[a].1
                < stack2[b].1 by {
                if b < stack.len() {
                    assert(stack2[a] == stack[a] && stack2[b] == stack[b]);
                } else {
                    assert(stack2[a] == stack[a]);
                    assert(0 <= stack[a].1 < k - 1);
                }
            }
            assert forall|a: int| 0 <= a < stack2.len() implies {
                &&& 0 <= #[trigger] stack2[a].1 < k
                &&& ev[stack2[a].1].0
                &&& ev[stack2[a].1].1 == stack2[a].0
            } by {
                if a < stack.len() {
                    assert(stack2[a] == stack[a]);
                }
            }
            assert forall|a: int, p: int|
                0 <= a < stack2.len() && 0 <= p < pairs2.len() implies #[trigger] stack2[a].1
                != #[trigger] pairs2[p].0 by {
                if a < stack.len() {
                    assert(stack2[a] == stack[a]);
                } else {
                    assert(pairs2[p] == pairs[p]);
                    assert(pairs[p].0 < pairs[p].1 < k - 1);
                }
            }
        } else if stack.len() > 0 {
            let top = stack.last();
            assert(0 <= top.1 < k - 1);
            assert(stack2 == stack.drop_last());
            assert forall|a: int| 0 <= a < stack2.len() implies {
                &&& 0 <= #[trigger] stack2[a].1 < k
                &&& ev[stack2[a].1].0
                &&& ev[stack2[a].1].1 == stack2[a].0
            } by {
                assert(stack2[a] == stack[a]);
            }
            assert forall|a: int, b: int| 0 <= a < b < stack2.len() implies stack2[a].1
                < stack2[b].1 by {
                assert(stack2[a] == stack[a] && stack2[b] == stack[b]);
            }
            if top.0 == e.1 {
                assert(pairs2 == pairs.push((top.1, k - 1)));
                assert forall|p: int| 0 <= p < pairs2.len() implies {
                    let (x, y) = #[trigger] pairs2[p];
                    &&& 0 <= x < y < k
                    &&& ev[x].0
                    &&& !ev[y].0
                    &&& ev[x].1 == ev[y].1
                } by {
                    if p < pairs.len() {
                        assert(pairs2[p] == pairs[p]);
                    }
                }
                assert forall|p: int, q: int| 0 <= p < q < pairs2.len() implies #[trigger] pairs2[p].1
                    < #[trigger] pairs2[q].1 by {
                    assert(pairs2[p] == pairs[p]);
                    if q < pairs.len() {
                        assert(pairs2[q] == pairs[q]);
                    }
                }
                assert forall|p: int, q: int| 0 <= p < q < pairs2.len() implies #[trigger] pairs2[p].0
                    != #[trigger] pairs2[q].0 by {
                    assert(pairs2[p] == pairs[p]);
                    if q < pairs.len() {
                        assert(pairs2[q] == pairs[q]);
                    } else {
                        assert(stack[stack.len() - 1].1 != pairs[p].0);
                    }
                }
                assert forall|a: int, p: int|
                    0 <= a < stack2.len() && 0 <= p < pairs2.len() implies #[trigger] stack2[a].1
                    != #[trigger] pairs2[p].0 by {
                    assert(stack2[a] == stack[a]);
                    if p < pairs.len() {
                        assert(pairs2[p] == pairs[p]);
                    } else {
                        assert(stack[a].1 < stack[stack.len() - 1].1);
                    }
                }
            } else {
                assert forall|a: int, p: int|
                    0 <= a < stack2.len() && 0 <= p < pairs2.len() implies #[trigger] stack2[a].1
                    != #[trigger] pairs2[p].0 by {
                    assert(stack2[a] == stack[a]);
                }
            }
        }
    }
}

/// Each duration the call stack analysis measures runs from an `Enter` line
/// to a later exit line (one that is not an `Enter`) of the same operation;
/// the measured calls come in the order of their exits, and no two of them
/// share an entry line.
pub proof fn law_pairs_enter_before_exit(ev: Seq<(bool, Seq<char>)>)
    ensures
        forall|p: int|
            0 <= p < call_pairs(ev).len() ==> {
                let (x, y) = #[trigger] call_pairs(ev)[p];
                &&& 0 <= x < y < ev.len()
                &&& ev[x].0
                &&& !ev[y].0
                &&& ev[x].1 == ev[y].1
            },
        forall|p: int, q: int|
            0 <= p < q < call_pairs(ev).len() ==> #[trigger] call_pairs(ev)[p].1
                < #[trigger] call_pairs(ev)[q].1,
        forall|p: int, q: int|
            0 <= p < q < call_pairs(ev).len() ==> #[trigger] call_pairs(ev)[p].0
                != #[trigger] call_pairs(ev)[q].0,
{
    lemma_pairing_sound(ev, ev.len() as int);
}

/// The call trees `ts` lie between positions `lo` and `hi` of a trace: each
/// node is an `Enter` line; its exit, where it has one, is a later exit line
/// (one that is not an `Enter`) of the same operation; and its children lie
/// after its entry and before its exit (before `hi` where it has none).
pub open spec fn trees_sound(ev: Seq<(bool, Seq<char>)>, ts: Seq<CallTreeSpec>, lo: int, hi: int) -> bool
    decreases ts,
{
    forall|k: int|
        0 <= k < ts.len() ==> {
            &&& lo <= #[trigger] ts[k].enter < hi
            &&& ev[ts[k].enter].0
            &&& (ts[k].exit matches Some(x) ==> ts[k].enter < x < hi && !ev[x].0 && ev[x].1
                == ev[ts[k].enter].1)
            &&& trees_sound(
                ev,
                ts[k].children,
                ts[k].enter + 1,
                match ts[k].exit {
                    Some(x) => x,
                    None => hi,
                },
            )
        }
}

/// Soundness holds in any wider window.
pub proof fn lemma_trees_sound_widen(
    ev: Seq<(bool, Seq<char>)>,
    ts: Seq<CallTreeSpec>,
    lo: int,
    hi: int,
    lo2: int,
    hi2: int,
)
    requires
        trees_sound(ev, ts, lo, hi),
        lo2 <= lo,
        hi <= hi2,
    ensures
        trees_sound(ev, ts, lo2, hi2),
    decreases ts,
{
    assert forall|k: int| 0 <= k < ts.len() implies {
        &&& lo2 <= #[trigger] ts[k].enter < hi2
        &&& ev[ts[k].enter].0
        &&& (ts[k].exit matches Some(x) ==> ts[k].enter < x < hi2 && !ev[x].0 && ev[x].1
            == ev[ts[k].enter].1)
        &&& trees_sound(
            ev,
            ts[k].children,
            ts[k].enter + 1,
            match ts[k].exit {
                Some(x) => x,
                None => hi2,
            },
        )
    } by {
        assert(lo <= ts[k].enter < hi);
        if ts[k].exit is None {
            lemma_trees_sound_widen(ev, ts[k].children, ts[k].enter + 1, hi, ts[k].enter + 1, hi2);
        }
    }
}

/// The trees from position `i` of a trace are sound between `i` and the
/// position after them.
pub proof fn lemma_trees_from_sound(ev: Seq<(bool, Seq<char>)>, i: int)
    requires
        0 <= i <= ev.len(),
    ensures
        trees_sound(ev, trees_from(ev, i).0, i, trees_from(ev, i).1),
    decreases ev.len() - i,
{
    if i < ev.len() && ev[i].0 {
        lemma_trees_end(ev, i + 1);
        lemma_trees_from_sound(ev, i + 1);
        let (children, j) = trees_from(ev, i + 1);
        let (exit, k) = if 0 <= j < ev.len() && !ev[j].0 && ev[j].1 == ev[i].1 {
            (Some(j), j + 1)
        } else {
            (None, j)
        };
        lemma_trees_end(ev, k);
        lemma_trees_from_sound(ev, k);
        let (rest, e) = trees_from(ev, k);
        let node = CallTreeSpec { enter: i, exit: exit, children: children };
        let ts = trees_from(ev, i).0;
        assert(ts == seq![node] + rest);
        assert(trees_from(ev, i).1 == e);
        if exit is None {
            lemma_trees_sound_widen(ev, children, i + 1, j, i + 1, e);
        }
        lemma_trees_sound_widen(ev, rest, k, e, i, e);
        assert forall|m: int| 0 <= m < ts.len() implies {
            &&& i <= #[trigger] ts[m].enter < e
            &&& ev[ts[m].enter].0
            &&& (ts[m].exit matches Some(x) ==> ts[m].enter < x < e && !ev[x].0 && ev[x].1
                == ev[ts[m].enter].1)
            &&& trees_sound(
                ev,
                ts[m].children,
                ts[m].enter + 1,
                match ts[m].exit {
                    Some(x) => x,
                    None => e,
                },
            )
        } by {
            if m == 0 {
                assert(ts[m] == node);
            } else {
                assert(ts[m] == rest[m - 1]);
            }
        }
    }
}

/// The call tree of a trace is sound: every node is an `Enter` line; its
/// exit, where it has one, is a later exit line of the same operation; and
/// the calls made inside it lie after its entry and before its exit.
pub proof fn law_call_tree_sound(ev: Seq<(bool, Seq<char>)>)
    ensures
        trees_sound(ev, trees_from(ev, 0).0, 0, ev.len() as int),
{
    lemma_trees_end(ev, 0);
    lemma_trees_from_sound(ev, 0);
    lemma_trees_sound_widen(ev, trees_from(ev, 0).0, 0, trees_from(ev, 0).1, 0, ev.len() as int);
}

} // verus!
