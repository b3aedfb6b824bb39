//! Properties of what the conversions read and write, stated for every
//! input: the FLIST and trace line grammars, the cleaned field values, the
//! C declarations and statements of each field and the shape of the C text,
//! the XML elements and their nesting, the PODL of types, flags and field
//! specifications, the class specification lines, which archive entry is
//! taken as a trace, and the replies of the service.
use vstd::prelude::*;

use crate::calltree::{
    ascii_decimal, trace_from, trace_parts, TraceFailure, TraceLineView, TraceParts,
};
use crate::fields::{field_type_of, FieldView};
use crate::flist::{
    add_code_spec, add_plain, add_xml_spec, bump_last_digit, ccode_spec, code_run, code_start,
    code_step, flist_level_name, plain_name, unwind, var_name, FlistState,
};
use crate::lfield::{
    clean_value, digits_group, digits_start_from, in_class, is_nd, last_index_of,
    lemma_last_index_of, line_parts, no_break_from, run_end, CharClass, LFieldView, LineParts,
};
use crate::number::{
    all_digits, digit_char, digits_value, int_str, nat_str, parse_i32, parse_int,
};
use crate::podl::{
    add_nested1, add_nested2, class_line_step, count_char, create_flag_of, create_text,
    field_block_at, field_podl_spec, first_char, fld_spec_block, leading_tabs, modify_flag_of,
    modify_text, podl_type, tabs, ClassModel, FieldLevel1, FieldPODLView,
};
use crate::service::{
    blank, call_stack_failure_spec, invalid_lines_from, level_named, request_refusal,
    CallStackStage, HttpStatus, LogLevel,
};
use crate::text::{
    all_ws, contains, find_from, has_prefix, has_suffix, is_ws, join, lemma_find_from, occurs_at,
    replace, split, split_from, trim,
};
use crate::tracezip::{
    callstack_in_entries, text_entry_from, trace_entry_from, trace_like_name, ZipEntryView,
};

verus! {

/// The state a field statement is written from: where the field is not as
/// deep as the current level, the deeper flists are closed first and the
/// statement goes to the flist of the field's level.
pub open spec fn statement_base(s: FlistState) -> FlistState {
    let lvl = s.cur_field.level;
    if s.cur_level > lvl {
        let u = unwind(s, lvl);
        FlistState { cur_flistp: u.flname_list.last(), ..u }
    } else {
        s
    }
}

/// `s` with the statement `mac(<flist>, <field>, value, ebufp);` appended to
/// its code, at its indentation.
pub open spec fn with_statement(s: FlistState, mac: Seq<char>, value: Seq<char>) -> FlistState {
    FlistState {
        code: s.code + s.tab + mac + "("@ + s.cur_flistp + ", "@ + s.cur_field.name + ", "@
            + value + ", ebufp);\n"@,
        ..s
    }
}

/// A POID field is set with its value as written where that value holds
/// `NULL`, and put as `PIN_POID_FROM_STR("<value>", NULL, ebufp)` only where
/// it does not; nothing else changes but the flists closed before it.
pub proof fn law_poid_statement(s: FlistState)
    requires
        s.cur_field.ftype == "POID"@,
    ensures
        contains(s.cur_field.value, "NULL"@) ==> add_code_spec(s) == with_statement(
            statement_base(s),
            "PIN_FLIST_FLD_SET"@,
            s.cur_field.value,
        ),
        !contains(s.cur_field.value, "NULL"@) ==> add_code_spec(s) == with_statement(
            statement_base(s),
            "PIN_FLIST_FLD_PUT"@,
            "PIN_POID_FROM_STR(\""@ + s.cur_field.value + "\", NULL, ebufp)"@,
        ),
{
    reveal_strlit("POID");
    reveal_strlit("ARRAY");
    reveal_strlit("SUBSTRUCT");
    reveal_strlit("TSTAMP");
    reveal_strlit("INT");
    reveal_strlit("ENUM");
    reveal_strlit("DECIMAL");
}

/// A timestamp, integer or enum field is declared as a variable and set by
/// its address; a decimal field is declared and put; a field of any other
/// plain type (a string, say) is set with its value as written.
pub proof fn law_plain_statement(s: FlistState)
    requires
        !has_prefix(s.cur_field.ftype, "ARRAY"@),
        !has_prefix(s.cur_field.ftype, "SUBSTRUCT"@),
        s.cur_field.ftype != "POID"@,
    ensures
        ({
            let f = s.cur_field;
            let t = f.ftype;
            let declared = add_plain(s, f.name, f.value, t, f.level);
            let var = plain_name(s, f.name, t, f.level);
            if t == "TSTAMP"@ || t == "INT"@ || t == "ENUM"@ {
                add_code_spec(s) == with_statement(
                    statement_base(declared),
                    "PIN_FLIST_FLD_SET"@,
                    "&"@ + var,
                )
            } else if t == "DECIMAL"@ {
                add_code_spec(s) == with_statement(
                    statement_base(declared),
                    "PIN_FLIST_FLD_PUT"@,
                    var,
                )
            } else {
                add_code_spec(s) == with_statement(statement_base(s), "PIN_FLIST_FLD_SET"@, f.value)
            }
        }),
{
    reveal_strlit("POID");
    reveal_strlit("ARRAY");
    reveal_strlit("SUBSTRUCT");
    reveal_strlit("TSTAMP");
    reveal_strlit("INT");
    reveal_strlit("ENUM");
    reveal_strlit("DECIMAL");
    let t = s.cur_field.ftype;
    if t == "ARRAY"@ {
        assert(t.take(5) =~= "ARRAY"@);
    }
    if t == "SUBSTRUCT"@ {
        assert(t.take(9) =~= "SUBSTRUCT"@);
    }
}

/// An array line adds an element to the parent flist with
/// `PIN_FLIST_ELEM_ADD` (index `*` meaning any element), a substruct line
/// with `PIN_FLIST_SUBSTR_ADD`; either makes the new flist, named after the
/// field and its level, the current one at the field's level. The parent is
/// the current flist where the line goes deeper, and otherwise the flist
/// left open at the line's level.
#[verifier::rlimit(80)]
pub proof fn law_container_statement(s: FlistState)
    requires
        s.cur_field.ftype == "ARRAY"@ || s.cur_field.ftype == "SUBSTRUCT"@,
    ensures
        ({
            let f = s.cur_field;
            let r = add_code_spec(s);
            let idx = if f.arr_idx == "*"@ {
                "PIN_ELEMID_ANY"@
            } else {
                f.arr_idx
            };
            &&& r.cur_level == f.level
            &&& r.cur_flistp == flist_level_name(var_name(f.name, f.ftype), f.level)
            &&& s.cur_level < f.level ==> r.prev_flistp == s.cur_flistp
            &&& s.cur_level >= f.level ==> r.prev_flistp == unwind(s, f.level).prev_flistp
            &&& f.ftype == "ARRAY"@ ==> has_suffix(
                r.code,
                r.tab + r.cur_flistp + " = "@ + "PIN_FLIST_ELEM_ADD"@ + "("@ + r.prev_flistp + ", "@ + f.name
                    + ", "@ + idx + ", ebufp);\n"@,
            )
            &&& f.ftype == "SUBSTRUCT"@ ==> has_suffix(
                r.code,
                r.tab + r.cur_flistp + " = "@ + "PIN_FLIST_SUBSTR_ADD"@ + "("@ + r.prev_flistp + ", "@
                    + f.name + ", ebufp);\n"@,
            )
        }),
{
    reveal_strlit("ARRAY");
    reveal_strlit("SUBSTRUCT");
    reveal_strlit("TSTAMP");
    reveal_strlit("INT");
    reveal_strlit("ENUM");
    reveal_strlit("DECIMAL");
    let t = s.cur_field.ftype;
    let r = add_code_spec(s);
    if t == "ARRAY"@ {
        assert(t.take(5) =~= "ARRAY"@);
    } else {
        assert(t.take(9) =~= "SUBSTRUCT"@);
        assert(!has_prefix(t, "ARRAY"@)) by {
            assert(t[0] == 'S');
            assert("ARRAY"@[0] == 'A');
            if has_prefix(t, "ARRAY"@) {
                assert(t.take(5)[0] == t[0]);
            }
        }
    }
    let f = s.cur_field;
    let idx = if f.arr_idx == "*"@ {
        "PIN_ELEMID_ANY"@
    } else {
        f.arr_idx
    };
    if t == "ARRAY"@ {
        let tail = r.tab + r.cur_flistp + " = "@ + "PIN_FLIST_ELEM_ADD"@ + "("@ + r.prev_flistp + ", "@ + f.name
            + ", "@ + idx + ", ebufp);\n"@;
        let s1 = crate::flist::code_prepare(s).0;
        assert(r.code =~= s1.code + tail);
        assert(r.code.subrange(r.code.len() - tail.len(), r.code.len() as int) =~= tail);
    } else {
        let tail = r.tab + r.cur_flistp + " = "@ + "PIN_FLIST_SUBSTR_ADD"@ + "("@ + r.prev_flistp + ", "@
            + f.name + ", ebufp);\n"@;
        let s1 = crate::flist::code_prepare(s).0;
        assert(r.code =~= s1.code + tail);
        assert(r.code.subrange(r.code.len() - tail.len(), r.code.len() as int) =~= tail);
    }
}

/// A field that is neither an array nor a substruct is written as one XML
/// element named after the field, holding its value (a string value with
/// its quotes taken out), at the current indentation; nothing is opened or
/// closed.
pub proof fn law_xml_leaf(s: FlistState)
    requires
        s.cur_field.ftype != "ARRAY"@,
        s.cur_field.ftype != "SUBSTRUCT"@,
    ensures
        ({
            let f = s.cur_field;
            let v = if has_prefix(f.ftype, "STR"@) {
                replace(f.value, "\""@, Seq::empty())
            } else {
                f.value
            };
            add_xml_spec(s) == FlistState {
                xml_code: s.xml_code + s.tab + "<"@ + f.name + ">"@ + v + "</"@ + f.name + ">\n"@,
                ..s
            }
        }),
{
}

/// The declaration line a plain field adds to the variables, after the
/// C type: the tabs, a pointer mark, the variable's name and its initial
/// value.
pub open spec fn declared(s: FlistState, ctype: Seq<char>, tabs_: Seq<char>, ptr: Seq<char>, name: Seq<char>, value: Seq<char>) -> Seq<char> {
    s.vars + s.tab + ctype + tabs_ + ptr + name + " = "@ + value + ";\n"@
}

/// A plain field is declared by the first letter of its type: a timestamp
/// as a `time_t` holding the value without brackets and with an `L`; a
/// decimal as a `pin_decimal_t` pointer made by `pbo_decimal_from_str`; an
/// integer as an `int32`, an enum as a `u_int`, a string as `char` and a POID
/// as `poid_t`, each holding the value as written. The variable is the
/// field's name for its type and level, with its last digit raised where
/// that name is taken, and it is recorded as taken.
pub proof fn law_plain_declaration(s: FlistState, fname: Seq<char>, fvalue: Seq<char>, ftype: Seq<char>, lvl: i8)
    requires
        ftype.len() > 0,
    ensures
        ({
            let r = add_plain(s, fname, fvalue, ftype, lvl);
            let name = plain_name(s, fname, ftype, lvl);
            let c = ftype[0];
            &&& r.var_list == s.var_list.push(name)
            &&& c == 'T' ==> r.vars == declared(s, "time_t"@, "\t\t\t"@, Seq::empty(), name,
                replace(replace(fvalue, "("@, Seq::empty()), ")"@, Seq::empty()) + "L"@)
            &&& c == 'D' ==> r.vars == declared(s, "pin_decimal_t"@, "\t\t"@, "*"@, name,
                "pbo_decimal_from_str(\""@ + fvalue + "\", ebufp)"@)
            &&& c == 'I' ==> r.vars == declared(s, "int32"@, "\t\t\t"@, Seq::empty(), name, fvalue)
            &&& c == 'E' ==> r.vars == declared(s, "u_int"@, "\t\t\t"@, Seq::empty(), name, fvalue)
            &&& c == 'S' ==> r.vars == declared(s, "char"@, "\t\t"@, Seq::empty(), name, fvalue)
            &&& c == 'P' ==> r.vars == declared(s, "poid_t"@, "\t\t"@, Seq::empty(), name, fvalue)
        }),
        !s.var_list.contains(var_name(fname, ftype) + int_str(lvl as int)) ==> plain_name(
            s,
            fname,
            ftype,
            lvl,
        ) == var_name(fname, ftype) + int_str(lvl as int),
        s.var_list.contains(var_name(fname, ftype) + int_str(lvl as int)) ==> plain_name(
            s,
            fname,
            ftype,
            lvl,
        ) == bump_last_digit(var_name(fname, ftype) + int_str(lvl as int)),
{
    reveal_strlit("T");
    reveal_strlit("D");
    reveal_strlit("I");
    reveal_strlit("E");
    reveal_strlit("S");
    reveal_strlit("P");
    reveal_strlit("F");
    let fc = crate::flist::first_char_str(ftype);
    assert(fc =~= seq![ftype[0]]);
    assert("T"@ =~= seq!['T']);
    assert("D"@ =~= seq!['D']);
    assert("I"@ =~= seq!['I']);
    assert("E"@ =~= seq!['E']);
    assert("S"@ =~= seq!['S']);
    assert("P"@ =~= seq!['P']);
    assert("F"@ =~= seq!['F']);
    assert forall|x: char, y: char| x != y implies #[trigger] seq![x] != #[trigger] seq![y] by {
        assert(seq![x][0] == x);
        assert(seq![y][0] == y);
    }
}

/// The value a read FLIST line keeps: a string field is `NULL` where its
/// value is a null string pointer and is kept as written otherwise; a field
/// that is neither a string nor a timestamp is `NULL` where its value
/// mentions `NULL` and is kept as written otherwise.
pub proof fn law_clean_value(f: LFieldView)
    ensures
        f.ftype == "STR"@ && contains(f.value, "NULL str ptr"@) ==> clean_value(f) == "NULL"@,
        f.ftype == "STR"@ && !contains(f.value, "NULL str ptr"@) ==> clean_value(f) == f.value,
        f.ftype != "STR"@ && f.ftype != "TSTAMP"@ && contains(f.value, "NULL"@) ==> clean_value(f)
            == "NULL"@,
        f.ftype != "STR"@ && f.ftype != "TSTAMP"@ && !contains(f.value, "NULL"@) ==> clean_value(
            f,
        ) == f.value,
{
    reveal_strlit("STR");
    reveal_strlit("TSTAMP");
    assert("STR"@.len() != "TSTAMP"@.len());
}

/// The PODL type of a BRM data type: a `PIN_FLDT_` type is named by what
/// follows the prefix, except that strings are `STRING` and timestamps
/// `TIMESTAMP`; a type without the prefix is kept. Spaces around it do not
/// count.
pub proof fn law_podl_type_names(dt: Seq<char>)
    ensures
        trim(dt) == "PIN_FLDT_STR"@ ==> podl_type(dt) == "STRING"@,
        trim(dt) == "PIN_FLDT_TSTAMP"@ ==> podl_type(dt) == "TIMESTAMP"@,
        forall|u: Seq<char>|
            trim(dt) == "PIN_FLDT_"@ + u && u != "STR"@ && u != "TSTAMP"@ ==> podl_type(dt) == u,
        !has_prefix(trim(dt), "PIN_FLDT_"@) ==> podl_type(dt) == trim(dt),
{
    reveal_strlit("PIN_FLDT_");
    reveal_strlit("PIN_FLDT_STR");
    reveal_strlit("PIN_FLDT_TSTAMP");
    reveal_strlit("STR");
    reveal_strlit("TSTAMP");
    let t = trim(dt);
    if t == "PIN_FLDT_STR"@ {
        assert(t.take(9) =~= "PIN_FLDT_"@);
        assert(t.skip(9) =~= "STR"@);
    }
    if t == "PIN_FLDT_TSTAMP"@ {
        assert(t.take(9) =~= "PIN_FLDT_"@);
        assert(t.skip(9) =~= "TSTAMP"@);
    }
    assert forall|u: Seq<char>|
        t == "PIN_FLDT_"@ + u && u != "STR"@ && u != "TSTAMP"@ implies podl_type(dt) == u by {
        assert(t.take(9) =~= "PIN_FLDT_"@);
        assert(t.skip(9) =~= u);
    }
}

/// The PODL block of a field loaded as a timestamp declares it `TIMESTAMP`,
/// and that of a field loaded as a string declares it `STRING`: the block
/// opens with the indentation, that type, the field's name and `{`.
pub proof fn law_block_type_words(f: FieldPODLView, d: nat, inner: Seq<char>)
    ensures
        trim(f.data_type) == "PIN_FLDT_TSTAMP"@ ==> has_prefix(
            field_block_at(f, d, inner),
            tabs(d) + "TIMESTAMP "@ + f.name + " {\n"@,
        ),
        trim(f.data_type) == "PIN_FLDT_STR"@ ==> has_prefix(
            field_block_at(f, d, inner),
            tabs(d) + "STRING "@ + f.name + " {\n"@,
        ),
{
    lemma_block_head(f, d, inner);
    law_podl_type_names(f.data_type);
    reveal_strlit("TIMESTAMP ");
    reveal_strlit("TIMESTAMP");
    reveal_strlit("STRING ");
    reveal_strlit("STRING");
    reveal_strlit(" ");
    let head = tabs(d) + podl_type(f.data_type) + " "@ + f.name + " {\n"@;
    if trim(f.data_type) == "PIN_FLDT_TSTAMP"@ {
        assert(tabs(d) + "TIMESTAMP "@ + f.name + " {\n"@ =~= head);
    }
    if trim(f.data_type) == "PIN_FLDT_STR"@ {
        assert(tabs(d) + "STRING "@ + f.name + " {\n"@ =~= head);
    }
}

/// A field block opens with its indentation, its PODL type, its name and `{`.
proof fn lemma_block_head(f: FieldPODLView, d: nat, inner: Seq<char>)
    ensures
        has_prefix(
            field_block_at(f, d, inner),
            tabs(d) + podl_type(f.data_type) + " "@ + f.name + " {\n"@,
        ),
{
    reveal(field_block_at);
    let b = field_block_at(f, d, inner);
    let head = tabs(d) + podl_type(f.data_type) + " "@ + f.name + " {\n"@;
    let rest = tabs(d + 1) + "DESCR = "@;
    assert(b.len() >= head.len());
    assert forall|i: int| 0 <= i < head.len() implies b[i] == head[i] by {
        assert(b[i] == (head + rest)[i]);
    }
    assert(b.take(head.len() as int) =~= head);
}

/// The creation flag digits 0 to 3 stand for four different permissions,
/// written `Required`, `Optional`, `Prohibited` and `System`; any other entry
/// means `Required`.
pub proof fn law_create_flag_texts(s: Seq<char>)
    ensures
        s == "0"@ ==> create_text(create_flag_of(s)) == "Required"@,
        s == "1"@ ==> create_text(create_flag_of(s)) == "Optional"@,
        s == "2"@ ==> create_text(create_flag_of(s)) == "Prohibited"@,
        s == "3"@ ==> create_text(create_flag_of(s)) == "System"@,
        s != "1"@ && s != "2"@ && s != "3"@ ==> create_text(create_flag_of(s)) == "Required"@,
{
    reveal_strlit("0");
    reveal_strlit("1");
    reveal_strlit("2");
    reveal_strlit("3");
    if s.len() == 1 {
        assert("0"@[0] == '0' && "1"@[0] == '1' && "2"@[0] == '2' && "3"@[0] == '3');
    }
}

/// The modification flag digits 0 to 2 stand for three different
/// permissions, written `Writeable`, `Not_Writeable` and `System`; any other
/// entry means `Writeable`.
pub proof fn law_modify_flag_texts(s: Seq<char>)
    ensures
        s == "0"@ ==> modify_text(modify_flag_of(s)) == "Writeable"@,
        s == "1"@ ==> modify_text(modify_flag_of(s)) == "Not_Writeable"@,
        s == "2"@ ==> modify_text(modify_flag_of(s)) == "System"@,
        s != "1"@ && s != "2"@ ==> modify_text(modify_flag_of(s)) == "Writeable"@,
{
    reveal_strlit("0");
    reveal_strlit("1");
    reveal_strlit("2");
    if s.len() == 1 {
        assert("0"@[0] == '0' && "1"@[0] == '1' && "2"@[0] == '2');
    }
}

/// The PODL field of a field specification `name|descr->column->flags->
/// length`: the name and the pieces are trimmed; the flags, comma
/// separated, are create, modify, audit and encrypt, an absent one counting
/// as `0`, and audit and encrypt are on only where written `1`; a field
/// loaded as `PIN_FLDT_STR` has the length written (60 where none parses)
/// and any other field none (0).
pub proof fn law_field_podl_attributes(t: Seq<FieldView>, field_name: Seq<char>, data: Seq<Seq<char>>)
    ensures
        ({
            let f = field_podl_spec(t, field_name, data);
            let flag_text = trim(
                if data.len() > 2 {
                    data[2]
                } else {
                    "0,0,0,0"@
                },
            );
            let flags = split(flag_text, ","@);
            &&& f.name == trim(field_name)
            &&& f.data_type == field_type_of(t, trim(field_name))
            &&& data.len() > 0 ==> f.descr == trim(data[0])
            &&& data.len() == 0 ==> f.descr == Seq::<char>::empty()
            &&& data.len() > 1 ==> f.col_tab_name == trim(data[1])
            &&& data.len() <= 1 ==> f.col_tab_name == Seq::<char>::empty()
            &&& f.create_flag == create_flag_of(if flags.len() > 0 { flags[0] } else { "0"@ })
            &&& f.modify_flag == modify_flag_of(if flags.len() > 1 { flags[1] } else { "0"@ })
            &&& f.audit_flag <==> (flags.len() > 2 && flags[2] == "1"@)
            &&& f.encryp_flag <==> (flags.len() > 3 && flags[3] == "1"@)
            &&& f.data_type != "PIN_FLDT_STR"@ ==> f.data_length == 0
            &&& (f.data_type == "PIN_FLDT_STR"@ && data.len() > 3 && parse_i32(data[3]) is Some)
                ==> f.data_length == parse_i32(data[3]).unwrap() as i32
            &&& (f.data_type == "PIN_FLDT_STR"@ && (data.len() <= 3 || parse_i32(data[3]) is None))
                ==> f.data_length == 60
        }),
{
    reveal_strlit("0");
    reveal_strlit("1");
    assert("0"@ =~= seq!['0']);
    assert("1"@ =~= seq!['1']);
    assert("0"@ != "1"@) by {
        assert("0"@[0] != "1"@[0]);
    }
}

/// An array or substruct line of level `lvl`, not deeper than the current
/// level, first closes the elements opened at `lvl` or deeper: the element
/// stack keeps the `flist` root and the `lvl` enclosing elements, and the new
/// element goes on top of them, at depth `lvl` below the root.
pub proof fn law_xml_container_depth(s: FlistState)
    requires
        s.cur_field.ftype == "ARRAY"@ || s.cur_field.ftype == "SUBSTRUCT"@,
        0 <= s.cur_field.level <= s.cur_level,
        s.cur_field.level + 1 <= s.xml_tag_stack.len() <= 127,
    ensures
        add_xml_spec(s).xml_tag_stack == s.xml_tag_stack.take(s.cur_field.level + 1).push(
            s.cur_field.name,
        ),
        add_xml_spec(s).xml_tag_stack.len() == s.cur_field.level + 2,
        add_xml_spec(s).cur_level == s.cur_field.level,
{
    let len = s.xml_tag_stack.len();
    let lvl = s.cur_field.level;
    assert((len as i8) as int == len);
    let n = len - lvl - 1;
    if n > 0 {
        crate::flist::lemma_close_tags(s, n as nat);
    } else {
        assert(s.xml_tag_stack.take(lvl + 1) =~= s.xml_tag_stack);
    }
}

/// The name of an archive entry that may hold a trace: it ends with `.txt`,
/// `.log` or `.trace`, or has `callstack`, `trace` or `log` in it.
pub open spec fn named_as_trace(n: Seq<char>) -> bool {
    has_suffix(n, ".txt"@) || has_suffix(n, ".log"@) || has_suffix(n, ".trace"@) || contains(
        n,
        "callstack"@,
    ) || contains(n, "trace"@) || contains(n, "log"@)
}

/// The entries before `k` all read, and none of them is named as a trace
/// with a text that has both `Enter` and `Exit`.
pub open spec fn passed_over(es: Seq<ZipEntryView>, k: int) -> bool {
    forall|j: int|
        0 <= j < k ==> match #[trigger] es[j] {
            ZipEntryView::Unreachable(_) => false,
            ZipEntryView::Entry { name, text } => match text {
                Ok(c) => !(named_as_trace(name) && contains(c, "Enter"@) && contains(
                    c,
                    "Exit"@,
                )),
                Err(_) => !named_as_trace(name),
            },
        }
}

/// The trace found in an archive is the text of the first entry named as a
/// trace whose text has both `Enter` and `Exit`: whatever entries not named
/// so come before it, and whatever they hold, it is taken.
pub proof fn law_trace_entry_taken(es: Seq<ZipEntryView>, k: int, c: Seq<char>)
    requires
        0 <= k < es.len(),
        passed_over(es, k),
        es[k] matches ZipEntryView::Entry { name, text } && named_as_trace(name) && text == Ok::<
            Seq<char>,
            Seq<char>,
        >(c),
        contains(c, "Enter"@),
        contains(c, "Exit"@),
    ensures
        callstack_in_entries(es) == Ok::<Seq<char>, Seq<char>>(c),
{
    lemma_trace_from(es, k, c, k);
}

/// From every entry at or before `k`, the first pass ends at entry `k`.
proof fn lemma_trace_from(es: Seq<ZipEntryView>, k: int, c: Seq<char>, i: int)
    requires
        0 <= i <= k < es.len(),
        passed_over(es, k),
        es[k] matches ZipEntryView::Entry { name, text } && named_as_trace(name) && text == Ok::<
            Seq<char>,
            Seq<char>,
        >(c),
        contains(c, "Enter"@),
        contains(c, "Exit"@),
    ensures
        trace_entry_from(es, k - i) == Some(Ok::<Seq<char>, Seq<char>>(c)),
    decreases i,
{
    let j = k - i;
    if i > 0 {
        lemma_trace_from(es, k, c, i - 1);
        assert(0 <= j < k);
        let e = es[j];
        match e {
            ZipEntryView::Unreachable(_) => {},
            ZipEntryView::Entry { name, text } => {
                assert(trace_like_name(name) == named_as_trace(name));
            },
        }
    } else {
        match es[k] {
            ZipEntryView::Unreachable(_) => {},
            ZipEntryView::Entry { name, text } => {
                assert(trace_like_name(name) == named_as_trace(name));
            },
        }
    }
}

/// Where no entry is named as a trace with a text that has both `Enter` and
/// `Exit`, the trace found is the text of the first entry that is not a
/// directory (a name ending in `/`) and whose text reads and is not blank;
/// where there is none, the answer is that no call stack data was found.
pub proof fn law_trace_fallback(es: Seq<ZipEntryView>)
    requires
        passed_over(es, es.len() as int),
    ensures
        forall|k: int, c: Seq<char>|
            0 <= k < es.len() && (es[k] matches ZipEntryView::Entry { name, text } && !has_suffix(
                name,
                "/"@,
            ) && text == Ok::<Seq<char>, Seq<char>>(c)) && !all_ws(c) && skipped_before(es, k)
                ==> callstack_in_entries(es) == Ok::<Seq<char>, Seq<char>>(c),
        skipped_before(es, es.len() as int) ==> callstack_in_entries(es) == Err::<
            Seq<char>,
            Seq<char>,
        >("No suitable callstack data found in zip file"@),
{
    lemma_no_trace_from(es, es.len() as int);
    assert forall|k: int, c: Seq<char>|
        0 <= k < es.len() && (es[k] matches ZipEntryView::Entry { name, text } && !has_suffix(
            name,
            "/"@,
        ) && text == Ok::<Seq<char>, Seq<char>>(c)) && !all_ws(c) && skipped_before(es, k)
            implies callstack_in_entries(es) == Ok::<Seq<char>, Seq<char>>(c) by {
        lemma_text_from(es, k, c, k);
    }
    if skipped_before(es, es.len() as int) {
        lemma_text_none(es, es.len() as int);
    }
}

/// The entries before `k` are all directories, unreadable, or blank.
pub open spec fn skipped_before(es: Seq<ZipEntryView>, k: int) -> bool {
    forall|j: int|
        0 <= j < k ==> match #[trigger] es[j] {
            ZipEntryView::Unreachable(_) => false,
            ZipEntryView::Entry { name, text } => match text {
                Ok(c) => has_suffix(name, "/"@) || all_ws(c),
                Err(_) => true,
            },
        }
}

/// The first pass takes nothing from entries that are all passed over.
proof fn lemma_no_trace_from(es: Seq<ZipEntryView>, i: int)
    requires
        0 <= i <= es.len(),
        passed_over(es, es.len() as int),
    ensures
        trace_entry_from(es, es.len() - i) is None,
    decreases i,
{
    if i > 0 {
        lemma_no_trace_from(es, i - 1);
        let j = es.len() - i;
        match es[j] {
            ZipEntryView::Unreachable(_) => {},
            ZipEntryView::Entry { name, text } => {
                assert(trace_like_name(name) == named_as_trace(name));
            },
        }
    }
}

/// From every entry at or before `k`, the second pass ends at entry `k`.
proof fn lemma_text_from(es: Seq<ZipEntryView>, k: int, c: Seq<char>, i: int)
    requires
        0 <= i <= k < es.len(),
        skipped_before(es, k),
        es[k] matches ZipEntryView::Entry { name, text } && !has_suffix(name, "/"@) && text
            == Ok::<Seq<char>, Seq<char>>(c),
        !all_ws(c),
    ensures
        text_entry_from(es, k - i) == Some(Ok::<Seq<char>, Seq<char>>(c)),
    decreases i,
{
    if i > 0 {
        lemma_text_from(es, k, c, i - 1);
        assert(skipped_before(es, k) && 0 <= k - i < k);
        let e = es[k - i];
    }
}

/// The second pass takes nothing from entries that are all skipped.
proof fn lemma_text_none(es: Seq<ZipEntryView>, i: int)
    requires
        0 <= i <= es.len(),
        skipped_before(es, es.len() as int),
    ensures
        text_entry_from(es, es.len() - i) is None,
    decreases i,
{
    if i > 0 {
        lemma_text_none(es, i - 1);
        let e = es[es.len() - i];
    }
}

/// A white-space character is not a decimal digit.
proof fn lemma_space_not_digit(c: char)
    requires
        is_ws(c),
    ensures
        !is_nd(c),
{
}

/// Where the characters from `a` to `b` are of class `k` and the one at `b`
/// (if any) is not, the run of class `k` from `a` ends at `b`.
proof fn lemma_run_end_at(s: Seq<char>, a: int, b: int, k: CharClass)
    requires
        0 <= a <= b <= s.len(),
        forall|j: int| a <= j < b ==> in_class(k, #[trigger] s[j]),
        b < s.len() ==> !in_class(k, s[b]),
    ensures
        run_end(s, a, k) == b,
    decreases b - a,
{
    if a < b {
        lemma_run_end_at(s, a + 1, b, k);
    }
}

/// The FLIST line grammar reads back what a line is made of: the level's
/// digits, then white space, the field name, white space, the type, white
/// space, and the index in square brackets followed by the value (neither
/// holding a line break, the value holding no `]`) give those five parts.
pub proof fn law_line_parts(
    level: Seq<char>,
    sp1: Seq<char>,
    name: Seq<char>,
    sp2: Seq<char>,
    ftype: Seq<char>,
    sp3: Seq<char>,
    idx: Seq<char>,
    value: Seq<char>,
)
    requires
        level.len() > 0 && forall|j: int| 0 <= j < level.len() ==> is_nd(#[trigger] level[j]),
        sp1.len() > 0 && forall|j: int| 0 <= j < sp1.len() ==> is_ws(#[trigger] sp1[j]),
        name.len() > 0 && forall|j: int| 0 <= j < name.len() ==> !is_ws(#[trigger] name[j]),
        sp2.len() > 0 && forall|j: int| 0 <= j < sp2.len() ==> is_ws(#[trigger] sp2[j]),
        ftype.len() > 0 && forall|j: int| 0 <= j < ftype.len() ==> !is_ws(#[trigger] ftype[j]),
        sp3.len() > 0 && forall|j: int| 0 <= j < sp3.len() ==> is_ws(#[trigger] sp3[j]),
        forall|j: int| 0 <= j < idx.len() ==> #[trigger] idx[j] != '\n',
        forall|j: int| 0 <= j < value.len() ==> #[trigger] value[j] != '\n' && value[j] != ']',
    ensures
        line_parts(level + sp1 + name + sp2 + ftype + sp3 + seq!['['] + idx + seq![']'] + value)
            == Some(LineParts { level, name, ftype, arr_idx: idx, value }),
{
    let s = level + sp1 + name + sp2 + ftype + sp3 + seq!['['] + idx + seq![']'] + value;
    let e1 = level.len() as int;
    let w1 = e1 + sp1.len();
    let e2 = w1 + name.len();
    let w2 = e2 + sp2.len();
    let e3 = w2 + ftype.len();
    let w3 = e3 + sp3.len();
    let k = w3 + 1 + idx.len();
    assert(s.len() == k + 1 + value.len());
    assert forall|j: int| 0 <= j < e1 implies in_class(CharClass::Decimal, #[trigger] s[j]) by {
        assert(s[j] == level[j]);
    }
    assert(s[e1] == sp1[0]);
    lemma_space_not_digit(sp1[0]);
    lemma_run_end_at(s, 0, e1, CharClass::Decimal);
    assert forall|j: int| e1 <= j < w1 implies in_class(CharClass::Space, #[trigger] s[j]) by {
        assert(s[j] == sp1[j - e1]);
    }
    assert(s[w1] == name[0]);
    lemma_run_end_at(s, e1, w1, CharClass::Space);
    assert forall|j: int| w1 <= j < e2 implies in_class(CharClass::NonSpace, #[trigger] s[j]) by {
        assert(s[j] == name[j - w1]);
    }
    assert(s[e2] == sp2[0]);
    lemma_run_end_at(s, w1, e2, CharClass::NonSpace);
    assert forall|j: int| e2 <= j < w2 implies in_class(CharClass::Space, #[trigger] s[j]) by {
        assert(s[j] == sp2[j - e2]);
    }
    assert(s[w2] == ftype[0]);
    lemma_run_end_at(s, e2, w2, CharClass::Space);
    assert forall|j: int| w2 <= j < e3 implies in_class(CharClass::NonSpace, #[trigger] s[j]) by {
        assert(s[j] == ftype[j - w2]);
    }
    assert(s[e3] == sp3[0]);
    lemma_run_end_at(s, w2, e3, CharClass::NonSpace);
    assert forall|j: int| e3 <= j < w3 implies in_class(CharClass::Space, #[trigger] s[j]) by {
        assert(s[j] == sp3[j - e3]);
    }
    assert(s[w3] == '[');
    assert(!is_ws('['));
    lemma_run_end_at(s, e3, w3, CharClass::Space);
    assert forall|j: int| w3 + 1 <= j < s.len() implies #[trigger] s[j] != '\n' by {
        if j < k {
            assert(s[j] == idx[j - w3 - 1]);
        } else if j > k {
            assert(s[j] == value[j - k - 1]);
        }
    }
    assert(s[k] == ']');
    assert forall|j: int| k < j < s.len() implies #[trigger] s[j] != ']' by {
        assert(s[j] == value[j - k - 1]);
    }
    lemma_last_index_of(s, ']');
    assert(last_index_of(s, ']') == Some(k));
    assert(s.subrange(0, e1) =~= level);
    assert(s.subrange(w1, e2) =~= name);
    assert(s.subrange(w2, e3) =~= ftype);
    assert(s.subrange(w3 + 1, k) =~= idx);
    assert(s.subrange(k + 1, s.len() as int) =~= value);
}

/// A field specification is complained about exactly where one of its lines
/// has fewer than four `|`-separated parts, one complaint per such line,
/// each naming the line.
pub proof fn law_invalid_lines(ls: Seq<Seq<char>>, i: int)
    requires
        0 <= i <= ls.len(),
    ensures
        invalid_lines_from(ls, i).len() == 0 <==> forall|j: int|
            i <= j < ls.len() ==> split(#[trigger] ls[j], seq!['|']).len() >= 4,
        invalid_lines_from(ls, i).len() <= ls.len() - i,
        forall|m: int|
            0 <= m < invalid_lines_from(ls, i).len() ==> exists|j: int|
                i <= j < ls.len() && split(ls[j], seq!['|']).len() < 4 && has_suffix(
                    #[trigger] invalid_lines_from(ls, i)[m],
                    ": "@ + ls[j],
                ),
    decreases ls.len() - i,
{
    if i < ls.len() {
        law_invalid_lines(ls, i + 1);
        let rest = invalid_lines_from(ls, i + 1);
        if split(ls[i], seq!['|']).len() < 4 {
            let head = "Line "@ + crate::number::nat_str((i + 1) as nat) + ": "@ + ls[i];
            let all = seq![head] + rest;
            assert(invalid_lines_from(ls, i) == all);
            assert(head.subrange(head.len() - (": "@ + ls[i]).len(), head.len() as int) =~= ": "@
                + ls[i]);
            assert forall|m: int| 0 <= m < all.len() implies exists|j: int|
                i <= j < ls.len() && split(ls[j], seq!['|']).len() < 4 && has_suffix(
                    #[trigger] all[m],
                    ": "@ + ls[j],
                ) by {
                if m == 0 {
                    assert(all[0] == head);
                } else {
                    assert(all[m] == rest[m - 1]);
                }
            }
        }
    }
}

/// A white-space character is not a word character.
proof fn lemma_space_not_word(c: char)
    requires
        is_ws(c),
    ensures
        !crate::wordchar::is_word(c),
{
}

/// The call stack trace line grammar reads back what a line is made of:
/// optional white space, the timestamp `<digits>.<digits>`, white space, the
/// dots of the nesting level, the action word, white space, the operation
/// word, white space and the return code in brackets (holding no `)`), then
/// anything.
pub proof fn law_trace_parts(
    ws0: Seq<char>,
    whole: Seq<char>,
    frac: Seq<char>,
    sp1: Seq<char>,
    dots: Seq<char>,
    action: Seq<char>,
    sp2: Seq<char>,
    op: Seq<char>,
    sp3: Seq<char>,
    rc: Seq<char>,
    rest: Seq<char>,
)
    requires
        forall|j: int| 0 <= j < ws0.len() ==> is_ws(#[trigger] ws0[j]),
        whole.len() > 0 && forall|j: int| 0 <= j < whole.len() ==> is_nd(#[trigger] whole[j]),
        frac.len() > 0 && forall|j: int| 0 <= j < frac.len() ==> is_nd(#[trigger] frac[j]),
        sp1.len() > 0 && forall|j: int| 0 <= j < sp1.len() ==> is_ws(#[trigger] sp1[j]),
        forall|j: int| 0 <= j < dots.len() ==> #[trigger] dots[j] == '.',
        action.len() > 0 && forall|j: int|
            0 <= j < action.len() ==> crate::wordchar::is_word(#[trigger] action[j]),
        sp2.len() > 0 && forall|j: int| 0 <= j < sp2.len() ==> is_ws(#[trigger] sp2[j]),
        op.len() > 0 && forall|j: int|
            0 <= j < op.len() ==> crate::wordchar::is_word(#[trigger] op[j]),
        sp3.len() > 0 && forall|j: int| 0 <= j < sp3.len() ==> is_ws(#[trigger] sp3[j]),
        rc.len() > 0 && forall|j: int| 0 <= j < rc.len() ==> #[trigger] rc[j] != ')',
    ensures
        trace_parts(
            ws0 + whole + seq!['.'] + frac + sp1 + dots + action + sp2 + op + sp3 + seq!['('] + rc
                + seq![')'] + rest,
        ) == Some(
            TraceParts {
                timestamp: whole + seq!['.'] + frac,
                level: dots.len() as int,
                action,
                operation: op,
                return_code: rc,
            },
        ),
{
    let s = ws0 + whole + seq!['.'] + frac + sp1 + dots + action + sp2 + op + sp3 + seq!['(']
        + rc + seq![')'] + rest;
    let a = ws0.len() as int;
    let b = a + whole.len();
    let c = b + 1 + frac.len();
    let d = c + sp1.len();
    let e = d + dots.len();
    let f = e + action.len();
    let g = f + sp2.len();
    let h = g + op.len();
    let i = h + sp3.len();
    let j = i + 1 + rc.len();
    assert(s.len() == j + 1 + rest.len());
    assert forall|m: int| 0 <= m < a implies in_class(CharClass::Space, #[trigger] s[m]) by {
        assert(s[m] == ws0[m]);
    }
    assert(s[a] == whole[0]);
    if is_ws(whole[0]) {
        lemma_space_not_digit(whole[0]);
    }
    lemma_run_end_at(s, 0, a, CharClass::Space);
    assert forall|m: int| a <= m < b implies in_class(CharClass::Decimal, #[trigger] s[m]) by {
        assert(s[m] == whole[m - a]);
    }
    assert(s[b] == '.');
    lemma_run_end_at(s, a, b, CharClass::Decimal);
    assert forall|m: int| b + 1 <= m < c implies in_class(CharClass::Decimal, #[trigger] s[m]) by {
        assert(s[m] == frac[m - b - 1]);
    }
    assert(s[c] == sp1[0]);
    lemma_space_not_digit(sp1[0]);
    lemma_run_end_at(s, b + 1, c, CharClass::Decimal);
    assert forall|m: int| c <= m < d implies in_class(CharClass::Space, #[trigger] s[m]) by {
        assert(s[m] == sp1[m - c]);
    }
    if dots.len() > 0 {
        assert(s[d] == dots[0]);
    } else {
        assert(s[d] == action[0]);
        if is_ws(action[0]) {
            lemma_space_not_word(action[0]);
        }
    }
    lemma_run_end_at(s, c, d, CharClass::Space);
    assert forall|m: int| d <= m < e implies in_class(CharClass::Dot, #[trigger] s[m]) by {
        assert(s[m] == dots[m - d]);
    }
    assert(s[e] == action[0]);
    assert(!crate::wordchar::is_word('.'));
    lemma_run_end_at(s, d, e, CharClass::Dot);
    assert forall|m: int| e <= m < f implies in_class(CharClass::Word, #[trigger] s[m]) by {
        assert(s[m] == action[m - e]);
    }
    assert(s[f] == sp2[0]);
    lemma_space_not_word(sp2[0]);
    lemma_run_end_at(s, e, f, CharClass::Word);
    assert forall|m: int| f <= m < g implies in_class(CharClass::Space, #[trigger] s[m]) by {
        assert(s[m] == sp2[m - f]);
    }
    assert(s[g] == op[0]);
    if is_ws(op[0]) {
        lemma_space_not_word(op[0]);
    }
    lemma_run_end_at(s, f, g, CharClass::Space);
    assert forall|m: int| g <= m < h implies in_class(CharClass::Word, #[trigger] s[m]) by {
        assert(s[m] == op[m - g]);
    }
    assert(s[h] == sp3[0]);
    lemma_space_not_word(sp3[0]);
    lemma_run_end_at(s, g, h, CharClass::Word);
    assert forall|m: int| h <= m < i implies in_class(CharClass::Space, #[trigger] s[m]) by {
        assert(s[m] == sp3[m - h]);
    }
    assert(s[i] == '(');
    lemma_run_end_at(s, h, i, CharClass::Space);
    assert forall|m: int| i + 1 <= m < j implies in_class(
        CharClass::NotCloseParen,
        #[trigger] s[m],
    ) by {
        assert(s[m] == rc[m - i - 1]);
    }
    assert(s[j] == ')');
    lemma_run_end_at(s, i + 1, j, CharClass::NotCloseParen);
    assert(s.subrange(a, c) =~= whole + seq!['.'] + frac);
    assert(s.subrange(e, f) =~= action);
    assert(s.subrange(g, h) =~= op);
    assert(s.subrange(i + 1, j) =~= rc);
}

/// A trace line is read as one entry that enters exactly where its action
/// is `Enter`, keeping its timestamp, level, operation and return code; a
/// non-blank line that does not match is the failure, and so is one whose
/// timestamp is not ASCII digits and dots; blank lines are passed over.
pub proof fn law_trace_line_read(ls: Seq<Seq<char>>, i: int)
    requires
        0 <= i < ls.len(),
    ensures
        all_ws(ls[i]) ==> trace_from(ls, i) == trace_from(ls, i + 1),
        !all_ws(ls[i]) ==> match trace_parts(ls[i]) {
            None => trace_from(ls, i) == Err::<Seq<TraceLineView>, TraceFailure>(
                TraceFailure::Line { line: ls[i], parsed: Seq::empty() },
            ),
            Some(p) => if !ascii_decimal(p.timestamp) {
                trace_from(ls, i) == Err::<Seq<TraceLineView>, TraceFailure>(
                    TraceFailure::Timestamp { text: p.timestamp, parsed: Seq::empty() },
                )
            } else {
                trace_from(ls, i + 1) matches Ok(rest) ==> trace_from(ls, i) == Ok::<
                    Seq<TraceLineView>,
                    TraceFailure,
                >(
                    seq![
                        TraceLineView {
                            timestamp: p.timestamp,
                            level: p.level,
                            is_enter: p.action == "Enter"@,
                            operation: p.operation,
                            return_code: p.return_code,
                        },
                    ] + rest,
                )
            },
        },
{
}

/// `c` does not occur in `s`.
pub open spec fn free_of(s: Seq<char>, c: char) -> bool {
    forall|j: int| 0 <= j < s.len() ==> #[trigger] s[j] != c
}

/// A one-character pattern occurs exactly where that character stands.
proof fn lemma_occurs_single(s: Seq<char>, c: char, i: int)
    ensures
        occurs_at(s, seq![c], i) <==> (0 <= i < s.len() && s[i] == c),
{
    if 0 <= i < s.len() {
        if s[i] == c {
            assert(s.subrange(i, i + 1) =~= seq![c]);
        } else {
            assert(s.subrange(i, i + 1)[0] != seq![c][0]);
        }
    }
}

/// The first occurrence of a one-character pattern from `start` on.
proof fn lemma_find_single(s: Seq<char>, c: char, start: int)
    requires
        0 <= start <= s.len(),
    ensures
        find_from(s, seq![c], start) matches Some(k) ==> start <= k < s.len() && s[k] == c
            && forall|j: int| start <= j < k ==> #[trigger] s[j] != c,
        find_from(s, seq![c], start) is None ==> forall|j: int|
            start <= j < s.len() ==> #[trigger] s[j] != c,
{
    lemma_find_from(s, seq![c], start);
    if let Some(k) = find_from(s, seq![c], start) {
        lemma_occurs_single(s, c, k);
        assert forall|j: int| start <= j < k implies #[trigger] s[j] != c by {
            lemma_occurs_single(s, c, j);
        }
    } else {
        assert forall|j: int| start <= j < s.len() implies #[trigger] s[j] != c by {
            lemma_occurs_single(s, c, j);
        }
    }
}

/// Splitting `a`, then `c` and a text free of `c`, gives the pieces of `a`
/// and that text after them.
proof fn lemma_split_append(a: Seq<char>, c: char, b: Seq<char>, start: int)
    requires
        0 <= start <= a.len(),
        free_of(b, c),
    ensures
        split_from(a + seq![c] + b, seq![c], start) == split_from(a, seq![c], start) + seq![b],
    decreases a.len() - start,
{
    let s = a + seq![c] + b;
    let p = seq![c];
    let n1: int = a.len() as int + 1;
    lemma_find_single(a, c, start);
    lemma_find_single(s, c, start);
    lemma_find_single(s, c, n1);
    assert(find_from(s, p, n1) is None) by {
        if let Some(i) = find_from(s, p, n1) {
            assert(s[i] == b[i - n1]);
        }
    }
    assert(s.subrange(n1, s.len() as int) =~= b);
    match find_from(a, p, start) {
        Some(i) => {
            assert(s[i] == a[i]);
            assert(find_from(s, p, start) == Some(i)) by {
                if let Some(k) = find_from(s, p, start) {
                    if k < i {
                        assert(s[k] == a[k]);
                    }
                    if k > i {
                        assert(s[i] == c);
                    }
                }
            }
            lemma_split_append(a, c, b, i + 1);
            assert(s.subrange(start, i) =~= a.subrange(start, i));
        },
        None => {
            assert(s[a.len() as int] == c);
            assert(find_from(s, p, start) == Some(a.len() as int)) by {
                if let Some(k) = find_from(s, p, start) {
                    if k < a.len() {
                        assert(s[k] == a[k]);
                    }
                }
            }
            assert(s.subrange(start, a.len() as int) =~= a.subrange(start, a.len() as int));
            assert(split_from(s, p, n1) =~= seq![b]);
        },
    }
}

/// Splitting a text free of `c` by `c` gives the text itself.
proof fn lemma_split_single(a: Seq<char>, c: char)
    requires
        free_of(a, c),
    ensures
        split_from(a, seq![c], 0) == seq![a],
{
    let p = seq![c];
    lemma_find_single(a, c, 0);
    assert(a.subrange(0, a.len() as int) =~= a);
}

/// Splitting by `c` undoes joining with `c`: pieces free of `c`, joined
/// with `c` between them, split back into the same pieces.
pub proof fn law_split_join(ps: Seq<Seq<char>>, c: char)
    requires
        ps.len() >= 1,
        forall|k: int| 0 <= k < ps.len() ==> free_of(#[trigger] ps[k], c),
    ensures
        crate::text::split(join(ps, seq![c]), seq![c]) == ps,
    decreases ps.len(),
{
    if ps.len() == 1 {
        lemma_split_single(ps[0], c);
    } else {
        let q = ps.drop_last();
        assert forall|k: int| 0 <= k < q.len() implies free_of(#[trigger] q[k], c) by {
            assert(q[k] == ps[k]);
        }
        law_split_join(q, c);
        assert(free_of(ps.last(), c));
        lemma_split_append(join(q, seq![c]), c, ps.last(), 0);
        assert(q + seq![ps.last()] =~= ps);
    }
}

/// A field definition line `name|type|number`, its parts holding no `|`,
/// defines the field of that name, type and number.
pub proof fn law_field_line(name: Seq<char>, data_type: Seq<char>, num: Seq<char>)
    requires
        free_of(name, '|'),
        free_of(data_type, '|'),
        free_of(num, '|'),
    ensures
        crate::fields::line_field(name + seq!['|'] + data_type + seq!['|'] + num) == Some(
            FieldView { name, data_type, num },
        ),
{
    let ps = seq![name, data_type, num];
    assert(join(ps.drop_last().drop_last(), seq!['|']) == name);
    assert(join(ps.drop_last(), seq!['|']) == name + seq!['|'] + data_type);
    assert(join(ps, seq!['|']) == name + seq!['|'] + data_type + seq!['|'] + num);
    law_split_join(ps, '|');
}

/// `p` is a prefix of `q`, and `q` of `r`: then `p` is a prefix of `r`.
proof fn lemma_prefix_trans(p: Seq<char>, q: Seq<char>, r: Seq<char>)
    requires
        has_prefix(q, p),
        has_prefix(r, q),
    ensures
        has_prefix(r, p),
{
    assert(r.take(p.len() as int) =~= q.take(p.len() as int));
}

/// `a` is a prefix of `a + b`.
proof fn lemma_prefix_add(a: Seq<char>, b: Seq<char>)
    ensures
        has_prefix(a + b, a),
{
    assert((a + b).take(a.len() as int) =~= a);
}

/// `a` is a prefix of itself.
proof fn lemma_prefix_self(a: Seq<char>)
    ensures
        has_prefix(a, a),
{
    assert(a.take(a.len() as int) =~= a);
}

/// Preparing a field's statement only adds to the declarations and the
/// statements.
proof fn lemma_prepare_appends(r: FlistState)
    ensures
        has_prefix(crate::flist::code_prepare(r).0.vars, r.vars),
        has_prefix(crate::flist::code_prepare(r).0.code, r.code),
        crate::flist::code_prepare(r).0.c_code == r.c_code,
{
    let s1 = crate::flist::code_prepare(r).0;
    let f = r.cur_field;
    let t = f.ftype;
    let lvl = f.level;
    lemma_prefix_self(r.vars);
    lemma_prefix_self(r.code);
    if t == "TSTAMP"@ || t == "INT"@ || t == "ENUM"@ || t == "DECIMAL"@ {
        let d = add_plain(r, f.name, f.value, t, lvl);
        let k = d.vars.subrange(r.vars.len() as int, d.vars.len() as int);
        assert(d.vars =~= r.vars + k);
        lemma_prefix_add(r.vars, k);
        assert(s1.vars == d.vars);
    } else if t == "ARRAY"@ || t == "SUBSTRUCT"@ {
        let vname = var_name(f.name, t);
        let base = if r.cur_level >= lvl {
            let u = unwind(r, lvl);
            FlistState { code: u.code + "\n"@, ..u }
        } else {
            r
        };
        let g = crate::flist::add_flist_var(base, vname, lvl);
        if g.vars != base.vars {
            let k = g.vars.subrange(r.vars.len() as int, g.vars.len() as int);
            assert(g.vars =~= r.vars + k);
            lemma_prefix_add(r.vars, k);
        }
        if r.cur_level >= lvl {
            lemma_prefix_add(r.code, "\n"@);
        }
    }
}

/// Writing a field's statement only adds to the statements.
proof fn lemma_emit_appends(s1: FlistState, mac: Seq<char>, value: Seq<char>)
    ensures
        crate::flist::code_emit(s1, mac, value).vars == s1.vars,
        has_prefix(crate::flist::code_emit(s1, mac, value).code, s1.code),
        crate::flist::code_emit(s1, mac, value).c_code == s1.c_code,
{
    let out = crate::flist::code_emit(s1, mac, value);
    let k = out.code.subrange(s1.code.len() as int, out.code.len() as int);
    assert(out.code =~= s1.code + k);
    lemma_prefix_add(s1.code, k);
}

/// One line of C conversion only adds to the declarations and to the
/// statements: what was written before stays at their start. The C text
/// itself is only assembled at the end.
pub proof fn law_code_step_appends(s: FlistState, line: Seq<char>)
    ensures
        has_prefix(code_step(s, line).vars, s.vars),
        has_prefix(code_step(s, line).code, s.code),
        code_step(s, line).c_code == s.c_code,
{
    let r = crate::flist::read_line_into(s, line);
    let p = crate::flist::code_prepare(r);
    lemma_prepare_appends(r);
    lemma_emit_appends(p.0, p.1, p.2);
    let out = code_step(s, line);
    assert(out == crate::flist::code_emit(p.0, p.1, p.2));
    lemma_prefix_self(s.vars);
    lemma_prefix_trans(s.code, p.0.code, out.code);
}

/// A run of C conversion steps only adds to the declarations and the
/// statements.
pub proof fn law_code_run_appends(s: FlistState, ls: Seq<Seq<char>>)
    ensures
        has_prefix(code_run(s, ls).vars, s.vars),
        has_prefix(code_run(s, ls).code, s.code),
        code_run(s, ls).c_code == s.c_code,
    decreases ls.len(),
{
    if ls.len() == 0 {
        lemma_prefix_add(s.vars, Seq::empty());
        assert(s.vars + Seq::<char>::empty() =~= s.vars);
        lemma_prefix_add(s.code, Seq::empty());
        assert(s.code + Seq::<char>::empty() =~= s.code);
    } else {
        law_code_run_appends(s, ls.drop_last());
        let m = code_run(s, ls.drop_last());
        assert(code_run(s, ls) == code_step(m, ls.last()));
        law_code_step_appends(m, ls.last());
        lemma_prefix_trans(s.vars, m.vars, code_run(s, ls).vars);
        lemma_prefix_trans(s.code, m.code, code_run(s, ls).code);
    }
}

/// The C text of a conversion of an FLIST dump into the flist `name` is the
/// variable declarations, starting with that of `name`, then a blank line,
/// then the statements, starting with the creation of `name`.
pub proof fn law_c_code_shape(s: FlistState, text: Seq<char>, name: Seq<char>)
    ensures
        ({
            let r = ccode_spec(s, text, name);
            let tab = if has_prefix(name, "s_flistp"@) {
                "\t"@
            } else {
                Seq::<char>::empty()
            };
            &&& r.c_code == s.c_code + r.vars + "\n"@ + r.code
            &&& has_prefix(r.vars, s.vars + tab + "pin_flist_t\t\t*"@ + name + " = NULL;\n"@)
            &&& has_prefix(r.code, tab + name + " = PIN_FLIST_CREATE(ebufp);\n"@)
        }),
{
    let st = code_start(s, name);
    law_code_run_appends(st, crate::text::lines(text));
    lemma_prefix_self(st.vars);
    lemma_prefix_self(st.code);
}

/// Where no decimal digit stands from `i` on, no digit group starts there.
proof fn lemma_no_digit_start(v: Seq<char>, i: int)
    requires
        0 <= i,
        forall|j: int| i <= j < v.len() ==> !is_nd(#[trigger] v[j]),
    ensures
        digits_start_from(v, i) is None,
    decreases v.len() - i,
{
    if i < v.len() {
        lemma_no_digit_start(v, i + 1);
    }
}

/// A text of non-white-space characters is its own trim.
proof fn lemma_trim_solid(d: Seq<char>)
    requires
        d.len() > 0,
        !is_ws(d[0]),
        !is_ws(d.last()),
    ensures
        trim(d) == d,
{
    assert(crate::text::trim_start(d) == d);
    assert(crate::text::trim_end(d) == d);
}

/// `p` does not occur in `s` where `s` is shorter than `p`, or where no
/// position matches it.
proof fn lemma_not_contains(s: Seq<char>, p: Seq<char>)
    requires
        forall|i: int| !#[trigger] occurs_at(s, p, i),
    ensures
        !contains(s, p),
{
    lemma_find_from(s, p, 0);
}

/// A timestamp value is cleaned up as follows: one mentioning `NULL` is
/// `NULL`; one mentioning `null` (and not `NULL`) is the zero time `0`; any
/// other keeps its first run of digits, where no line break follows.
pub proof fn law_clean_timestamp(f: LFieldView, pre: Seq<char>, d: Seq<char>, post: Seq<char>)
    requires
        f.ftype == "TSTAMP"@,
    ensures
        contains(f.value, "NULL"@) ==> clean_value(f) == "NULL"@,
        !contains(f.value, "NULL"@) && contains(f.value, "null"@) ==> clean_value(f) == "0"@,
        ({
            &&& f.value == pre + d + post
            &&& !contains(f.value, "NULL"@)
            &&& !contains(f.value, "null"@)
            &&& forall|j: int| 0 <= j < pre.len() ==> !is_nd(#[trigger] pre[j])
            &&& d.len() > 0
            &&& forall|j: int| 0 <= j < d.len() ==> is_nd(#[trigger] d[j])
            &&& (post.len() > 0 ==> !is_nd(post[0]))
            &&& forall|j: int| 0 <= j < d.len() ==> #[trigger] d[j] != '\n'
            &&& forall|j: int| 0 <= j < post.len() ==> #[trigger] post[j] != '\n'
        }) ==> clean_value(f) == d,
{
    reveal_strlit("TSTAMP");
    reveal_strlit("STR");
    reveal_strlit("NULL");
    reveal_strlit("null");
    reveal_strlit("(0)");
    reveal_strlit("0");
    assert("STR"@.len() != "TSTAMP"@.len());
    let nl = "NULL"@;
    let lo = "null"@;
    assert(!contains(nl, lo)) by {
        assert forall|i: int| !#[trigger] occurs_at(nl, lo, i) by {
            if occurs_at(nl, lo, i) {
                assert(nl.subrange(i, i + lo.len())[0] != lo[0]);
            }
        }
        lemma_not_contains(nl, lo);
    }
    assert(digits_group(nl) is None) by {
        assert forall|j: int| 0 <= j < nl.len() implies !is_nd(#[trigger] nl[j]) by {}
        lemma_no_digit_start(nl, 0);
    }
    let z = "(0)"@;
    assert(!contains(z, lo)) by {
        assert forall|i: int| !#[trigger] occurs_at(z, lo, i) by {}
        lemma_not_contains(z, lo);
    }
    assert(digits_group(z) == Some("0"@)) by {
        assert(!is_nd(z[0]));
        assert(is_nd(z[1]) && no_break_from(z, 1));
        assert(digits_start_from(z, 1) == Some(1int));
        assert(digits_start_from(z, 0) == Some(1int));
        lemma_run_end_at(z, 1, 2, CharClass::Decimal);
        assert(z.subrange(1, 2) =~= "0"@);
    }
    lemma_trim_solid("0"@);
    let v = pre + d + post;
    if f.value == v && d.len() > 0 && (forall|j: int| 0 <= j < pre.len() ==> !is_nd(#[trigger] pre[j]))
        && (forall|j: int| 0 <= j < d.len() ==> is_nd(#[trigger] d[j])) && (post.len() > 0
        ==> !is_nd(post[0])) && (forall|j: int| 0 <= j < d.len() ==> #[trigger] d[j] != '\n')
        && (forall|j: int| 0 <= j < post.len() ==> #[trigger] post[j] != '\n') {
        let a = pre.len() as int;
        let b = a + d.len();
        assert forall|j: int| a <= j < v.len() implies #[trigger] v[j] != '\n' by {
            if j < b {
                assert(v[j] == d[j - a]);
            } else {
                assert(v[j] == post[j - b]);
            }
        }
        assert(v[a] == d[0]);
        assert(digits_start_from(v, a) == Some(a));
        assert forall|j: int| 0 <= j < a implies !is_nd(#[trigger] v[j]) by {
            assert(v[j] == pre[j]);
        }
        lemma_digits_from_back(v, a, a);
        assert(digits_start_from(v, 0) == Some(a));
        assert forall|j: int| a <= j < b implies in_class(CharClass::Decimal, #[trigger] v[j]) by {
            assert(v[j] == d[j - a]);
        }
        if b < v.len() {
            assert(v[b] == post[0]);
        }
        lemma_run_end_at(v, a, b, CharClass::Decimal);
        assert(v.subrange(a, b) =~= d);
        if is_ws(d[0]) {
            lemma_space_not_digit(d[0]);
        }
        if is_ws(d.last()) {
            lemma_space_not_digit(d.last());
        }
        lemma_trim_solid(d);
    }
}

/// Stepping back from `a` over characters that are not digits keeps the
/// digit group starting at `a`.
proof fn lemma_digits_from_back(v: Seq<char>, a: int, i: int)
    requires
        0 <= i <= a < v.len(),
        forall|j: int| 0 <= j < a ==> !is_nd(#[trigger] v[j]),
        digits_start_from(v, a) == Some(a),
    ensures
        digits_start_from(v, a - i) == Some(a),
    decreases i,
{
    if i > 0 {
        lemma_digits_from_back(v, a, i - 1);
        assert(!is_nd(v[a - i]));
    }
}

/// The configured log level names select five different levels; any other
/// name selects `Info`.
pub proof fn law_log_level_names(lower: Seq<char>)
    ensures
        lower == "error"@ ==> level_named(lower) == LogLevel::Error,
        lower == "warn"@ ==> level_named(lower) == LogLevel::Warn,
        lower == "info"@ ==> level_named(lower) == LogLevel::Info,
        lower == "debug"@ ==> level_named(lower) == LogLevel::Debug,
        lower == "trace"@ ==> level_named(lower) == LogLevel::Trace,
        lower != "error"@ && lower != "warn"@ && lower != "debug"@ && lower != "trace"@
            ==> level_named(lower) == LogLevel::Info,
{
    reveal_strlit("error");
    reveal_strlit("warn");
    reveal_strlit("info");
    reveal_strlit("debug");
    reveal_strlit("trace");
    assert("error"@[0] == 'e' && "warn"@[0] == 'w' && "info"@[0] == 'i' && "debug"@[0] == 'd'
        && "trace"@[0] == 't');
}

/// A failed call stack request is the client's fault (400) unless the
/// report could not be packed (500); where an error came with it, the
/// message ends with that error's text.
pub proof fn law_call_stack_failures(stage: CallStackStage, error: Seq<char>)
    ensures
        ({
            let (status, message, details) = call_stack_failure_spec(stage, error);
            &&& (stage == CallStackStage::Package) <==> (status == HttpStatus::InternalServerError)
            &&& stage != CallStackStage::Package ==> status == HttpStatus::BadRequest
            &&& stage != CallStackStage::NoUpload ==> has_suffix(message, error)
        }),
{
    let (status, message, details) = call_stack_failure_spec(stage, error);
    if stage != CallStackStage::NoUpload {
        let k = message.len() - error.len();
        assert(message.subrange(k, message.len() as int) =~= error);
    }
}

/// Reading a line of a class specification. A blank line, or one with
/// fewer than two `|`-separated parts, changes nothing. A line starting with
/// `/` that has another `/` or a `->` starts a new class with the trimmed
/// type and description and no fields. Any other line is a field line and
/// its tab count says where the field goes: one tab makes it the current
/// top-level field and adds it (counted) where that name is new; two tabs
/// make it the current first-level field and add it below the current
/// top-level one, if there is one; three tabs add it below the current
/// first-level field, if both current fields exist; any other count
/// changes nothing.
pub proof fn law_class_line(t: Seq<FieldView>, m: ClassModel, line: Seq<char>)
    ensures
        ({
            let r = class_line_step(t, m, line);
            let parts = split(line, seq!['|']);
            let second = split(parts[1], "->"@);
            let name = trim(parts[0]);
            let fld = field_podl_spec(t, parts[0], second);
            let depth = leading_tabs(line);
            if all_ws(line) || parts.len() < 2 {
                r == m
            } else if first_char(line) == '/' {
                &&& (count_char(line, '/') > 1 || second.len() > 1) ==> r == ClassModel {
                    type_str: trim(parts[0]),
                    descr: trim(second[0]),
                    no_of_fields: 0,
                    fields: Seq::empty(),
                    lvl0: Seq::empty(),
                    lvl1: Seq::empty(),
                    lvl2: Seq::empty(),
                    cur0: m.cur0,
                    cur1: m.cur1,
                }
                &&& !(count_char(line, '/') > 1 || second.len() > 1) ==> r == m
            } else {
                &&& depth == 1 && m.lvl0.contains(name) ==> r == ClassModel { cur0: name, ..m }
                &&& depth == 1 && !m.lvl0.contains(name) ==> r == ClassModel {
                    cur0: name,
                    no_of_fields: m.no_of_fields + 1,
                    fields: m.fields.push(FieldLevel1 { field: fld, nested: Seq::empty() }),
                    lvl0: m.lvl0.push(name),
                    ..m
                }
                &&& depth == 2 && m.cur0 == "None"@ ==> r == ClassModel { cur1: name, ..m }
                &&& depth == 2 && m.cur0 != "None"@ ==> r == add_nested1(
                    ClassModel { cur1: name, ..m },
                    m.cur0,
                    name,
                    fld,
                )
                &&& depth == 3 && m.cur0 != "None"@ && m.cur1 != "None"@ ==> r == add_nested2(
                    m,
                    m.cur0,
                    m.cur1,
                    name,
                    fld,
                )
                &&& depth == 3 && (m.cur0 == "None"@ || m.cur1 == "None"@) ==> r == m
                &&& (depth == 0 || depth > 3) ==> r == m
            }
        }),
{
}

/// The decimal text of `n` is all digits, and their value is `n`.
proof fn lemma_nat_str_digits(n: nat)
    ensures
        nat_str(n).len() > 0,
        all_digits(nat_str(n)),
        digits_value(nat_str(n)) == n,
    decreases n,
{
    if n < 10 {
        assert(nat_str(n).drop_last() =~= Seq::<char>::empty());
        assert(digit_char(n) as u32 == n + 48);
        assert(digits_value(Seq::<char>::empty()) == 0);
        assert(digits_value(nat_str(n)) == digits_value(nat_str(n).drop_last()) * 10
            + crate::number::digit_value(nat_str(n).last()));
    } else {
        lemma_nat_str_digits(n / 10);
        let d = nat_str(n);
        assert(d.drop_last() =~= nat_str(n / 10));
        assert(digit_char(n % 10) as u32 == n % 10 + 48);
        assert((n / 10) * 10 + n % 10 == n) by (nonlinear_arith);
        assert(digits_value(d) == digits_value(nat_str(n / 10)) * 10 + (n % 10));
        assert forall|i: int| 0 <= i < d.len() implies crate::number::is_digit(#[trigger] d[i]) by {
            if i < d.len() - 1 {
                assert(d[i] == nat_str(n / 10)[i]);
            }
        }
    }
}

/// Parsing reads back what printing writes: the decimal text of any integer
/// in range parses to that integer.
pub proof fn law_parse_printed(i: int, lo: int, hi: int)
    requires
        lo <= i <= hi,
    ensures
        parse_int(int_str(i), lo, hi) == Some(i),
{
    if i < 0 {
        let m = (-i) as nat;
        lemma_nat_str_digits(m);
        assert((seq!['-'] + nat_str(m)).drop_first() =~= nat_str(m));
    } else {
        lemma_nat_str_digits(i as nat);
        let d = nat_str(i as nat);
        assert(crate::number::is_digit(d[0]));
    }
}

/// An array line opens an element named after the field with its index as
/// the `elem` attribute, a substruct line one without attributes, each on a
/// line of its own at the indentation before it, which then grows by a tab.
pub proof fn law_xml_container_open(s: FlistState)
    requires
        s.cur_field.ftype == "ARRAY"@ || s.cur_field.ftype == "SUBSTRUCT"@,
    ensures
        ({
            let r = add_xml_spec(s);
            let f = s.cur_field;
            let before = r.tab.drop_last();
            &&& r.tab.len() > 0 && r.tab.last() == '\t'
            &&& f.ftype == "ARRAY"@ ==> has_suffix(
                r.xml_code,
                before + "<"@ + f.name + " elem=\""@ + f.arr_idx + "\">\n"@,
            )
            &&& f.ftype == "SUBSTRUCT"@ ==> has_suffix(r.xml_code, before + "<"@ + f.name + ">\n"@)
        }),
{
    reveal_strlit("ARRAY");
    reveal_strlit("SUBSTRUCT");
    reveal_strlit("\t");
    let t = s.cur_field.ftype;
    let r = add_xml_spec(s);
    let f = s.cur_field;
    let n = crate::flist::xml_close_count(s);
    let s1 = if n > 0 {
        crate::flist::close_tags(s, n as nat)
    } else {
        s
    };
    assert(r.tab =~= s1.tab + "\t"@);
    assert(r.tab.drop_last() =~= s1.tab);
    if t == "ARRAY"@ {
        assert(t.take(5) =~= "ARRAY"@);
        let o = s1.tab + "<"@ + f.name + " elem=\""@ + f.arr_idx + "\">\n"@;
        assert(r.xml_code == s1.xml_code + o);
        assert(r.xml_code.subrange(r.xml_code.len() - o.len(), r.xml_code.len() as int) =~= o);
    } else {
        assert(!has_prefix(t, "ARRAY"@)) by {
            if has_prefix(t, "ARRAY"@) {
                assert(t.take(5)[0] == t[0]);
                assert("SUBSTRUCT"@[0] != "ARRAY"@[0]);
            }
        }
        let o = s1.tab + "<"@ + f.name + ">\n"@;
        assert(r.xml_code == s1.xml_code + o);
        assert(r.xml_code.subrange(r.xml_code.len() - o.len(), r.xml_code.len() as int) =~= o);
    }
}

/// A field specification line `name|description|type|id` (more parts are
/// ignored) becomes a block headed by a banner naming the field, declaring
/// the field with its type, ID and description, all trimmed; a line of fewer
/// parts becomes a comment quoting it.
pub proof fn law_fld_spec_block(ps: Seq<Seq<char>>)
    requires
        ps.len() >= 1,
        forall|k: int| 0 <= k < ps.len() ==> free_of(#[trigger] ps[k], '|'),
    ensures
        ps.len() >= 4 ==> fld_spec_block(join(ps, seq!['|'])) == "#=======================================\n#  Field "@
            + trim(ps[0]) + "\n#=======================================\n\n"@ + trim(ps[2]) + " "@
            + trim(ps[0]) + " {\n\tID = "@ + trim(ps[3]) + ";\n\tDESCR = "@ + trim(ps[1])
            + ";\n}\n"@,
        ps.len() < 4 ==> fld_spec_block(join(ps, seq!['|'])) == "# Invalid line format: "@ + join(
            ps,
            seq!['|'],
        ) + "\n"@,
{
    law_split_join(ps, '|');
}

/// A conversion request is refused for the first thing missing, in this
/// order: a session id, a request body, loaded fields; with all three it
/// goes through.
pub proof fn law_request_refusal(t_len: nat, session_id: Seq<char>, body: Seq<char>)
    ensures
        blank(session_id) ==> request_refusal(t_len, session_id, body) == Some(
            "Session ID cannot be empty"@,
        ),
        !blank(session_id) && blank(body) ==> request_refusal(t_len, session_id, body) == Some(
            "Request body cannot be empty"@,
        ),
        !blank(session_id) && !blank(body) && t_len == 0 ==> request_refusal(t_len, session_id, body)
            == Some("Please load BRM fields first using the load_obrm_fields endpoint"@),
        !blank(session_id) && !blank(body) && t_len > 0 ==> request_refusal(
            t_len,
            session_id,
            body,
        ) is None,
{
}

} // verus!
