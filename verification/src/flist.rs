//! Conversion of an FLIST dump into the C code that builds it with the BRM
//! `PIN_FLIST_*` macros, and into XML.
use vstd::prelude::*;
use vstd::string::*;

use crate::lfield::{level_parses, line_level_ok, set_field_spec, LField, LFieldView};
use crate::number::{digit_char, digit_of, digit_to_char, digit_value, int_chars, int_str, is_digit, is_digit_char};
use crate::text::{
    chars_are, chars_of, contains, contains_chars, has_prefix, last_string, lines, lines_chars,
    lowercase, pop_char, pop_string, push_char, push_chars, push_string, replace, replace_chars,
    replace_str, starts_with_chars, str_views, string_of, strings_contain, to_lowercase, char_views,
    run_lines, run_lines_ok, lemma_run_lines_ok_prefix, lemma_run_lines_step, ascii_lowered,
    is_ascii_text,
};

verus! {

/// What a `Flist2Code` converter holds.
#[verifier::ext_equal]
pub struct FlistState {
    pub cur_flistp: Seq<char>,
    pub prev_flistp: Seq<char>,
    pub cur_field: LFieldView,
    pub tab: Seq<char>,
    pub vars: Seq<char>,
    pub code: Seq<char>,
    pub c_code: Seq<char>,
    pub xml_code: Seq<char>,
    pub json_code: Seq<char>,
    pub cur_level: i8,
    pub xml_tag_stack: Seq<Seq<char>>,
    pub json_tag_stack: Seq<Seq<char>>,
    pub var_list: Seq<Seq<char>>,
    pub code_list: Seq<Seq<char>>,
    pub vname_list: Seq<Seq<char>>,
    pub flname_list: Seq<Seq<char>>,
    pub flname_with_level_list: Seq<Seq<char>>,
}

/// State of the FLIST converter: the flist variables opened so far, the C
/// declarations and statements produced, and the XML produced.
#[derive(Debug)]
pub struct Flist2Code {
    pub cur_flistp: String,
    pub prev_flistp: String,
    pub cur_field: LField,
    pub tab: String,
    pub vars: String,
    pub code: String,
    pub c_code: String,
    pub xml_code: String,
    pub json_code: String,
    pub cur_level: i8,
    pub xml_tag_stack: Vec<String>,
    pub json_tag_stack: Vec<String>,
    pub var_list: Vec<String>,
    pub code_list: Vec<String>,
    pub vname_list: Vec<String>,
    pub flname_list: Vec<String>,
    pub flname_with_level_list: Vec<String>,
}

impl View for Flist2Code {
    type V = FlistState;

    open spec fn view(&self) -> FlistState {
        FlistState {
            cur_flistp: self.cur_flistp@,
            prev_flistp: self.prev_flistp@,
            cur_field: self.cur_field@,
            tab: self.tab@,
            vars: self.vars@,
            code: self.code@,
            c_code: self.c_code@,
            xml_code: self.xml_code@,
            json_code: self.json_code@,
            cur_level: self.cur_level,
            xml_tag_stack: str_views(self.xml_tag_stack@),
            json_tag_stack: str_views(self.json_tag_stack@),
            var_list: str_views(self.var_list@),
            code_list: str_views(self.code_list@),
            vname_list: str_views(self.vname_list@),
            flname_list: str_views(self.flname_list@),
            flname_with_level_list: str_views(self.flname_with_level_list@),
        }
    }
}

/// The state of a fresh converter.
pub open spec fn initial_state() -> FlistState {
    FlistState {
        cur_flistp: "s_flistp"@,
        prev_flistp: "s_flistp"@,
        cur_field: LFieldView {
            level: 0,
            name: Seq::empty(),
            ftype: Seq::empty(),
            value: Seq::empty(),
            arr_idx: "0"@,
        },
        tab: Seq::empty(),
        vars: Seq::empty(),
        code: Seq::empty(),
        c_code: Seq::empty(),
        xml_code: Seq::empty(),
        json_code: Seq::empty(),
        cur_level: 0,
        xml_tag_stack: Seq::empty(),
        json_tag_stack: Seq::empty(),
        var_list: Seq::empty(),
        code_list: Seq::empty(),
        vname_list: Seq::empty(),
        flname_list: Seq::empty(),
        flname_with_level_list: Seq::empty(),
    }
}

// ------------------------------------------------------------------
// Variable names
// ------------------------------------------------------------------

/// A field name in lower case without its `pin_fld_` prefix (or infix).
pub open spec fn short_name(s: Seq<char>) -> Seq<char> {
    replace(lowercase(s), "pin_fld_"@, Seq::empty())
}

/// The C variable for an flist field: `<short name>_flistp`.
pub open spec fn flist_var_name(flname: Seq<char>) -> Seq<char> {
    short_name(flname) + "_flistp"@
}

/// The short name of an ASCII field name: lowered, `pin_fld_` taken out.
pub open spec fn ascii_short_name(s: Seq<char>) -> Seq<char> {
    replace(ascii_lowered(s), "pin_fld_"@, Seq::empty())
}

/// The C variable for a plain field: `<type in lower case>_<short name>`.
pub open spec fn var_name(vname: Seq<char>, dtype: Seq<char>) -> Seq<char> {
    lowercase(dtype) + "_"@ + short_name(vname)
}

/// A variable name with the level put before `flistp`.
pub open spec fn with_level(name: Seq<char>, lvl: i8) -> Seq<char> {
    replace(name, "flistp"@, int_str(lvl as int) + "_flistp"@)
}

/// The C type of a BRM type, by the type's first letter.
pub open spec fn brm_dtype(c: Seq<char>) -> Option<Seq<char>> {
    if c == "F"@ {
        Some("pin_flist_t"@)
    } else if c == "P"@ {
        Some("poid_t"@)
    } else if c == "S"@ {
        Some("char"@)
    } else if c == "E"@ {
        Some("u_int"@)
    } else if c == "I"@ {
        Some("int32"@)
    } else if c == "D"@ {
        Some("pin_decimal_t"@)
    } else if c == "T"@ {
        Some("time_t"@)
    } else {
        None
    }
}

/// The first character of `s` as a string (empty for an empty `s`).
pub open spec fn first_char_str(s: Seq<char>) -> Seq<char> {
    if s.len() > 0 {
        seq![s[0]]
    } else {
        Seq::empty()
    }
}

/// A name whose last character, a digit, is raised by one.
pub open spec fn bump_last_digit(name: Seq<char>) -> Seq<char> {
    if name.len() > 0 && is_digit(name.last()) {
        name.drop_last().push(digit_char(digit_value(name.last()) + 1))
    } else {
        name
    }
}

/// The variable name first proposed for a plain field.
pub open spec fn plain_name0(fname: Seq<char>, ftype: Seq<char>, lvl: i8) -> Seq<char> {
    var_name(fname, ftype) + int_str(lvl as int)
}

/// The variable name that a plain field gets: the proposed one, or, if
/// that is taken, the same with its last digit raised by one.
pub open spec fn plain_name(s: FlistState, fname: Seq<char>, ftype: Seq<char>, lvl: i8) -> Seq<
    char,
> {
    let name0 = plain_name0(fname, ftype, lvl);
    if s.var_list.contains(name0) {
        bump_last_digit(name0)
    } else {
        name0
    }
}

/// A plain field can be declared: its type has a C type, and a taken name
/// does not end in `9`.
pub open spec fn plain_ok(s: FlistState, fname: Seq<char>, ftype: Seq<char>, lvl: i8) -> bool {
    let name0 = plain_name0(fname, ftype, lvl);
    &&& brm_dtype(first_char_str(ftype)) is Some
    &&& s.var_list.contains(name0) ==> name0.last() != '9'
}

/// The separator, pointer mark and initial value of a plain declaration.
pub open spec fn plain_parts(fvalue: Seq<char>, ftype: Seq<char>) -> (Seq<char>, Seq<char>, Seq<
    char,
>) {
    let fc = first_char_str(ftype);
    if fc == "T"@ {
        ("\t\t\t"@, Seq::empty(), replace(replace(fvalue, "("@, Seq::empty()), ")"@, Seq::empty())
            + "L"@)
    } else if fc == "D"@ {
        ("\t\t"@, "*"@, "pbo_decimal_from_str(\""@ + fvalue + "\", ebufp)"@)
    } else if fc == "I"@ || fc == "E"@ {
        ("\t\t\t"@, Seq::empty(), fvalue)
    } else {
        ("\t\t"@, Seq::empty(), fvalue)
    }
}

/// The converter after declaring a plain field variable.
pub open spec fn add_plain(
    s: FlistState,
    fname: Seq<char>,
    fvalue: Seq<char>,
    ftype: Seq<char>,
    lvl: i8,
) -> FlistState {
    let name = plain_name(s, fname, ftype, lvl);
    let (sep, ptr, value) = plain_parts(fvalue, ftype);
    let dtype = brm_dtype(first_char_str(ftype)).unwrap();
    FlistState {
        vars: s.vars + s.tab + dtype + sep + ptr + name + " = "@ + value + ";\n"@,
        var_list: s.var_list.push(name),
        ..s
    }
}

/// The variable of an flist field at a level.
pub open spec fn flist_level_name(fname: Seq<char>, lvl: i8) -> Seq<char> {
    with_level(flist_var_name(fname), lvl)
}

/// The converter after declaring an flist variable (once per name).
pub open spec fn add_flist_var(s: FlistState, fname: Seq<char>, lvl: i8) -> FlistState {
    let name = flist_level_name(fname, lvl);
    if s.flname_with_level_list.contains(name) {
        s
    } else {
        FlistState {
            vars: s.vars + s.tab + "pin_flist_t\t\t*"@ + name + " = NULL;\n"@,
            flname_list: s.flname_list.push(name),
            flname_with_level_list: s.flname_with_level_list.push(name),
            ..s
        }
    }
}

/// How many open flists to close when going back to level `lvl`: the
/// `i8` arithmetic `(len as i8) - lvl - 1`.
pub open spec fn close_count(len: int, lvl: i8) -> int {
    ((len as i8) as int) - lvl - 1
}

/// Going back to level `lvl` neither overflows nor empties the flist list.
pub open spec fn unwind_ok(s: FlistState, lvl: i8) -> bool {
    let t = (s.flname_list.len() as i8) as int;
    let n = t - lvl - 1;
    &&& -128 <= t - lvl <= 127
    &&& -128 <= n
    &&& (if n > 0 {
        n
    } else {
        0
    }) < s.flname_list.len()
}

/// The converter after going back to level `lvl`: the innermost open flists
/// closed, the new innermost one as the parent.
pub open spec fn unwind(s: FlistState, lvl: i8) -> FlistState {
    let n = close_count(s.flname_list.len() as int, lvl);
    let k = if n > 0 {
        n
    } else {
        0
    };
    let l = s.flname_list.take(s.flname_list.len() - k);
    FlistState { flname_list: l, prev_flistp: l.last(), ..s }
}

/// The first part of `add_code`: the effect of the field's type on the
/// state, the macro to use, and the value to set.
pub open spec fn code_prepare(s: FlistState) -> (FlistState, Seq<char>, Seq<char>) {
    let f = s.cur_field;
    let t = f.ftype;
    let lvl = f.level;
    if t == "TSTAMP"@ || t == "INT"@ || t == "ENUM"@ {
        (
            add_plain(s, f.name, f.value, t, lvl),
            "PIN_FLIST_FLD_SET"@,
            "&"@ + plain_name(s, f.name, t, lvl),
        )
    } else if t == "DECIMAL"@ {
        (add_plain(s, f.name, f.value, t, lvl), "PIN_FLIST_FLD_PUT"@, plain_name(s, f.name, t, lvl))
    } else if t == "ARRAY"@ || t == "SUBSTRUCT"@ {
        let mac = if has_prefix(t, "ARRAY"@) {
            "PIN_FLIST_ELEM_ADD"@
        } else {
            "PIN_FLIST_SUBSTR_ADD"@
        };
        let vname = var_name(f.name, t);
        let s1 = if s.cur_level >= lvl {
            let u = unwind(s, lvl);
            add_flist_var(FlistState { code: u.code + "\n"@, ..u }, vname, lvl)
        } else {
            FlistState { prev_flistp: s.cur_flistp, ..add_flist_var(s, vname, lvl) }
        };
        (FlistState { cur_flistp: flist_level_name(vname, lvl), cur_level: lvl, ..s1 }, mac, Seq::empty())
    } else if t == "POID"@ {
        if !contains(f.value, "NULL"@) {
            (s, "PIN_FLIST_FLD_PUT"@, "PIN_POID_FROM_STR(\""@ + f.value + "\", NULL, ebufp)"@)
        } else {
            (s, "PIN_FLIST_FLD_SET"@, f.value)
        }
    } else {
        (s, "PIN_FLIST_FLD_SET"@, f.value)
    }
}

/// The first part of `add_code` does not fail.
pub open spec fn code_prepare_ok(s: FlistState) -> bool {
    let f = s.cur_field;
    let t = f.ftype;
    if t == "TSTAMP"@ || t == "INT"@ || t == "ENUM"@ || t == "DECIMAL"@ {
        plain_ok(s, f.name, t, f.level)
    } else if t == "ARRAY"@ || t == "SUBSTRUCT"@ {
        s.cur_level >= f.level ==> unwind_ok(s, f.level)
    } else {
        true
    }
}

/// The second part of `add_code`: the statement that it emits.
pub open spec fn code_emit(s1: FlistState, mac: Seq<char>, value: Seq<char>) -> FlistState {
    let f = s1.cur_field;
    let t = f.ftype;
    if has_prefix(t, "ARRAY"@) {
        let idx = if f.arr_idx == "*"@ {
            "PIN_ELEMID_ANY"@
        } else {
            f.arr_idx
        };
        FlistState {
            code: s1.code + s1.tab + s1.cur_flistp + " = "@ + mac + "("@ + s1.prev_flistp + ", "@
                + f.name + ", "@ + idx + ", ebufp);\n"@,
            ..s1
        }
    } else if has_prefix(t, "SUBSTRUCT"@) {
        FlistState {
            code: s1.code + s1.tab + s1.cur_flistp + " = "@ + mac + "("@ + s1.prev_flistp + ", "@
                + f.name + ", ebufp);\n"@,
            ..s1
        }
    } else {
        let s2 = if s1.cur_level > f.level {
            let u = unwind(s1, f.level);
            FlistState { cur_flistp: u.flname_list.last(), ..u }
        } else {
            s1
        };
        FlistState {
            code: s2.code + s2.tab + mac + "("@ + s2.cur_flistp + ", "@ + f.name + ", "@ + value
                + ", ebufp);\n"@,
            ..s2
        }
    }
}

/// The second part of `add_code` does not fail.
pub open spec fn code_emit_ok(s1: FlistState) -> bool {
    let f = s1.cur_field;
    let t = f.ftype;
    (!has_prefix(t, "ARRAY"@) && !has_prefix(t, "SUBSTRUCT"@) && s1.cur_level > f.level)
        ==> unwind_ok(s1, f.level)
}

/// `add_code` does not fail on this state.
pub open spec fn add_code_ok(s: FlistState) -> bool {
    let (s1, mac, value) = code_prepare(s);
    code_prepare_ok(s) && code_emit_ok(s1)
}

/// The converter after emitting the C code for its current field.
pub open spec fn add_code_spec(s: FlistState) -> FlistState {
    let (s1, mac, value) = code_prepare(s);
    code_emit(s1, mac, value)
}

/// The converter after reading one line.
pub open spec fn read_line_into(s: FlistState, line: Seq<char>) -> FlistState {
    FlistState { cur_field: set_field_spec(s.cur_field, line), ..s }
}

/// One line of C conversion: read the line, emit its code.
pub open spec fn code_step(s: FlistState, line: Seq<char>) -> FlistState {
    add_code_spec(read_line_into(s, line))
}

/// One line of C conversion does not fail.
pub open spec fn code_step_ok(s: FlistState, line: Seq<char>) -> bool {
    line_level_ok(line) && add_code_ok(read_line_into(s, line))
}

/// The converter after C conversion of a sequence of lines.
pub open spec fn code_run(s: FlistState, ls: Seq<Seq<char>>) -> FlistState {
    run_lines(s, ls, |t: FlistState, l: Seq<char>| code_step(t, l))
}

/// C conversion of a sequence of lines does not fail.
pub open spec fn code_run_ok(s: FlistState, ls: Seq<Seq<char>>) -> bool {
    run_lines_ok(
        s,
        ls,
        |t: FlistState, l: Seq<char>| code_step(t, l),
        |t: FlistState, l: Seq<char>| code_step_ok(t, l),
    )
}

/// The converter after starting a C conversion of `flist_name`.
pub open spec fn code_start(s: FlistState, flist_name: Seq<char>) -> FlistState {
    let tab = if has_prefix(flist_name, "s_flistp"@) {
        "\t"@
    } else {
        Seq::empty()
    };
    FlistState {
        tab: tab,
        code: tab + flist_name + " = PIN_FLIST_CREATE(ebufp);\n"@,
        vars: s.vars + tab + "pin_flist_t\t\t*"@ + flist_name + " = NULL;\n"@,
        cur_flistp: flist_name,
        flname_list: s.flname_list.push(flist_name),
        flname_with_level_list: s.flname_with_level_list.push(flist_name + "-0"@),
        ..s
    }
}

/// The converter after a whole C conversion.
pub open spec fn ccode_spec(s: FlistState, text: Seq<char>, flist_name: Seq<char>) -> FlistState {
    let r = code_run(code_start(s, flist_name), lines(text));
    FlistState { c_code: r.c_code + r.vars + "\n"@ + r.code, ..r }
}

/// A whole C conversion does not fail.
pub open spec fn ccode_ok(s: FlistState, text: Seq<char>, flist_name: Seq<char>) -> bool {
    code_run_ok(code_start(s, flist_name), lines(text))
}

/// A tab string with its last character removed (if any).
pub open spec fn pop_tab(t: Seq<char>) -> Seq<char> {
    if t.len() > 0 {
        t.drop_last()
    } else {
        t
    }
}

/// The converter after closing the innermost open XML element.
pub open spec fn close_tag(s: FlistState) -> FlistState {
    let tab = pop_tab(s.tab);
    FlistState {
        tab: tab,
        xml_tag_stack: s.xml_tag_stack.drop_last(),
        xml_code: s.xml_code + tab + "</"@ + s.xml_tag_stack.last() + ">\n"@,
        ..s
    }
}

/// The converter after closing the `k` innermost open XML elements.
pub open spec fn close_tags(s: FlistState, k: nat) -> FlistState
    decreases k,
{
    if k == 0 {
        s
    } else {
        close_tag(close_tags(s, (k - 1) as nat))
    }
}

/// Closing `k` elements removes `k` entries of the element stack and keeps
/// the current field and the C side.
pub proof fn lemma_close_tags(s: FlistState, k: nat)
    requires
        k <= s.xml_tag_stack.len(),
    ensures
        close_tags(s, k).xml_tag_stack == s.xml_tag_stack.take(s.xml_tag_stack.len() - k),
        close_tags(s, k).cur_field == s.cur_field,
        close_tags(s, k).cur_level == s.cur_level,
    decreases k,
{
    if k > 0 {
        lemma_close_tags(s, (k - 1) as nat);
        assert(s.xml_tag_stack.take(s.xml_tag_stack.len() - (k - 1)).drop_last()
            =~= s.xml_tag_stack.take(s.xml_tag_stack.len() - k));
    }
}

/// How many XML elements an array or substruct line closes first.
pub open spec fn xml_close_count(s: FlistState) -> int {
    let lvl = s.cur_field.level;
    if s.cur_level >= lvl && s.xml_tag_stack.len() > 1 {
        close_count(s.xml_tag_stack.len() as int, lvl)
    } else {
        0
    }
}

/// The converter after emitting the XML for its current field: an array or
/// substruct closes deeper elements and opens its own; any other field is
/// one element holding its value (a string value without `"`).
pub open spec fn add_xml_spec(s: FlistState) -> FlistState {
    let f = s.cur_field;
    let t = f.ftype;
    if t == "ARRAY"@ || t == "SUBSTRUCT"@ {
        let n = xml_close_count(s);
        let s1 = if n > 0 {
            close_tags(s, n as nat)
        } else {
            s
        };
        let open = if has_prefix(t, "ARRAY"@) {
            s1.tab + "<"@ + f.name + " elem=\""@ + f.arr_idx + "\">\n"@
        } else {
            s1.tab + "<"@ + f.name + ">\n"@
        };
        FlistState {
            xml_code: s1.xml_code + open,
            tab: s1.tab + "\t"@,
            cur_level: f.level,
            xml_tag_stack: s1.xml_tag_stack.push(f.name),
            ..s1
        }
    } else {
        let v = if has_prefix(t, "STR"@) {
            replace(f.value, "\""@, Seq::empty())
        } else {
            f.value
        };
        FlistState {
            xml_code: s.xml_code + s.tab + "<"@ + f.name + ">"@ + v + "</"@ + f.name + ">\n"@,
            ..s
        }
    }
}

/// `add_xml_element` does not fail on this state: closing elements neither
/// overflows the `i8` count nor empties the element stack.
pub open spec fn add_xml_ok(s: FlistState) -> bool {
    let f = s.cur_field;
    let t = f.ftype;
    let lvl = f.level;
    let len = s.xml_tag_stack.len();
    let tt = (len as i8) as int;
    ((t == "ARRAY"@ || t == "SUBSTRUCT"@) && s.cur_level >= lvl && len > 1) ==> {
        &&& -128 <= tt - lvl <= 127
        &&& -128 <= tt - lvl - 1
        &&& tt - lvl - 1 <= len
    }
}

/// One line of XML conversion: read the line, emit its XML.
pub open spec fn xml_step(s: FlistState, line: Seq<char>) -> FlistState {
    add_xml_spec(read_line_into(s, line))
}

/// One line of XML conversion does not fail.
pub open spec fn xml_step_ok(s: FlistState, line: Seq<char>) -> bool {
    line_level_ok(line) && add_xml_ok(read_line_into(s, line))
}

/// The converter after starting an XML conversion.
pub open spec fn xml_start(s: FlistState) -> FlistState {
    FlistState {
        xml_tag_stack: s.xml_tag_stack.push("FLIST"@),
        xml_code: s.xml_code + "<flist>\n"@,
        tab: "\t"@,
        ..s
    }
}

/// The converter after closing every element but the outermost and the
/// `flist` root.
pub open spec fn xml_finish(s: FlistState) -> FlistState {
    let n = s.xml_tag_stack.len();
    let s1 = if n > 1 {
        close_tags(s, (n - 1) as nat)
    } else {
        s
    };
    FlistState { xml_code: s1.xml_code + "</flist>\n"@, ..s1 }
}

/// The converter after a whole XML conversion.
pub open spec fn xml_spec(s: FlistState, text: Seq<char>) -> FlistState {
    xml_finish(
        run_lines(xml_start(s), lines(text), |t: FlistState, l: Seq<char>| xml_step(t, l)),
    )
}

/// A whole XML conversion does not fail.
pub open spec fn xml_ok(s: FlistState, text: Seq<char>) -> bool {
    run_lines_ok(
        xml_start(s),
        lines(text),
        |t: FlistState, l: Seq<char>| xml_step(t, l),
        |t: FlistState, l: Seq<char>| xml_step_ok(t, l),
    )
}

impl Flist2Code {
    /// A fresh converter, for the flist `s_flistp`.
    pub fn new() -> (r: Flist2Code)
        ensures
            r@ == initial_state(),
    {
        let r = Flist2Code {
            cur_flistp: String::from_str("s_flistp"),
            prev_flistp: String::from_str("s_flistp"),
            code: String::new(),
            vars: String::new(),
            c_code: String::new(),
            xml_code: String::new(),
            json_code: String::new(),
            tab: String::new(),
            cur_level: 0,
            cur_field: LField::new(),
            xml_tag_stack: Vec::new(),
            json_tag_stack: Vec::new(),
            var_list: Vec::new(),
            code_list: Vec::new(),
            vname_list: Vec::new(),
            flname_list: Vec::new(),
            flname_with_level_list: Vec::new(),
        };
        assert(r@ =~= initial_state());
        r
    }

    /// The C variable for an flist field.
    pub fn get_flist_var_name(&mut self, flname: &str) -> (r: String)
        ensures
            r@ == flist_var_name(flname@),
            is_ascii_text(flname@) ==> r@ == ascii_short_name(flname@) + "_flistp"@,
            final(self)@ == old(self)@,
    {
        let lower = to_lowercase(flname);
        proof {
            reveal_strlit("pin_fld_");
            reveal_strlit("");
            assert(""@ =~= Seq::<char>::empty());
        }
        let mut r = replace_str(lower.as_str(), "pin_fld_", "");
        r.append("_flistp");
        r
    }

    /// The C variable for a plain field of type `dtype`.
    pub fn get_var_name(&mut self, vname: &str, dtype: &str) -> (r: String)
        ensures
            r@ == var_name(vname@, dtype@),
            is_ascii_text(dtype@) ==> r@ == ascii_lowered(dtype@) + "_"@ + short_name(vname@),
            is_ascii_text(vname@) && is_ascii_text(dtype@) ==> r@ == ascii_lowered(dtype@) + "_"@
                + ascii_short_name(vname@),
            final(self)@ == old(self)@,
    {
        var_name_of(vname, dtype)
    }

    /// Read an FLIST line into the current field.
    pub fn set_cur_field(&mut self, line: String)
        requires
            line_level_ok(line@),
        ensures
            final(self)@ == read_line_into(old(self)@, line@),
    {
        self.cur_field.set_field(line);
    }

    /// Declare the C variable of a plain (non-flist) field and return its
    /// name.
    #[verifier::rlimit(40)]
    pub fn add_non_flist_variables(
        &mut self,
        field_name: String,
        field_value: String,
        field_type: String,
        field_level: &i8,
    ) -> (r: String)
        requires
            plain_ok(old(self)@, field_name@, field_type@, *field_level),
        ensures
            r@ == plain_name(old(self)@, field_name@, field_type@, *field_level),
            final(self)@ == add_plain(
                old(self)@,
                field_name@,
                field_value@,
                field_type@,
                *field_level,
            ),
    {
        let ghost s0 = self@;
        let base = self.get_var_name(field_name.as_str(), field_type.as_str());
        let mut name = chars_of(base.as_str());
        let lv = int_chars(*field_level as i64);
        push_chars_vec(&mut name, &lv);
        assert(name@ == plain_name0(field_name@, field_type@, *field_level));
        let ty = chars_of(field_type.as_str());
        let fc: Vec<char> = if ty.len() > 0 {
            vec![ty[0]]
        } else {
            Vec::new()
        };
        assert(fc@ == first_char_str(field_type@));
        let dtype = c_type_of(&fc);
        let fv = chars_of(field_value.as_str());
        let sep: &str;
        let ptr: &str;
        let value: Vec<char>;
        if chars_are(&fc, "T") {
            sep = "\t\t\t";
            ptr = "";
            proof {
                reveal_strlit("(");
                reveal_strlit(")");
                reveal_strlit("");
                assert(""@ =~= Seq::<char>::empty());
            }
            let a = replace_chars(&fv, &chars_of("("), &chars_of(""));
            let mut b = replace_chars(&a, &chars_of(")"), &chars_of(""));
            b.push('L');
            value = b;
            proof {
                reveal_strlit("L");
                assert(seq!['L'] =~= "L"@);
            }
        } else if chars_are(&fc, "D") {
            sep = "\t\t";
            ptr = "*";
            let mut b = chars_of("pbo_decimal_from_str(\"");
            push_chars_vec(&mut b, &fv);
            push_chars_vec(&mut b, &chars_of("\", ebufp)"));
            value = b;
        } else if chars_are(&fc, "I") || chars_are(&fc, "E") {
            sep = "\t\t\t";
            ptr = "";
            value = fv;
        } else {
            sep = "\t\t";
            ptr = "";
            value = fv;
        }
        proof {
            reveal_strlit("");
            assert(""@ =~= Seq::<char>::empty());
        }
        assert((sep@, ptr@, value@) == plain_parts(field_value@, field_type@));
        let name_str = string_of(&name);
        let taken = strings_contain(&self.var_list, &name_str);
        if taken {
            let n = name.len();
            proof {
                reveal_strlit("_");
            }
            assert(n > 0);
            let last = name[n - 1];
            if is_digit_char(last) {
                let d = digit_of(last);
                name.pop();
                name.push(digit_to_char(d + 1));
            }
        }
        assert(name@ == plain_name(s0, field_name@, field_type@, *field_level));
        let name_s = string_of(&name);
        let mut line = self.tab.clone();
        line.append(dtype.as_str());
        line.append(sep);
        line.append(ptr);
        line.append(name_s.as_str());
        line.append(" = ");
        push_chars(&mut line, &value);
        line.append(";\n");
        self.vars.append(line.as_str());
        push_string(&mut self.var_list, string_of(&name));
        assert(self@ =~= add_plain(s0, field_name@, field_value@, field_type@, *field_level));
        name_s
    }

    /// Declare the C variable of an flist field at a level, unless it is
    /// declared already.
    pub fn add_flist_variable(&mut self, field_name: String, field_level: &i8)
        ensures
            final(self)@ == add_flist_var(old(self)@, field_name@, *field_level),
    {
        let ghost s0 = self@;
        let base = self.get_flist_var_name(field_name.as_str());
        let mut repl = int_chars(*field_level as i64);
        push_chars_vec(&mut repl, &chars_of("_flistp"));
        proof {
            reveal_strlit("flistp");
        }
        let name_v = replace_chars(&chars_of(base.as_str()), &chars_of("flistp"), &repl);
        let name = string_of(&name_v);
        assert(name@ == flist_level_name(field_name@, *field_level));
        if !strings_contain(&self.flname_with_level_list, &name) {
            let mut line = self.tab.clone();
            line.append("pin_flist_t\t\t*");
            line.append(name.as_str());
            line.append(" = NULL;\n");
            self.vars.append(line.as_str());
            push_string(&mut self.flname_list, name.clone());
            push_string(&mut self.flname_with_level_list, name);
        }
        assert(self@ =~= add_flist_var(s0, field_name@, *field_level));
    }

    /// Close open flists down to level `lvl`; the new innermost one becomes
    /// the parent.
    fn unwind_flists(&mut self, lvl: i8)
        requires
            unwind_ok(old(self)@, lvl),
        ensures
            final(self)@ == unwind(old(self)@, lvl),
    {
        let ghost s0 = self@;
        let len = self.flname_list.len();
        let t: i8 = #[verifier::truncate] (len as i8);
        let n: i8 = t - lvl - 1;
        let mut k: i8 = 0;
        while k < n
            invariant
                0 <= k,
                n == close_count(s0.flname_list.len() as int, lvl),
                k <= n || (n <= 0 && k == 0),
                (if n > 0 {
                    n as int
                } else {
                    0
                }) < s0.flname_list.len(),
                str_views(self.flname_list@) == s0.flname_list.take(s0.flname_list.len() - k),
                self@ == (FlistState { flname_list: str_views(self.flname_list@), ..s0 }),
            decreases n - k,
        {
            let _ = pop_string(&mut self.flname_list);
            assert(s0.flname_list.take(s0.flname_list.len() - k).drop_last() =~= s0.flname_list.take(
                s0.flname_list.len() - (k + 1),
            ));
            k = k + 1;
        }
        assert(n > 0 ==> k == n);
        assert(k < s0.flname_list.len());
        assert(str_views(self.flname_list@).len() == s0.flname_list.len() - k);
        assert(self.flname_list@.len() > 0);
        self.prev_flistp = last_string(&self.flname_list);
        assert(self@ =~= unwind(s0, lvl));
    }

    /// The first part of `add_code`: declare what the current field needs,
    /// open an flist for an array or substruct, and choose the macro and the
    /// value.
    fn code_prepare_exec(&mut self) -> (r: (String, String))
        requires
            code_prepare_ok(old(self)@),
        ensures
            (final(self)@, r.0@, r.1@) == code_prepare(old(self)@),
    {
        let field_level = self.cur_field.field_level;
        let field_name = self.cur_field.field_name.clone();
        let field_type = self.cur_field.field_type.clone();
        let field_value = self.cur_field.field_value.clone();
        let t = chars_of(field_type.as_str());
        if chars_are(&t, "TSTAMP") || chars_are(&t, "INT") || chars_are(&t, "ENUM") {
            let v = self.add_non_flist_variables(field_name, field_value, field_type, &field_level);
            let mut value = String::from_str("&");
            value.append(v.as_str());
            (String::from_str("PIN_FLIST_FLD_SET"), value)
        } else if chars_are(&t, "DECIMAL") {
            let value = self.add_non_flist_variables(
                field_name,
                field_value,
                field_type,
                &field_level,
            );
            (String::from_str("PIN_FLIST_FLD_PUT"), value)
        } else if chars_are(&t, "ARRAY") || chars_are(&t, "SUBSTRUCT") {
            let mac = if starts_with_chars(&t, &chars_of("ARRAY")) {
                String::from_str("PIN_FLIST_ELEM_ADD")
            } else {
                String::from_str("PIN_FLIST_SUBSTR_ADD")
            };
            self.open_flist(field_name, field_type, field_level);
            proof {
                reveal_strlit("");
                assert(""@ =~= Seq::<char>::empty());
            }
            (mac, String::new())
        } else if chars_are(&t, "POID") {
            if !contains_chars(&chars_of(field_value.as_str()), &chars_of("NULL")) {
                let mut value = String::from_str("PIN_POID_FROM_STR(\"");
                value.append(field_value.as_str());
                value.append("\", NULL, ebufp)");
                (String::from_str("PIN_FLIST_FLD_PUT"), value)
            } else {
                (String::from_str("PIN_FLIST_FLD_SET"), field_value)
            }
        } else {
            (String::from_str("PIN_FLIST_FLD_SET"), field_value)
        }
    }

    /// Open the flist of an array or substruct field: close deeper flists
    /// first where the level does not grow, declare its variable, and make it
    /// the current flist.
    fn open_flist(&mut self, field_name: String, field_type: String, field_level: i8)
        requires
            old(self)@.cur_level >= field_level ==> unwind_ok(old(self)@, field_level),
        ensures
            final(self)@ == ({
                let s = old(self)@;
                let vname = var_name(field_name@, field_type@);
                let s1 = if s.cur_level >= field_level {
                    let u = unwind(s, field_level);
                    add_flist_var(FlistState { code: u.code + "\n"@, ..u }, vname, field_level)
                } else {
                    FlistState { prev_flistp: s.cur_flistp, ..add_flist_var(s, vname, field_level) }
                };
                FlistState {
                    cur_flistp: flist_level_name(vname, field_level),
                    cur_level: field_level,
                    ..s1
                }
            }),
    {
        let vname = self.get_var_name(field_name.as_str(), field_type.as_str());
        if self.cur_level >= field_level {
            self.unwind_flists(field_level);
            self.code.append("\n");
            self.add_flist_variable(vname.clone(), &field_level);
        } else {
            self.add_flist_variable(vname.clone(), &field_level);
            self.prev_flistp = self.cur_flistp.clone();
        }
        let base = self.get_flist_var_name(vname.as_str());
        let mut repl = int_chars(field_level as i64);
        push_chars_vec(&mut repl, &chars_of("_flistp"));
        proof {
            reveal_strlit("flistp");
        }
        let cur = replace_chars(&chars_of(base.as_str()), &chars_of("flistp"), &repl);
        self.cur_flistp = string_of(&cur);
        self.cur_level = field_level;
    }

    /// The second part of `add_code`: emit the statement for the current
    /// field, closing deeper flists first for a plain field of a lower level.
    fn code_emit_exec(&mut self, pin_macro_name: &str, value: &str)
        requires
            code_emit_ok(old(self)@),
        ensures
            final(self)@ == code_emit(old(self)@, pin_macro_name@, value@),
    {
        let ghost s1 = self@;
        let field_level = self.cur_field.field_level;
        let field_name = self.cur_field.field_name.clone();
        let mut field_arr_idx = self.cur_field.field_arr_idx.clone();
        let t = chars_of(self.cur_field.field_type.as_str());
        if starts_with_chars(&t, &chars_of("ARRAY")) {
            if chars_are(&chars_of(field_arr_idx.as_str()), "*") {
                field_arr_idx = String::from_str("PIN_ELEMID_ANY");
            }
            let mut line = self.tab.clone();
            line.append(self.cur_flistp.as_str());
            line.append(" = ");
            line.append(pin_macro_name);
            line.append("(");
            line.append(self.prev_flistp.as_str());
            line.append(", ");
            line.append(field_name.as_str());
            line.append(", ");
            line.append(field_arr_idx.as_str());
            line.append(", ebufp);\n");
            self.code.append(line.as_str());
        } else if starts_with_chars(&t, &chars_of("SUBSTRUCT")) {
            let mut line = self.tab.clone();
            line.append(self.cur_flistp.as_str());
            line.append(" = ");
            line.append(pin_macro_name);
            line.append("(");
            line.append(self.prev_flistp.as_str());
            line.append(", ");
            line.append(field_name.as_str());
            line.append(", ebufp);\n");
            self.code.append(line.as_str());
        } else {
            if self.cur_level > field_level {
                self.unwind_flists(field_level);
                self.cur_flistp = last_string(&self.flname_list);
            }
            let mut line = self.tab.clone();
            line.append(pin_macro_name);
            line.append("(");
            line.append(self.cur_flistp.as_str());
            line.append(", ");
            line.append(field_name.as_str());
            line.append(", ");
            line.append(value);
            line.append(", ebufp);\n");
            self.code.append(line.as_str());
        }
        assert(self@ =~= code_emit(s1, pin_macro_name@, value@));
    }

    /// Emit the C code for the current field: declare what it needs, open or
    /// close flists as its level requires, and add its `PIN_FLIST_*`
    /// statement.
    pub fn add_code(&mut self)
        requires
            add_code_ok(old(self)@),
        ensures
            final(self)@ == add_code_spec(old(self)@),
    {
        let (mac, value) = self.code_prepare_exec();
        self.code_emit_exec(mac.as_str(), value.as_str());
    }
}

impl Flist2Code {
    /// Start a C conversion of `flist_name`: declare and create it.
    fn start_ccode(&mut self, flist_name: &String)
        ensures
            final(self)@ == code_start(old(self)@, flist_name@),
    {
        let ghost s0 = self@;
        let is_top = starts_with_chars(&chars_of(flist_name.as_str()), &chars_of("s_flistp"));
        self.tab = if is_top {
            String::from_str("\t")
        } else {
            String::new()
        };
        proof {
            reveal_strlit("");
            assert(""@ =~= Seq::<char>::empty());
        }
        let mut decl = self.tab.clone();
        decl.append("pin_flist_t\t\t*");
        decl.append(flist_name.as_str());
        decl.append(" = NULL;\n");
        self.vars.append(decl.as_str());
        let mut create = self.tab.clone();
        create.append(flist_name.as_str());
        create.append(" = PIN_FLIST_CREATE(ebufp);\n");
        self.code = create;
        self.cur_flistp = flist_name.clone();
        push_string(&mut self.flname_list, flist_name.clone());
        let mut top = flist_name.clone();
        top.append("-0");
        push_string(&mut self.flname_with_level_list, top);
        assert(self@ =~= code_start(s0, flist_name@));
    }

    /// Convert an FLIST dump to the C code that builds it as `flist_name`:
    /// the declarations, an empty line, then the statements, added to
    /// `c_code`, which is returned.
    pub fn convert_flist_2_ccode(&mut self, flist_str: String, flist_name: String) -> (r: Result<
        String,
        String,
    >)
        requires
            ccode_ok(old(self)@, flist_str@, flist_name@),
        ensures
            final(self)@ == ccode_spec(old(self)@, flist_str@, flist_name@),
            r matches Ok(c) && c@ == final(self)@.c_code,
    {
        let ghost s0 = self@;
        self.start_ccode(&flist_name);
        let ghost start = self@;
        let ls = lines_chars(&chars_of(flist_str.as_str()));
        let ghost lsv = char_views(ls@);
        let ghost step = |t: FlistState, l: Seq<char>| code_step(t, l);
        let ghost ok = |t: FlistState, l: Seq<char>| code_step_ok(t, l);
        let n = ls.len();
        assert(lsv.take(0) =~= Seq::<Seq<char>>::empty());
        for i in 0..n
            invariant
                n == ls@.len(),
                lsv == char_views(ls@),
                lsv == lines(flist_str@),
                run_lines_ok(start, lsv, step, ok),
                self@ == run_lines(start, lsv.take(i as int), step),
                step == (|t: FlistState, l: Seq<char>| code_step(t, l)),
                ok == (|t: FlistState, l: Seq<char>| code_step_ok(t, l)),
        {
            proof {
                lemma_run_lines_ok_prefix(start, lsv, step, ok, i + 1);
                lemma_run_lines_step(start, lsv, step, ok, i as int);
            }
            assert(lsv[i as int] == ls@[i as int]@);
            let line = string_of(&ls[i]);
            self.set_cur_field(line);
            self.add_code();
        }
        assert(lsv.take(n as int) =~= lsv);
        let vars = self.vars.clone();
        self.c_code.append(vars.as_str());
        self.c_code.append("\n");
        let code = self.code.clone();
        self.c_code.append(code.as_str());
        Ok(self.c_code.clone())
    }
}

impl Flist2Code {
    /// Decide `unwind_ok`.
    fn unwind_allowed(&self, lvl: i8) -> (r: bool)
        ensures
            r == unwind_ok(self@, lvl),
    {
        let len = self.flname_list.len();
        let t: i8 = #[verifier::truncate] (len as i8);
        let d: i16 = (t as i16) - (lvl as i16);
        if d < -128 || d > 127 {
            return false;
        }
        let n: i16 = d - 1;
        if n < -128 {
            return false;
        }
        let k: usize = if n > 0 {
            n as usize
        } else {
            0
        };
        k < len
    }

    /// Decide `plain_ok`.
    fn plain_allowed(&self, fname: &String, ftype: &String, lvl: i8) -> (r: bool)
        ensures
            r == plain_ok(self@, fname@, ftype@, lvl),
    {
        let base = var_name_of(fname.as_str(), ftype.as_str());
        let mut name = chars_of(base.as_str());
        let lv = int_chars(lvl as i64);
        push_chars_vec(&mut name, &lv);
        let ty = chars_of(ftype.as_str());
        let fc: Vec<char> = if ty.len() > 0 {
            vec![ty[0]]
        } else {
            Vec::new()
        };
        assert(fc@ == first_char_str(ftype@));
        if !(chars_are(&fc, "F") || chars_are(&fc, "P") || chars_are(&fc, "S") || chars_are(
            &fc,
            "E",
        ) || chars_are(&fc, "I") || chars_are(&fc, "D") || chars_are(&fc, "T")) {
            return false;
        }
        let taken = strings_contain(&self.var_list, &string_of(&name));
        if taken {
            proof {
                reveal_strlit("_");
            }
            name[name.len() - 1] != '9'
        } else {
            true
        }
    }

    /// Decide `code_prepare_ok`.
    fn prepare_allowed(&self) -> (r: bool)
        ensures
            r == code_prepare_ok(self@),
    {
        let lvl = self.cur_field.field_level;
        let t = chars_of(self.cur_field.field_type.as_str());
        if chars_are(&t, "TSTAMP") || chars_are(&t, "INT") || chars_are(&t, "ENUM") || chars_are(
            &t,
            "DECIMAL",
        ) {
            self.plain_allowed(&self.cur_field.field_name, &self.cur_field.field_type, lvl)
        } else if chars_are(&t, "ARRAY") || chars_are(&t, "SUBSTRUCT") {
            if self.cur_level >= lvl {
                self.unwind_allowed(lvl)
            } else {
                true
            }
        } else {
            true
        }
    }

    /// Decide `code_emit_ok`.
    fn emit_allowed(&self) -> (r: bool)
        ensures
            r == code_emit_ok(self@),
    {
        let lvl = self.cur_field.field_level;
        let t = chars_of(self.cur_field.field_type.as_str());
        if !starts_with_chars(&t, &chars_of("ARRAY")) && !starts_with_chars(
            &t,
            &chars_of("SUBSTRUCT"),
        ) && self.cur_level > lvl {
            self.unwind_allowed(lvl)
        } else {
            true
        }
    }
}

/// Decide whether converting `content` to C code for `s_flistp` runs
/// without failing: every line's level is an `i8`, every plain field's type
/// has a C type and its variable name can be made unique, and closing flists
/// neither overflows nor empties the list of open flists.
pub fn ccode_input_ok(content: &String) -> (r: bool)
    ensures
        r == ccode_ok(initial_state(), content@, "s_flistp"@),
{
    let mut conv = Flist2Code::new();
    let top = String::from_str("s_flistp");
    conv.start_ccode(&top);
    let ghost start = conv@;
    let ls = lines_chars(&chars_of(content.as_str()));
    let ghost lsv = char_views(ls@);
    let ghost step = |t: FlistState, l: Seq<char>| code_step(t, l);
    let ghost ok = |t: FlistState, l: Seq<char>| code_step_ok(t, l);
    let n = ls.len();
    assert(lsv.take(0) =~= Seq::<Seq<char>>::empty());
    for i in 0..n
        invariant
            n == ls@.len(),
            lsv == char_views(ls@),
            lsv == lines(content@),
            start == code_start(initial_state(), "s_flistp"@),
            run_lines_ok(start, lsv.take(i as int), step, ok),
            conv@ == run_lines(start, lsv.take(i as int), step),
            step == (|t: FlistState, l: Seq<char>| code_step(t, l)),
            ok == (|t: FlistState, l: Seq<char>| code_step_ok(t, l)),
    {
        proof {
            lemma_run_lines_step(start, lsv, step, ok, i as int);
        }
        assert(lsv[i as int] == ls@[i as int]@);
        let line = string_of(&ls[i]);
        if !level_parses(&line) {
            proof {
                if run_lines_ok(start, lsv, step, ok) {
                    lemma_run_lines_ok_prefix(start, lsv, step, ok, i + 1);
                }
            }
            return false;
        }
        conv.set_cur_field(line);
        if !conv.prepare_allowed() {
            proof {
                if run_lines_ok(start, lsv, step, ok) {
                    lemma_run_lines_ok_prefix(start, lsv, step, ok, i + 1);
                }
            }
            return false;
        }
        let (mac, value) = conv.code_prepare_exec();
        if !conv.emit_allowed() {
            proof {
                if run_lines_ok(start, lsv, step, ok) {
                    lemma_run_lines_ok_prefix(start, lsv, step, ok, i + 1);
                }
            }
            return false;
        }
        conv.code_emit_exec(mac.as_str(), value.as_str());
    }
    assert(lsv.take(n as int) =~= lsv);
    true
}

/// Convert an FLIST dump to C code for `s_flistp`, or `None` where the
/// conversion would fail (see `ccode_input_ok`).
pub fn try_convert_flist2code(content: String) -> (r: Option<String>)
    ensures
        r is Some <==> ccode_ok(initial_state(), content@, "s_flistp"@),
        r matches Some(c) ==> c@ == ccode_spec(initial_state(), content@, "s_flistp"@).c_code,
{
    if ccode_input_ok(&content) {
        Some(convert_flist2code(content))
    } else {
        None
    }
}

impl Flist2Code {
    /// Close the innermost open XML element.
    fn close_xml_tag(&mut self)
        requires
            old(self)@.xml_tag_stack.len() > 0,
        ensures
            final(self)@ == close_tag(old(self)@),
    {
        let ghost s0 = self@;
        let temp = pop_string(&mut self.xml_tag_stack);
        let _ = pop_char(&mut self.tab);
        let mut line = self.tab.clone();
        line.append("</");
        line.append(temp.as_str());
        line.append(">\n");
        self.xml_code.append(line.as_str());
        assert(self@ =~= close_tag(s0));
    }

    /// Close the `k` innermost open XML elements.
    fn close_xml_tags(&mut self, k: usize)
        requires
            k <= old(self)@.xml_tag_stack.len(),
        ensures
            final(self)@ == close_tags(old(self)@, k as nat),
    {
        let ghost s0 = self@;
        let mut i: usize = 0;
        while i < k
            invariant
                i <= k <= s0.xml_tag_stack.len(),
                self@ == close_tags(s0, i as nat),
            decreases k - i,
        {
            proof {
                lemma_close_tags(s0, i as nat);
            }
            self.close_xml_tag();
            i = i + 1;
        }
    }

    /// Emit the XML for the current field.
    pub fn add_xml_element(&mut self)
        requires
            add_xml_ok(old(self)@),
        ensures
            final(self)@ == add_xml_spec(old(self)@),
    {
        let ghost s0 = self@;
        let field_level = self.cur_field.field_level;
        let field_name = self.cur_field.field_name.clone();
        let field_arr_idx = self.cur_field.field_arr_idx.clone();
        let t = chars_of(self.cur_field.field_type.as_str());
        if chars_are(&t, "ARRAY") || chars_are(&t, "SUBSTRUCT") {
            if self.cur_level >= field_level && self.xml_tag_stack.len() > 1 {
                let len = self.xml_tag_stack.len();
                let tt: i8 = #[verifier::truncate] (len as i8);
                let n: i8 = tt - field_level - 1;
                if n > 0 {
                    self.close_xml_tags(n as usize);
                }
            }
            let ghost s1 = self@;
            proof {
                let n = xml_close_count(s0);
                if n > 0 {
                    lemma_close_tags(s0, n as nat);
                }
            }
            let mut line = self.tab.clone();
            if starts_with_chars(&t, &chars_of("ARRAY")) {
                line.append("<");
                line.append(field_name.as_str());
                line.append(" elem=\"");
                line.append(field_arr_idx.as_str());
                line.append("\">\n");
            } else {
                line.append("<");
                line.append(field_name.as_str());
                line.append(">\n");
            }
            self.xml_code.append(line.as_str());
            self.tab.append("\t");
            self.cur_level = field_level;
            push_string(&mut self.xml_tag_stack, field_name);
            assert(self@ =~= add_xml_spec(s0));
        } else {
            let mut v = chars_of(self.cur_field.field_value.as_str());
            if starts_with_chars(&t, &chars_of("STR")) {
                proof {
                    reveal_strlit("\"");
                    reveal_strlit("");
                    assert(""@ =~= Seq::<char>::empty());
                }
                v = replace_chars(&v, &chars_of("\""), &chars_of(""));
            }
            let mut line = self.tab.clone();
            line.append("<");
            line.append(field_name.as_str());
            line.append(">");
            push_chars(&mut line, &v);
            line.append("</");
            line.append(field_name.as_str());
            line.append(">\n");
            self.xml_code.append(line.as_str());
            assert(self@ =~= add_xml_spec(s0));
        }
    }

    /// Start an XML conversion.
    fn start_xml(&mut self)
        ensures
            final(self)@ == xml_start(old(self)@),
    {
        let ghost s0 = self@;
        push_string(&mut self.xml_tag_stack, String::from_str("FLIST"));
        self.xml_code.append("<flist>\n");
        self.tab = String::from_str("\t");
        assert(self@ =~= xml_start(s0));
    }

    /// Close what is open at the end of an XML conversion.
    fn finish_xml(&mut self)
        ensures
            final(self)@ == xml_finish(old(self)@),
    {
        let ghost s0 = self@;
        let n = self.xml_tag_stack.len();
        if n > 1 {
            self.close_xml_tags(n - 1);
        }
        self.xml_code.append("</flist>\n");
        assert(self@ =~= xml_finish(s0));
    }

    /// Convert an FLIST dump to XML: an `flist` root, an element per array
    /// or substruct holding the fields below it, and an element per plain
    /// field holding its value. The XML is added to `xml_code`, which is
    /// returned.
    pub fn convert_flist_2_xml(&mut self, flist_str: String) -> (r: Result<String, String>)
        requires
            xml_ok(old(self)@, flist_str@),
        ensures
            final(self)@ == xml_spec(old(self)@, flist_str@),
            r matches Ok(x) && x@ == final(self)@.xml_code,
    {
        self.start_xml();
        let ghost start = self@;
        let ls = lines_chars(&chars_of(flist_str.as_str()));
        let ghost lsv = char_views(ls@);
        let ghost step = |t: FlistState, l: Seq<char>| xml_step(t, l);
        let ghost ok = |t: FlistState, l: Seq<char>| xml_step_ok(t, l);
        let n = ls.len();
        assert(lsv.take(0) =~= Seq::<Seq<char>>::empty());
        for i in 0..n
            invariant
                n == ls@.len(),
                lsv == char_views(ls@),
                lsv == lines(flist_str@),
                run_lines_ok(start, lsv, step, ok),
                self@ == run_lines(start, lsv.take(i as int), step),
                step == (|t: FlistState, l: Seq<char>| xml_step(t, l)),
                ok == (|t: FlistState, l: Seq<char>| xml_step_ok(t, l)),
        {
            proof {
                lemma_run_lines_ok_prefix(start, lsv, step, ok, i + 1);
                lemma_run_lines_step(start, lsv, step, ok, i as int);
            }
            assert(lsv[i as int] == ls@[i as int]@);
            let line = string_of(&ls[i]);
            self.set_cur_field(line);
            self.add_xml_element();
        }
        assert(lsv.take(n as int) =~= lsv);
        self.finish_xml();
        Ok(self.xml_code.clone())
    }

    /// Decide `add_xml_ok`.
    fn xml_allowed(&self) -> (r: bool)
        ensures
            r == add_xml_ok(self@),
    {
        let lvl = self.cur_field.field_level;
        let t = chars_of(self.cur_field.field_type.as_str());
        let len = self.xml_tag_stack.len();
        if (chars_are(&t, "ARRAY") || chars_are(&t, "SUBSTRUCT")) && self.cur_level >= lvl && len
            > 1 {
            let tt: i8 = #[verifier::truncate] (len as i8);
            let d: i16 = (tt as i16) - (lvl as i16);
            -128 <= d && d <= 127 && -128 <= d - 1 && (d - 1 <= 0 || ((d - 1) as usize) <= len)
        } else {
            true
        }
    }
}

/// Convert an FLIST dump to XML.
pub fn convert_flist2xml(content: String) -> (r: String)
    requires
        xml_ok(initial_state(), content@),
    ensures
        r@ == xml_spec(initial_state(), content@).xml_code,
{
    let mut flist2code = Flist2Code::new();
    match flist2code.convert_flist_2_xml(content) {
        Ok(xml) => xml,
        Err(error) => {
            let mut r = String::from_str("There is an error (");
            r.append(error.as_str());
            r.append(")");
            r
        },
    }
}

/// Decide whether converting `content` to XML runs without failing: every
/// line's level is an `i8`, and closing elements neither overflows nor
/// empties the element stack.
pub fn xml_input_ok(content: &String) -> (r: bool)
    ensures
        r == xml_ok(initial_state(), content@),
{
    let mut conv = Flist2Code::new();
    conv.start_xml();
    let ghost start = conv@;
    let ls = lines_chars(&chars_of(content.as_str()));
    let ghost lsv = char_views(ls@);
    let ghost step = |t: FlistState, l: Seq<char>| xml_step(t, l);
    let ghost ok = |t: FlistState, l: Seq<char>| xml_step_ok(t, l);
    let n = ls.len();
    assert(lsv.take(0) =~= Seq::<Seq<char>>::empty());
    for i in 0..n
        invariant
            n == ls@.len(),
            lsv == char_views(ls@),
            lsv == lines(content@),
            start == xml_start(initial_state()),
            run_lines_ok(start, lsv.take(i as int), step, ok),
            conv@ == run_lines(start, lsv.take(i as int), step),
            step == (|t: FlistState, l: Seq<char>| xml_step(t, l)),
            ok == (|t: FlistState, l: Seq<char>| xml_step_ok(t, l)),
    {
        proof {
            lemma_run_lines_step(start, lsv, step, ok, i as int);
        }
        assert(lsv[i as int] == ls@[i as int]@);
        let line = string_of(&ls[i]);
        if !level_parses(&line) {
            proof {
                if run_lines_ok(start, lsv, step, ok) {
                    lemma_run_lines_ok_prefix(start, lsv, step, ok, i + 1);
                }
            }
            return false;
        }
        conv.set_cur_field(line);
        if !conv.xml_allowed() {
            proof {
                if run_lines_ok(start, lsv, step, ok) {
                    lemma_run_lines_ok_prefix(start, lsv, step, ok, i + 1);
                }
            }
            return false;
        }
        conv.add_xml_element();
    }
    assert(lsv.take(n as int) =~= lsv);
    true
}

/// Convert an FLIST dump to XML, or `None` where the conversion would fail
/// (see `xml_input_ok`).
pub fn try_convert_flist2xml(content: String) -> (r: Option<String>)
    ensures
        r is Some <==> xml_ok(initial_state(), content@),
        r matches Some(x) ==> x@ == xml_spec(initial_state(), content@).xml_code,
{
    if xml_input_ok(&content) {
        Some(convert_flist2xml(content))
    } else {
        None
    }
}

impl Flist2Code {
    /// Record the JSON that an external XML-to-JSON converter produced from
    /// this converter's XML, and return all JSON recorded so far.
    pub fn record_json(&mut self, json: String) -> (r: Result<String, String>)
        ensures
            final(self)@ == (FlistState { json_code: old(self)@.json_code + json@, ..old(self)@ }),
            r matches Ok(j) && j@ == final(self)@.json_code,
    {
        let ghost s0 = self@;
        self.json_code.append(json.as_str());
        assert(self@ =~= (FlistState { json_code: s0.json_code + json@, ..s0 }));
        Ok(self.json_code.clone())
    }
}

/// Convert an FLIST dump to C code for the flist `s_flistp`.
pub fn convert_flist2code(content: String) -> (r: String)
    requires
        ccode_ok(initial_state(), content@, "s_flistp"@),
    ensures
        r@ == ccode_spec(initial_state(), content@, "s_flistp"@).c_code,
{
    let mut flist2code = Flist2Code::new();
    match flist2code.convert_flist_2_ccode(content, String::from_str("s_flistp")) {
        Ok(c_code) => c_code,
        Err(error) => {
            let mut r = String::from_str("There is an error (");
            r.append(error.as_str());
            r.append(")");
            r
        },
    }
}

/// The C variable for a plain field of type `dtype`.
fn var_name_of(vname: &str, dtype: &str) -> (r: String)
    ensures
        r@ == var_name(vname@, dtype@),
        is_ascii_text(dtype@) ==> r@ == ascii_lowered(dtype@) + "_"@ + short_name(vname@),
        is_ascii_text(vname@) ==> short_name(vname@) == ascii_short_name(vname@),
{
    let lower = to_lowercase(vname);
    proof {
        reveal_strlit("pin_fld_");
        reveal_strlit("");
        assert(""@ =~= Seq::<char>::empty());
    }
    let short = replace_str(lower.as_str(), "pin_fld_", "");
    let mut r = to_lowercase(dtype);
    r.append("_");
    r.append(short.as_str());
    r
}

/// Append the characters of `b` to the vector `a`.
pub fn push_chars_vec(a: &mut Vec<char>, b: &Vec<char>)
    ensures
        final(a)@ == old(a)@ + b@,
{
    let n = b.len();
    for i in 0..n
        invariant
            n == b@.len(),
            a@ == old(a)@ + b@.take(i as int),
    {
        a.push(b[i]);
        assert(b@.take(i + 1) =~= b@.take(i as int).push(b@[i as int]));
    }
    assert(b@.take(n as int) =~= b@);
}

/// The C type of a BRM type letter.
fn c_type_of(fc: &Vec<char>) -> (r: String)
    requires
        brm_dtype(fc@) is Some,
    ensures
        r@ == brm_dtype(fc@).unwrap(),
{
    if chars_are(fc, "F") {
        String::from_str("pin_flist_t")
    } else if chars_are(fc, "P") {
        String::from_str("poid_t")
    } else if chars_are(fc, "S") {
        String::from_str("char")
    } else if chars_are(fc, "E") {
        String::from_str("u_int")
    } else if chars_are(fc, "I") {
        String::from_str("int32")
    } else if chars_are(fc, "D") {
        String::from_str("pin_decimal_t")
    } else {
        String::from_str("time_t")
    }
}

} // verus!
