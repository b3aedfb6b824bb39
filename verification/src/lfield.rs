//! One line of an FLIST dump (`<level> <name> <type> [<index>] <value>`):
//! its grammar, and the field that it sets.
use vstd::prelude::*;
use vstd::string::*;

use crate::number::{parse_i8, parse_i8_chars};
use crate::text::{chars_of, chars_are, contains, contains_chars, string_of, sub_chars, trim, trim_chars};

verus! {

/// A character of Unicode general category `Nd` (decimal number), the class
/// that `\d` denotes in a Unicode regular expression.
pub open spec fn is_nd(c: char) -> bool {
    let u = c as u32;
    ||| 0x30 <= u <= 0x39
    ||| 0x660 <= u <= 0x669
    ||| 0x6F0 <= u <= 0x6F9
    ||| 0x7C0 <= u <= 0x7C9
    ||| 0x966 <= u <= 0x96F
    ||| 0x9E6 <= u <= 0x9EF
    ||| 0xA66 <= u <= 0xA6F
    ||| 0xAE6 <= u <= 0xAEF
    ||| 0xB66 <= u <= 0xB6F
    ||| 0xBE6 <= u <= 0xBEF
    ||| 0xC66 <= u <= 0xC6F
    ||| 0xCE6 <= u <= 0xCEF
    ||| 0xD66 <= u <= 0xD6F
    ||| 0xDE6 <= u <= 0xDEF
    ||| 0xE50 <= u <= 0xE59
    ||| 0xED0 <= u <= 0xED9
    ||| 0xF20 <= u <= 0xF29
    ||| 0x1040 <= u <= 0x1049
    ||| 0x1090 <= u <= 0x1099
    ||| 0x17E0 <= u <= 0x17E9
    ||| 0x1810 <= u <= 0x1819
    ||| 0x1946 <= u <= 0x194F
    ||| 0x19D0 <= u <= 0x19D9
    ||| 0x1A80 <= u <= 0x1A89
    ||| 0x1A90 <= u <= 0x1A99
    ||| 0x1B50 <= u <= 0x1B59
    ||| 0x1BB0 <= u <= 0x1BB9
    ||| 0x1C40 <= u <= 0x1C49
    ||| 0x1C50 <= u <= 0x1C59
    ||| 0xA620 <= u <= 0xA629
    ||| 0xA8D0 <= u <= 0xA8D9
    ||| 0xA900 <= u <= 0xA909
    ||| 0xA9D0 <= u <= 0xA9D9
    ||| 0xA9F0 <= u <= 0xA9F9
    ||| 0xAA50 <= u <= 0xAA59
    ||| 0xABF0 <= u <= 0xABF9
    ||| 0xFF10 <= u <= 0xFF19
    ||| 0x104A0 <= u <= 0x104A9
    ||| 0x10D30 <= u <= 0x10D39
    ||| 0x10D40 <= u <= 0x10D49
    ||| 0x11066 <= u <= 0x1106F
    ||| 0x110F0 <= u <= 0x110F9
    ||| 0x11136 <= u <= 0x1113F
    ||| 0x111D0 <= u <= 0x111D9
    ||| 0x112F0 <= u <= 0x112F9
    ||| 0x11450 <= u <= 0x11459
    ||| 0x114D0 <= u <= 0x114D9
    ||| 0x11650 <= u <= 0x11659
    ||| 0x116C0 <= u <= 0x116C9
    ||| 0x116D0 <= u <= 0x116E3
    ||| 0x11730 <= u <= 0x11739
    ||| 0x118E0 <= u <= 0x118E9
    ||| 0x11950 <= u <= 0x11959
    ||| 0x11BF0 <= u <= 0x11BF9
    ||| 0x11C50 <= u <= 0x11C59
    ||| 0x11D50 <= u <= 0x11D59
    ||| 0x11DA0 <= u <= 0x11DA9
    ||| 0x11F50 <= u <= 0x11F59
    ||| 0x16130 <= u <= 0x16139
    ||| 0x16A60 <= u <= 0x16A69
    ||| 0x16AC0 <= u <= 0x16AC9
    ||| 0x16B50 <= u <= 0x16B59
    ||| 0x16D70 <= u <= 0x16D79
    ||| 0x1CCF0 <= u <= 0x1CCF9
    ||| 0x1D7CE <= u <= 0x1D7FF
    ||| 0x1E140 <= u <= 0x1E149
    ||| 0x1E2F0 <= u <= 0x1E2F9
    ||| 0x1E4F0 <= u <= 0x1E4F9
    ||| 0x1E5F1 <= u <= 0x1E5FA
    ||| 0x1E950 <= u <= 0x1E959
    ||| 0x1FBF0 <= u <= 0x1FBF9
}

/// Decide `is_nd`.
pub fn is_nd_char(c: char) -> (r: bool)
    ensures
        r == is_nd(c),
{
    let u = c as u32;
    (0x30 <= u && u <= 0x39) || (0x660 <= u && u <= 0x669) || (0x6F0 <= u && u <= 0x6F9) || (0x7C0 <= u && u <= 0x7C9) || (0x966 <= u && u <= 0x96F) || (0x9E6 <= u && u <= 0x9EF) || (0xA66 <= u && u <= 0xA6F) || (0xAE6 <= u && u <= 0xAEF) || (0xB66 <= u && u <= 0xB6F) || (0xBE6 <= u && u <= 0xBEF) || (0xC66 <= u && u <= 0xC6F) || (0xCE6 <= u && u <= 0xCEF) || (0xD66 <= u && u <= 0xD6F) || (0xDE6 <= u && u <= 0xDEF) || (0xE50 <= u && u <= 0xE59) || (0xED0 <= u && u <= 0xED9) || (0xF20 <= u && u <= 0xF29) || (0x1040 <= u && u <= 0x1049) || (0x1090 <= u && u <= 0x1099) || (0x17E0 <= u && u <= 0x17E9) || (0x1810 <= u && u <= 0x1819) || (0x1946 <= u && u <= 0x194F) || (0x19D0 <= u && u <= 0x19D9) || (0x1A80 <= u && u <= 0x1A89) || (0x1A90 <= u && u <= 0x1A99) || (0x1B50 <= u && u <= 0x1B59) || (0x1BB0 <= u && u <= 0x1BB9) || (0x1C40 <= u && u <= 0x1C49) || (0x1C50 <= u && u <= 0x1C59) || (0xA620 <= u && u <= 0xA629) || (0xA8D0 <= u && u <= 0xA8D9) || (0xA900 <= u && u <= 0xA909) || (0xA9D0 <= u && u <= 0xA9D9) || (0xA9F0 <= u && u <= 0xA9F9) || (0xAA50 <= u && u <= 0xAA59) || (0xABF0 <= u && u <= 0xABF9) || (0xFF10 <= u && u <= 0xFF19) || (0x104A0 <= u && u <= 0x104A9) || (0x10D30 <= u && u <= 0x10D39) || (0x10D40 <= u && u <= 0x10D49) || (0x11066 <= u && u <= 0x1106F) || (0x110F0 <= u && u <= 0x110F9) || (0x11136 <= u && u <= 0x1113F) || (0x111D0 <= u && u <= 0x111D9) || (0x112F0 <= u && u <= 0x112F9) || (0x11450 <= u && u <= 0x11459) || (0x114D0 <= u && u <= 0x114D9) || (0x11650 <= u && u <= 0x11659) || (0x116C0 <= u && u <= 0x116C9) || (0x116D0 <= u && u <= 0x116E3) || (0x11730 <= u && u <= 0x11739) || (0x118E0 <= u && u <= 0x118E9) || (0x11950 <= u && u <= 0x11959) || (0x11BF0 <= u && u <= 0x11BF9) || (0x11C50 <= u && u <= 0x11C59) || (0x11D50 <= u && u <= 0x11D59) || (0x11DA0 <= u && u <= 0x11DA9) || (0x11F50 <= u && u <= 0x11F59) || (0x16130 <= u && u <= 0x16139) || (0x16A60 <= u && u <= 0x16A69) || (0x16AC0 <= u && u <= 0x16AC9) || (0x16B50 <= u && u <= 0x16B59) || (0x16D70 <= u && u <= 0x16D79) || (0x1CCF0 <= u && u <= 0x1CCF9) || (0x1D7CE <= u && u <= 0x1D7FF) || (0x1E140 <= u && u <= 0x1E149) || (0x1E2F0 <= u && u <= 0x1E2F9) || (0x1E4F0 <= u && u <= 0x1E4F9) || (0x1E5F1 <= u && u <= 0x1E5FA) || (0x1E950 <= u && u <= 0x1E959) || (0x1FBF0 <= u && u <= 0x1FBF9)
}

/// The character classes that the FLIST and call stack line grammars use.
pub enum CharClass {
    /// `\d`
    Decimal,
    /// `\s`
    Space,
    /// `\S`
    NonSpace,
    /// `\w`
    Word,
    /// `\.`
    Dot,
    /// `[^)]`
    NotCloseParen,
}

/// Membership in a character class.
pub open spec fn in_class(k: CharClass, c: char) -> bool {
    match k {
        CharClass::Decimal => is_nd(c),
        CharClass::Space => crate::text::is_ws(c),
        CharClass::NonSpace => !crate::text::is_ws(c),
        CharClass::Word => crate::wordchar::is_word(c),
        CharClass::Dot => c == '.',
        CharClass::NotCloseParen => c != ')',
    }
}

/// Decide `in_class`.
pub fn class_has(k: &CharClass, c: char) -> (r: bool)
    ensures
        r == in_class(*k, c),
{
    match k {
        CharClass::Decimal => is_nd_char(c),
        CharClass::Space => crate::text::is_whitespace_char(c),
        CharClass::NonSpace => !crate::text::is_whitespace_char(c),
        CharClass::Word => crate::wordchar::is_word_char(c),
        CharClass::Dot => c == '.',
        CharClass::NotCloseParen => c != ')',
    }
}

/// The end of the longest run of class `k` that starts at `i`.
pub open spec fn run_end(s: Seq<char>, i: int, k: CharClass) -> int
    decreases s.len() - i,
{
    if i < 0 || i >= s.len() || !in_class(k, s[i]) {
        i
    } else {
        run_end(s, i + 1, k)
    }
}

/// A run ends at or after its start, and covers only characters of its class.
pub proof fn lemma_run_end(s: Seq<char>, i: int, k: CharClass)
    requires
        0 <= i <= s.len(),
    ensures
        i <= run_end(s, i, k) <= s.len(),
        forall|j: int| i <= j < run_end(s, i, k) ==> in_class(k, #[trigger] s[j]),
        run_end(s, i, k) < s.len() ==> !in_class(k, s[run_end(s, i, k)]),
    decreases s.len() - i,
{
    if i < s.len() && in_class(k, s[i]) {
        lemma_run_end(s, i + 1, k);
    }
}

/// Compute `run_end`.
pub fn scan_run(s: &Vec<char>, i: usize, k: &CharClass) -> (e: usize)
    requires
        i <= s@.len(),
    ensures
        e == run_end(s@, i as int, *k),
        i <= e <= s@.len(),
{
    let mut e = i;
    while e < s.len() && class_has(k, s[e])
        invariant
            i <= e <= s@.len(),
            run_end(s@, i as int, *k) == run_end(s@, e as int, *k),
        decreases s@.len() - e,
    {
        e = e + 1;
    }
    e
}

/// The largest position of `c` in `s`.
pub open spec fn last_index_of(s: Seq<char>, c: char) -> Option<int>
    decreases s.len(),
{
    if s.len() == 0 {
        None
    } else if s.last() == c {
        Some(s.len() - 1)
    } else {
        last_index_of(s.drop_last(), c)
    }
}

/// `last_index_of` gives the last occurrence.
pub proof fn lemma_last_index_of(s: Seq<char>, c: char)
    ensures
        last_index_of(s, c) matches Some(k) ==> 0 <= k < s.len() && s[k] == c && forall|j: int|
            k < j < s.len() ==> s[j] != c,
        last_index_of(s, c) is None ==> forall|j: int| 0 <= j < s.len() ==> s[j] != c,
    decreases s.len(),
{
    if s.len() > 0 && s.last() != c {
        lemma_last_index_of(s.drop_last(), c);
        assert forall|j: int| 0 <= j < s.len() - 1 implies s[j] == s.drop_last()[j] by {}
    }
}

/// Compute `last_index_of`.
pub fn find_last(s: &Vec<char>, c: char) -> (r: Option<usize>)
    ensures
        r matches Some(k) ==> last_index_of(s@, c) == Some(k as int),
        r is None ==> last_index_of(s@, c) is None,
{
    let mut n = s.len();
    assert(s@.take(n as int) =~= s@);
    while n > 0
        invariant
            n <= s@.len(),
            last_index_of(s@, c) == last_index_of(s@.take(n as int), c),
        decreases n,
    {
        assert(s@.take(n as int).drop_last() =~= s@.take(n - 1));
        if s[n - 1] == c {
            return Some(n - 1);
        }
        n = n - 1;
    }
    None
}

/// No line break at or after position `i`.
pub open spec fn no_break_from(s: Seq<char>, i: int) -> bool {
    forall|j: int| i <= j < s.len() ==> s[j] != '\n'
}

/// Decide `no_break_from`.
pub fn break_free_from(s: &Vec<char>, i: usize) -> (r: bool)
    ensures
        r == no_break_from(s@, i as int),
{
    let n = s.len();
    let mut j = i;
    while j < n
        invariant
            i <= j,
            n == s@.len(),
            forall|m: int| i <= m < j ==> s@[m] != '\n',
        decreases n - j,
    {
        if s[j] == '\n' {
            assert(s@[j as int] == '\n');
            return false;
        }
        j = j + 1;
    }
    true
}

/// The five groups of an FLIST line.
pub struct LineParts {
    pub level: Seq<char>,
    pub name: Seq<char>,
    pub ftype: Seq<char>,
    pub arr_idx: Seq<char>,
    pub value: Seq<char>,
}

/// The groups of the FLIST line grammar
/// `^(\d+)\s+(\S+)\s+(\S+)\s+\[(.*)\](.*)$` (Unicode classes, `.` any
/// character but a line break), or `None` where the line does not match.
/// The runs are the longest ones, which is the only way the pattern can
/// match; the index group ends at the last `]`.
pub open spec fn line_parts(s: Seq<char>) -> Option<LineParts> {
    let e1 = run_end(s, 0, CharClass::Decimal);
    let w1 = run_end(s, e1, CharClass::Space);
    let e2 = run_end(s, w1, CharClass::NonSpace);
    let w2 = run_end(s, e2, CharClass::Space);
    let e3 = run_end(s, w2, CharClass::NonSpace);
    let w3 = run_end(s, e3, CharClass::Space);
    if 0 < e1 < w1 < e2 < w2 < e3 < w3 < s.len() && s[w3] == '[' && no_break_from(s, w3 + 1) {
        match last_index_of(s, ']') {
            Some(k) => if k > w3 {
                Some(
                    LineParts {
                        level: s.subrange(0, e1),
                        name: s.subrange(w1, e2),
                        ftype: s.subrange(w2, e3),
                        arr_idx: s.subrange(w3 + 1, k),
                        value: s.subrange(k + 1, s.len() as int),
                    },
                )
            } else {
                None
            },
            None => None,
        }
    } else {
        None
    }
}

/// The groups of an FLIST line, as character vectors.
pub struct LineTokens {
    pub level: Vec<char>,
    pub name: Vec<char>,
    pub ftype: Vec<char>,
    pub arr_idx: Vec<char>,
    pub value: Vec<char>,
}

impl View for LineTokens {
    type V = LineParts;

    open spec fn view(&self) -> LineParts {
        LineParts {
            level: self.level@,
            name: self.name@,
            ftype: self.ftype@,
            arr_idx: self.arr_idx@,
            value: self.value@,
        }
    }
}

/// Match a line against the FLIST line grammar.
pub fn match_line(s: &Vec<char>) -> (r: Option<LineTokens>)
    ensures
        r matches Some(t) ==> line_parts(s@) == Some(t@),
        r is None ==> line_parts(s@) is None,
{
    let n = s.len();
    let e1 = scan_run(s, 0, &CharClass::Decimal);
    let w1 = scan_run(s, e1, &CharClass::Space);
    let e2 = scan_run(s, w1, &CharClass::NonSpace);
    let w2 = scan_run(s, e2, &CharClass::Space);
    let e3 = scan_run(s, w2, &CharClass::NonSpace);
    let w3 = scan_run(s, e3, &CharClass::Space);
    if !(0 < e1 && e1 < w1 && w1 < e2 && e2 < w2 && w2 < e3 && e3 < w3 && w3 < n) {
        return None;
    }
    if s[w3] != '[' {
        return None;
    }
    if !break_free_from(s, w3 + 1) {
        return None;
    }
    match find_last(s, ']') {
        Some(k) => {
            proof {
                crate::lfield::lemma_last_index_of(s@, ']');
            }
            if k > w3 {
                let t = LineTokens {
                    level: sub_chars(s, 0, e1),
                    name: sub_chars(s, w1, e2),
                    ftype: sub_chars(s, w2, e3),
                    arr_idx: sub_chars(s, w3 + 1, k),
                    value: sub_chars(s, k + 1, n),
                };
                Some(t)
            } else {
                None
            }
        },
        None => None,
    }
}

/// The first position `i` of a decimal digit after which the text holds no
/// line break: where `(\d+).*$` starts to match.
pub open spec fn digits_start_from(v: Seq<char>, i: int) -> Option<int>
    decreases v.len() - i,
{
    if i < 0 || i >= v.len() {
        None
    } else if is_nd(v[i]) && no_break_from(v, i) {
        Some(i)
    } else {
        digits_start_from(v, i + 1)
    }
}

/// The group that `(\d+).*$` captures in `v`, where it matches.
pub open spec fn digits_group(v: Seq<char>) -> Option<Seq<char>> {
    match digits_start_from(v, 0) {
        Some(i) => Some(v.subrange(i, run_end(v, i, CharClass::Decimal))),
        None => None,
    }
}

/// `digits_start_from` lies within the text.
pub proof fn lemma_digits_start_from(v: Seq<char>, i: int)
    requires
        0 <= i,
    ensures
        digits_start_from(v, i) matches Some(k) ==> i <= k < v.len(),
    decreases v.len() - i,
{
    if i < v.len() && !(is_nd(v[i]) && no_break_from(v, i)) {
        lemma_digits_start_from(v, i + 1);
    }
}

/// Compute `digits_group`.
pub fn match_digits(v: &Vec<char>) -> (r: Option<Vec<char>>)
    ensures
        r matches Some(g) ==> digits_group(v@) == Some(g@),
        r is None ==> digits_group(v@) is None,
{
    let n = v.len();
    // Positions up to the last line break cannot start a match.
    proof {
        lemma_last_index_of(v@, '\n');
    }
    let start: usize = match find_last(v, '\n') {
        Some(k) => k + 1,
        None => 0,
    };
    proof {
        lemma_last_index_of(v@, '\n');
    }
    let mut i: usize = 0;
    while i < start
        invariant
            start <= n,
            n == v@.len(),
            i <= start,
            digits_start_from(v@, 0) == digits_start_from(v@, i as int),
            start > 0 ==> v@[start - 1] == '\n',
        decreases start - i,
    {
        assert(!no_break_from(v@, i as int));
        i = i + 1;
    }
    while i < n
        invariant
            start <= i <= n,
            n == v@.len(),
            digits_start_from(v@, 0) == digits_start_from(v@, i as int),
            no_break_from(v@, start as int),
        decreases n - i,
    {
        if is_nd_char(v[i]) {
            proof {
                lemma_run_end(v@, i as int, CharClass::Decimal);
            }
            let e = scan_run(v, i, &CharClass::Decimal);
            return Some(sub_chars(v, i, e));
        }
        i = i + 1;
    }
    None
}

/// The parsed content of one FLIST line.
#[derive(Clone, Debug)]
pub struct LField {
    pub field_level: i8,
    pub field_name: String,
    pub field_type: String,
    pub field_value: String,
    pub field_arr_idx: String,
}

/// What an `LField` holds.
pub struct LFieldView {
    pub level: i8,
    pub name: Seq<char>,
    pub ftype: Seq<char>,
    pub value: Seq<char>,
    pub arr_idx: Seq<char>,
}

impl View for LField {
    type V = LFieldView;

    open spec fn view(&self) -> LFieldView {
        LFieldView {
            level: self.field_level,
            name: self.field_name@,
            ftype: self.field_type@,
            value: self.field_value@,
            arr_idx: self.field_arr_idx@,
        }
    }
}

/// A line can be parsed without failing: where it matches the grammar, its
/// level group is an `i8`.
pub open spec fn line_level_ok(line: Seq<char>) -> bool {
    line_parts(line) matches Some(p) ==> parse_i8(p.level) is Some
}

/// Decide `line_level_ok`.
pub fn level_parses(line: &String) -> (r: bool)
    ensures
        r == line_level_ok(line@),
{
    let s = chars_of(line.as_str());
    match match_line(&s) {
        Some(t) => parse_i8_chars(&t.level).is_some(),
        None => true,
    }
}

/// The field after reading a line: the groups of a matching line (level
/// parsed, the others trimmed), or the field unchanged.
pub open spec fn read_line(f: LFieldView, line: Seq<char>) -> LFieldView {
    match line_parts(line) {
        Some(p) => LFieldView {
            level: parse_i8(p.level).unwrap() as i8,
            name: trim(p.name),
            ftype: trim(p.ftype),
            value: trim(p.value),
            arr_idx: trim(p.arr_idx),
        },
        None => f,
    }
}

/// The field value after the clean-up rules, applied in turn: a null string
/// pointer and any other null become `NULL`; a null timestamp becomes
/// `(0)`; a timestamp keeps the first run of digits after which no line
/// break follows.
pub open spec fn clean_value(f: LFieldView) -> Seq<char> {
    let v1 = if contains(f.value, "NULL str ptr"@) && f.ftype == "STR"@ {
        "NULL"@
    } else {
        f.value
    };
    let v2 = if contains(v1, "NULL"@) && f.ftype != "STR"@ {
        "NULL"@
    } else {
        v1
    };
    let v3 = if contains(v2, "null"@) && f.ftype == "TSTAMP"@ {
        "(0)"@
    } else {
        v2
    };
    if !contains(v3, "null"@) && f.ftype == "TSTAMP"@ {
        match digits_group(v3) {
            Some(d) => trim(d),
            None => v3,
        }
    } else {
        v3
    }
}

/// The field after reading a line and cleaning up its value.
pub open spec fn set_field_spec(f: LFieldView, line: Seq<char>) -> LFieldView {
    let g = read_line(f, line);
    LFieldView { value: clean_value(g), ..g }
}

impl LField {
    /// An empty field at level 0, index `0`.
    pub fn new() -> (f: LField)
        ensures
            f@ == (LFieldView {
                level: 0,
                name: Seq::empty(),
                ftype: Seq::empty(),
                value: Seq::empty(),
                arr_idx: "0"@,
            }),
    {
        LField {
            field_level: 0,
            field_arr_idx: String::from_str("0"),
            field_name: String::new(),
            field_type: String::new(),
            field_value: String::new(),
        }
    }

    /// Read the groups of an FLIST line into the field (where the line
    /// matches the grammar), then clean up the value.
    pub fn set_field(&mut self, line: String)
        requires
            line_level_ok(line@),
        ensures
            final(self)@ == set_field_spec(old(self)@, line@),
    {
        let s = chars_of(line.as_str());
        match match_line(&s) {
            Some(t) => {
                let lv = parse_i8_chars(&t.level);
                match lv {
                    Some(l) => {
                        self.field_level = l;
                    },
                    None => {},
                }
                self.field_name = string_of(&trim_chars(&t.name));
                self.field_type = string_of(&trim_chars(&t.ftype));
                self.field_arr_idx = string_of(&trim_chars(&t.arr_idx));
                self.field_value = string_of(&trim_chars(&t.value));
            },
            None => {},
        }
        let ghost g = self@;
        assert(g == read_line(old(self)@, line@));
        let ty = chars_of(self.field_type.as_str());
        let is_str = chars_are(&ty, "STR");
        let is_tstamp = chars_are(&ty, "TSTAMP");
        let mut v = chars_of(self.field_value.as_str());
        if contains_chars(&v, &chars_of("NULL str ptr")) && is_str {
            v = chars_of("NULL");
        }
        if contains_chars(&v, &chars_of("NULL")) && !is_str {
            v = chars_of("NULL");
        }
        if contains_chars(&v, &chars_of("null")) && is_tstamp {
            v = chars_of("(0)");
        }
        if !contains_chars(&v, &chars_of("null")) && is_tstamp {
            match match_digits(&v) {
                Some(d) => {
                    v = trim_chars(&d);
                },
                None => {},
            }
        }
        self.field_value = string_of(&v);
    }
}

} // verus!
