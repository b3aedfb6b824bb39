//! PODL (storable class definitions): field specifications and class
//! specifications turned into PODL text, with the field types and numbers
//! taken from the fields loaded for a session.
use vstd::prelude::*;
use vstd::string::*;

use crate::fields::{field_num_of, field_type_of, get_field_num, get_field_type, FieldView, SessionStore};
use crate::number::{parse_i32, parse_i32_chars};
use crate::text::{
    all_whitespace, all_ws, char_views, chars_are, chars_of, has_prefix, join, join_strings,
    lemma_run_lines_ok_prefix, lemma_run_lines_step, lemma_split_nonempty, lines, lines_chars,
    push_char, push_chars, push_string, replace, replace_str, run_lines, run_lines_ok, split, split_chars,
    starts_with_chars, str_views, string_of, strings_contain, sub_chars, trim, trim_chars,
};

verus! {

/// The object creation flag of a PODL field.
#[derive(Debug, Clone, Copy)]
pub enum ObjCreatePermission {
    System,
    Required,
    Prohibited,
    Optional,
}

/// The object modification flag of a PODL field.
#[derive(Debug, Clone, Copy)]
pub enum ObjModifyPermission {
    System,
    Writeable,
    NotWriteable,
}

/// The PODL text of a creation flag.
pub open spec fn create_text(p: ObjCreatePermission) -> Seq<char> {
    match p {
        ObjCreatePermission::System => "System"@,
        ObjCreatePermission::Required => "Required"@,
        ObjCreatePermission::Optional => "Optional"@,
        ObjCreatePermission::Prohibited => "Prohibited"@,
    }
}

/// The PODL text of a modification flag.
pub open spec fn modify_text(p: ObjModifyPermission) -> Seq<char> {
    match p {
        ObjModifyPermission::System => "System"@,
        ObjModifyPermission::Writeable => "Writeable"@,
        ObjModifyPermission::NotWriteable => "Not_Writeable"@,
    }
}

impl ObjCreatePermission {
    /// The PODL text of the flag (what it displays as).
    pub fn as_text(&self) -> (r: String)
        ensures
            r@ == create_text(*self),
    {
        match self {
            ObjCreatePermission::System => String::from_str("System"),
            ObjCreatePermission::Required => String::from_str("Required"),
            ObjCreatePermission::Optional => String::from_str("Optional"),
            ObjCreatePermission::Prohibited => String::from_str("Prohibited"),
        }
    }
}

impl ObjModifyPermission {
    /// The PODL text of the flag (what it displays as).
    pub fn as_text(&self) -> (r: String)
        ensures
            r@ == modify_text(*self),
    {
        match self {
            ObjModifyPermission::System => String::from_str("System"),
            ObjModifyPermission::Writeable => String::from_str("Writeable"),
            ObjModifyPermission::NotWriteable => String::from_str("Not_Writeable"),
        }
    }
}

/// A field of a PODL class, with the fields nested in it.
#[derive(Debug)]
pub struct FieldPODL {
    pub name: String,
    pub num: i32,
    pub data_type: String,
    pub descr: String,
    pub data_length: i32,
    pub create_flag: ObjCreatePermission,
    pub modify_flag: ObjModifyPermission,
    pub audit_flag: bool,
    pub encryp_flag: bool,
    pub nested_fields: Vec<FieldPODL>,
    pub col_tab_name: String,
}

/// What a PODL field holds besides its nested fields.
pub struct FieldPODLView {
    pub name: Seq<char>,
    pub num: i32,
    pub data_type: Seq<char>,
    pub descr: Seq<char>,
    pub data_length: i32,
    pub create_flag: ObjCreatePermission,
    pub modify_flag: ObjModifyPermission,
    pub audit_flag: bool,
    pub encryp_flag: bool,
    pub col_tab_name: Seq<char>,
}

impl View for FieldPODL {
    type V = FieldPODLView;

    open spec fn view(&self) -> FieldPODLView {
        FieldPODLView {
            name: self.name@,
            num: self.num,
            data_type: self.data_type@,
            descr: self.descr@,
            data_length: self.data_length,
            create_flag: self.create_flag,
            modify_flag: self.modify_flag,
            audit_flag: self.audit_flag,
            encryp_flag: self.encryp_flag,
            col_tab_name: self.col_tab_name@,
        }
    }
}

/// `b` is `a` with `x` added to its nested fields.
pub open spec fn nested_pushed(a: FieldPODL, b: FieldPODL, x: FieldPODL) -> bool {
    b@ == a@ && b.nested_fields@ == a.nested_fields@.push(x)
}

/// The first position at or after `i` of a field named `name`.
pub open spec fn podl_index_from(fs: Seq<FieldPODL>, name: Seq<char>, i: int) -> Option<int>
    decreases fs.len() - i,
{
    if i < 0 || i >= fs.len() {
        None
    } else if fs[i].name@ == name {
        Some(i)
    } else {
        podl_index_from(fs, name, i + 1)
    }
}

/// `podl_index_from` gives the first match.
pub proof fn lemma_podl_index_from(fs: Seq<FieldPODL>, name: Seq<char>, i: int)
    requires
        0 <= i,
    ensures
        podl_index_from(fs, name, i) matches Some(k) ==> i <= k < fs.len() && fs[k].name@ == name
            && forall|j: int| i <= j < k ==> fs[j].name@ != name,
        podl_index_from(fs, name, i) is None ==> forall|j: int|
            i <= j < fs.len() ==> fs[j].name@ != name,
    decreases fs.len() - i,
{
    if i < fs.len() && fs[i].name@ != name {
        lemma_podl_index_from(fs, name, i + 1);
    }
}

/// The position of the first field named `at0` that has a nested field
/// named `at1`, from position `i` on, with the position of that nested
/// field.
pub open spec fn podl_pair_from(fs: Seq<FieldPODL>, at0: Seq<char>, at1: Seq<char>, i: int) -> Option<
    (int, int),
>
    decreases fs.len() - i,
{
    if i < 0 || i >= fs.len() {
        None
    } else if fs[i].name@ == at0 && podl_index_from(fs[i].nested_fields@, at1, 0) is Some {
        Some((i, podl_index_from(fs[i].nested_fields@, at1, 0).unwrap()))
    } else {
        podl_pair_from(fs, at0, at1, i + 1)
    }
}

/// `podl_pair_from` lies within the fields.
pub proof fn lemma_podl_pair_from(fs: Seq<FieldPODL>, at0: Seq<char>, at1: Seq<char>, i: int)
    requires
        0 <= i,
    ensures
        podl_pair_from(fs, at0, at1, i) matches Some(p) ==> i <= p.0 < fs.len() && fs[p.0].name@
            == at0 && 0 <= p.1 < fs[p.0].nested_fields@.len() && fs[p.0].nested_fields@[p.1].name@
            == at1,
    decreases fs.len() - i,
{
    if i < fs.len() {
        lemma_podl_index_from(fs[i].nested_fields@, at1, 0);
        lemma_podl_pair_from(fs, at0, at1, i + 1);
    }
}

/// A storable class of PODL, with its fields at up to three levels.
#[derive(Debug)]
pub struct ClassPODL {
    pub type_str: String,
    pub descr: String,
    pub no_of_fields: i32,
    pub table_name: String,
    pub fields: Vec<FieldPODL>,
    /// Names of the fields added at the top level.
    pub fields_0th_lvl: Vec<String>,
    /// (top-level field, field) pairs added at the first nested level.
    pub fields_1st_lvl: Vec<(String, String)>,
    /// (top-level field, first-level field, field) triples added at the
    /// second nested level.
    pub fields_2nd_lvl: Vec<(String, String, String)>,
}

/// The text of a sequence of string pairs.
pub open spec fn pair_views(v: Seq<(String, String)>) -> Seq<(Seq<char>, Seq<char>)> {
    v.map_values(|p: (String, String)| (p.0@, p.1@))
}

/// The text of a sequence of string triples.
pub open spec fn triple_views(v: Seq<(String, String, String)>) -> Seq<
    (Seq<char>, Seq<char>, Seq<char>),
> {
    v.map_values(|p: (String, String, String)| (p.0@, p.1@, p.2@))
}

/// The first character of `s`, or a space for an empty `s`.
pub open spec fn first_char(s: Seq<char>) -> char {
    if s.len() > 0 {
        s[0]
    } else {
        ' '
    }
}

/// The number of tab characters at the start of `s`.
pub open spec fn leading_tabs(s: Seq<char>) -> nat
    decreases s.len(),
{
    if s.len() > 0 && s[0] == '\t' {
        1 + leading_tabs(s.drop_first())
    } else {
        0
    }
}

/// The first character of a string, or a space for an empty one.
pub fn get_first_char(s: &str) -> (c: char)
    ensures
        c == first_char(s@),
{
    let v = chars_of(s);
    if v.len() > 0 {
        v[0]
    } else {
        ' '
    }
}

/// The number of tab characters at the start of a string.
pub fn get_begining_tab_count(s: &str) -> (n: i32)
    requires
        leading_tabs(s@) <= i32::MAX,
    ensures
        n == leading_tabs(s@),
{
    let v = chars_of(s);
    let mut count: i32 = 0;
    let mut i: usize = 0;
    assert(v@.skip(0) =~= v@);
    while i < v.len() && v[i] == '\t'
        invariant
            i <= v@.len(),
            count == i,
            leading_tabs(v@) == i + leading_tabs(v@.skip(i as int)),
            leading_tabs(v@) <= i32::MAX,
        decreases v@.len() - i,
    {
        assert(v@.skip(i as int).drop_first() =~= v@.skip(i + 1));
        count = count + 1;
        i = i + 1;
    }
    assert(leading_tabs(v@.skip(i as int)) == 0);
    count
}

/// The field count of a class is the number of its top-level fields plus
/// `base`, and each top-level field has its name recorded.
pub open spec fn class_counts(c: ClassPODL, base: int) -> bool {
    &&& c.fields@.len() == c.fields_0th_lvl@.len()
    &&& c.no_of_fields == c.fields@.len() + base
}

/// `c` holds no field yet and its count stands at `base`.
pub open spec fn class_fresh(c: ClassPODL, base: int) -> bool {
    &&& c.fields@.len() == 0
    &&& c.fields_0th_lvl@.len() == 0
    &&& c.no_of_fields == base
}

/// From `a` to `b` the fields, the recorded top-level names and the count
/// grow by the same number.
pub open spec fn counted_step(a: ClassPODL, b: ClassPODL) -> bool {
    &&& b.fields@.len() - a.fields@.len() == b.fields_0th_lvl@.len() - a.fields_0th_lvl@.len()
    &&& b.no_of_fields - a.no_of_fields == b.fields@.len() - a.fields@.len()
}

impl ClassPODL {
    /// An empty class with no fields counted yet (-1).
    pub fn new() -> (c: ClassPODL)
        ensures
            c.type_str@ == Seq::<char>::empty(),
            c.descr@ == Seq::<char>::empty(),
            c.table_name@ == Seq::<char>::empty(),
            c.no_of_fields == -1,
            c.fields@.len() == 0,
            c.fields_0th_lvl@.len() == 0,
            c.fields_1st_lvl@.len() == 0,
            c.fields_2nd_lvl@.len() == 0,
            class_counts(c, -1),
            class_fresh(c, -1),
    {
        ClassPODL {
            type_str: String::new(),
            descr: String::new(),
            table_name: String::new(),
            no_of_fields: -1,
            fields: Vec::new(),
            fields_0th_lvl: Vec::new(),
            fields_1st_lvl: Vec::new(),
            fields_2nd_lvl: Vec::new(),
        }
    }

    /// A class of the given type, description and table, with no fields.
    pub fn new_value(stype: String, sdescr: String, stable_name: String) -> (c: ClassPODL)
        ensures
            c.type_str@ == stype@,
            c.descr@ == sdescr@,
            c.table_name@ == stable_name@,
            c.no_of_fields == 0,
            c.fields@.len() == 0,
            c.fields_0th_lvl@.len() == 0,
            c.fields_1st_lvl@.len() == 0,
            c.fields_2nd_lvl@.len() == 0,
            class_counts(c, 0),
            class_fresh(c, 0),
    {
        ClassPODL {
            type_str: stype,
            descr: sdescr,
            table_name: stable_name,
            no_of_fields: 0,
            fields: Vec::new(),
            fields_0th_lvl: Vec::new(),
            fields_1st_lvl: Vec::new(),
            fields_2nd_lvl: Vec::new(),
        }
    }

    /// Add a top-level field, once per name; each added field is counted.
    pub fn add_0th_lvl_field(&mut self, field_name: String, field: FieldPODL)
        requires
            !str_views(old(self).fields_0th_lvl@).contains(field_name@) ==> old(self).no_of_fields
                < i32::MAX,
        ensures
            forall|base: int| class_counts(*old(self), base) ==> class_counts(*final(self), base),
            counted_step(*old(self), *final(self)),
            str_views(old(self).fields_0th_lvl@).contains(field_name@) ==> *final(self) == *old(
                self,
            ),
            !str_views(old(self).fields_0th_lvl@).contains(field_name@) ==> {
                &&& final(self).no_of_fields == old(self).no_of_fields + 1
                &&& final(self).fields@ == old(self).fields@.push(field)
                &&& str_views(final(self).fields_0th_lvl@) == str_views(
                    old(self).fields_0th_lvl@,
                ).push(field_name@)
                &&& final(self).fields_1st_lvl == old(self).fields_1st_lvl
                &&& final(self).fields_2nd_lvl == old(self).fields_2nd_lvl
                &&& final(self).type_str == old(self).type_str
                &&& final(self).descr == old(self).descr
                &&& final(self).table_name == old(self).table_name
            },
    {
        if crate::text::strings_contain(&self.fields_0th_lvl, &field_name) {
            return;
        }
        self.no_of_fields = self.no_of_fields + 1;
        self.fields.push(field);
        let ghost names = self.fields_0th_lvl@;
        push_string(&mut self.fields_0th_lvl, field_name);
        assert(str_views(self.fields_0th_lvl@).len() == str_views(names).len() + 1);
        assert(self.fields_0th_lvl@.len() == names.len() + 1);
    }

    /// Add a field below the first top-level field named `field_at_0th`,
    /// once per (top-level field, field) pair; nothing where no top-level
    /// field has that name.
    pub fn add_1st_lvl_field(&mut self, field_at_0th: String, field_name: String, field: FieldPODL)
        ensures
            forall|base: int| class_counts(*old(self), base) ==> class_counts(*final(self), base),
            counted_step(*old(self), *final(self)),
            ({
                let key = (field_at_0th@, field_name@);
                let fs = old(self).fields@;
                if pair_views(old(self).fields_1st_lvl@).contains(key) {
                    *final(self) == *old(self)
                } else {
                    match podl_index_from(fs, field_at_0th@, 0) {
                        None => *final(self) == *old(self),
                        Some(i) => {
                            &&& final(self).fields@.len() == fs.len()
                            &&& forall|j: int|
                                0 <= j < fs.len() && j != i ==> final(self).fields@[j] == fs[j]
                            &&& nested_pushed(fs[i], final(self).fields@[i], field)
                            &&& pair_views(final(self).fields_1st_lvl@) == pair_views(
                                old(self).fields_1st_lvl@,
                            ).push(key)
                            &&& final(self).fields_0th_lvl == old(self).fields_0th_lvl
                            &&& final(self).fields_2nd_lvl == old(self).fields_2nd_lvl
                            &&& final(self).no_of_fields == old(self).no_of_fields
                            &&& final(self).type_str == old(self).type_str
                            &&& final(self).descr == old(self).descr
                            &&& final(self).table_name == old(self).table_name
                        },
                    }
                }
            }),
    {
        if pairs_contain(&self.fields_1st_lvl, &field_at_0th, &field_name) {
            return;
        }
        let ghost fs = self.fields@;
        match find_podl(&self.fields, &field_at_0th) {
            None => {},
            Some(i) => {
                let mut f = self.fields.remove(i);
                f.nested_fields.push(field);
                self.fields.insert(i, f);
                let ghost pv = pair_views(self.fields_1st_lvl@);
                let ghost key = (field_at_0th@, field_name@);
                self.fields_1st_lvl.push((field_at_0th, field_name));
                assert(pair_views(self.fields_1st_lvl@) =~= pv.push(key));
                assert forall|j: int| 0 <= j < fs.len() && j != i implies self.fields@[j]
                    == fs[j] by {
                    if j < i {
                        assert(self.fields@[j] == fs.remove(i as int)[j]);
                    } else {
                        assert(self.fields@[j] == fs.remove(i as int)[j - 1]);
                    }
                }
            },
        }
    }

    /// Add a field below the first first-level field named `field_at_1st`
    /// of the first top-level field named `field_at_0th` that has one, once
    /// per triple; nothing where there is no such field.
    pub fn add_2nd_lvl_field(
        &mut self,
        field_at_0th: String,
        field_at_1st: String,
        field_name: String,
        field: FieldPODL,
    )
        ensures
            forall|base: int| class_counts(*old(self), base) ==> class_counts(*final(self), base),
            counted_step(*old(self), *final(self)),
            ({
                let key = (field_at_0th@, field_at_1st@, field_name@);
                let fs = old(self).fields@;
                if triple_views(old(self).fields_2nd_lvl@).contains(key) {
                    *final(self) == *old(self)
                } else {
                    match podl_pair_from(fs, field_at_0th@, field_at_1st@, 0) {
                        None => *final(self) == *old(self),
                        Some(p) => {
                            let (i, j) = p;
                            &&& final(self).fields@.len() == fs.len()
                            &&& forall|k: int|
                                0 <= k < fs.len() && k != i ==> final(self).fields@[k] == fs[k]
                            &&& final(self).fields@[i]@ == fs[i]@
                            &&& final(self).fields@[i].nested_fields@.len()
                                == fs[i].nested_fields@.len()
                            &&& forall|k: int|
                                0 <= k < fs[i].nested_fields@.len() && k != j
                                    ==> final(self).fields@[i].nested_fields@[k]
                                    == fs[i].nested_fields@[k]
                            &&& nested_pushed(
                                fs[i].nested_fields@[j],
                                final(self).fields@[i].nested_fields@[j],
                                field,
                            )
                            &&& triple_views(final(self).fields_2nd_lvl@) == triple_views(
                                old(self).fields_2nd_lvl@,
                            ).push(key)
                            &&& final(self).fields_0th_lvl == old(self).fields_0th_lvl
                            &&& final(self).fields_1st_lvl == old(self).fields_1st_lvl
                            &&& final(self).no_of_fields == old(self).no_of_fields
                            &&& final(self).type_str == old(self).type_str
                            &&& final(self).descr == old(self).descr
                            &&& final(self).table_name == old(self).table_name
                        },
                    }
                }
            }),
    {
        if triples_contain(&self.fields_2nd_lvl, &field_at_0th, &field_at_1st, &field_name) {
            return;
        }
        let ghost fs = self.fields@;
        match find_podl_pair(&self.fields, &field_at_0th, &field_at_1st) {
            None => {},
            Some((i, j)) => {
                let mut f = self.fields.remove(i);
                let ghost nf = f.nested_fields@;
                let mut g = f.nested_fields.remove(j);
                g.nested_fields.push(field);
                f.nested_fields.insert(j, g);
                assert forall|k: int| 0 <= k < nf.len() && k != j implies f.nested_fields@[k]
                    == nf[k] by {
                    if k < j {
                        assert(f.nested_fields@[k] == nf.remove(j as int)[k]);
                    } else {
                        assert(f.nested_fields@[k] == nf.remove(j as int)[k - 1]);
                    }
                }
                self.fields.insert(i, f);
                let ghost tv = triple_views(self.fields_2nd_lvl@);
                let ghost key = (field_at_0th@, field_at_1st@, field_name@);
                self.fields_2nd_lvl.push((field_at_0th, field_at_1st, field_name));
                assert(triple_views(self.fields_2nd_lvl@) =~= tv.push(key));
                assert forall|k: int| 0 <= k < fs.len() && k != i implies self.fields@[k]
                    == fs[k] by {
                    if k < i {
                        assert(self.fields@[k] == fs.remove(i as int)[k]);
                    } else {
                        assert(self.fields@[k] == fs.remove(i as int)[k - 1]);
                    }
                }
            },
        }
    }
}

/// Decide whether a vector of pairs holds `(a, b)`.
fn pairs_contain(v: &Vec<(String, String)>, a: &String, b: &String) -> (r: bool)
    ensures
        r == pair_views(v@).contains((a@, b@)),
{
    let n = v.len();
    for i in 0..n
        invariant
            n == v@.len(),
            forall|j: int| 0 <= j < i ==> pair_views(v@)[j] != (a@, b@),
    {
        if v[i].0 == *a && v[i].1 == *b {
            assert(pair_views(v@)[i as int] == (a@, b@));
            return true;
        }
    }
    false
}

/// Decide whether a vector of triples holds `(a, b, c)`.
fn triples_contain(v: &Vec<(String, String, String)>, a: &String, b: &String, c: &String) -> (r:
    bool)
    ensures
        r == triple_views(v@).contains((a@, b@, c@)),
{
    let n = v.len();
    for i in 0..n
        invariant
            n == v@.len(),
            forall|j: int| 0 <= j < i ==> triple_views(v@)[j] != (a@, b@, c@),
    {
        if v[i].0 == *a && v[i].1 == *b && v[i].2 == *c {
            assert(triple_views(v@)[i as int] == (a@, b@, c@));
            return true;
        }
    }
    false
}

/// The position of the first field named `name`.
fn find_podl(fs: &Vec<FieldPODL>, name: &String) -> (r: Option<usize>)
    ensures
        r matches Some(i) ==> podl_index_from(fs@, name@, 0) == Some(i as int) && i < fs@.len(),
        r is None ==> podl_index_from(fs@, name@, 0) is None,
{
    let n = fs.len();
    let mut i: usize = 0;
    while i < n
        invariant
            n == fs@.len(),
            i <= n,
            podl_index_from(fs@, name@, 0) == podl_index_from(fs@, name@, i as int),
        decreases n - i,
    {
        if fs[i].name == *name {
            return Some(i);
        }
        i = i + 1;
    }
    None
}

/// Compute `podl_pair_from` from the start.
fn find_podl_pair(fs: &Vec<FieldPODL>, at0: &String, at1: &String) -> (r: Option<(usize, usize)>)
    ensures
        r matches Some(p) ==> podl_pair_from(fs@, at0@, at1@, 0) == Some((p.0 as int, p.1 as int))
            && p.0 < fs@.len() && p.1 < fs@[p.0 as int].nested_fields@.len(),
        r is None ==> podl_pair_from(fs@, at0@, at1@, 0) is None,
{
    let n = fs.len();
    let mut i: usize = 0;
    while i < n
        invariant
            n == fs@.len(),
            i <= n,
            podl_pair_from(fs@, at0@, at1@, 0) == podl_pair_from(fs@, at0@, at1@, i as int),
        decreases n - i,
    {
        if fs[i].name == *at0 {
            match find_podl(&fs[i].nested_fields, at1) {
                Some(j) => {
                    return Some((i, j));
                },
                None => {},
            }
        }
        i = i + 1;
    }
    None
}

/// The PODL type of a BRM data type: trimmed, without a `PIN_FLDT_`
/// prefix, with `STR` read as `STRING` and `TSTAMP` as `TIMESTAMP`.
pub open spec fn podl_type(dt: Seq<char>) -> Seq<char> {
    let t = trim(dt);
    if has_prefix(t, "PIN_FLDT_"@) {
        let u = t.skip(9);
        if u == "STR"@ {
            "STRING"@
        } else if u == "TSTAMP"@ {
            "TIMESTAMP"@
        } else {
            u
        }
    } else {
        t
    }
}

/// `1` for true, `0` for false.
pub open spec fn bool_digit(b: bool) -> Seq<char> {
    if b {
        "1"@
    } else {
        "0"@
    }
}

/// `n` tab characters.
pub open spec fn tabs(n: nat) -> Seq<char>
    decreases n,
{
    if n == 0 {
        Seq::empty()
    } else {
        tabs((n - 1) as nat).push('\t')
    }
}

/// The PODL block of one field at nesting depth `d` (the top-level fields
/// of a class are at depth 1): its attributes one tab deeper, then `inner`
/// (the blocks of the fields nested in it), then the closing brace.
#[verifier::opaque]
pub open spec fn field_block_at(f: FieldPODLView, d: nat, inner: Seq<char>) -> Seq<char> {
    let t = tabs(d);
    let u = tabs(d + 1);
    t + podl_type(f.data_type) + " "@ + f.name + " {\n"@ + u + "DESCR = "@ + f.descr + ";\n"@ + u
        + "ORDER = 0;\n"@ + u + "CREATE = "@ + create_text(f.create_flag) + ";\n"@ + u
        + "MODIFY = "@ + modify_text(f.modify_flag) + ";\n"@ + u + "AUDITABLE = "@ + bool_digit(
        f.audit_flag,
    ) + ";\n"@ + u + "ENCRYPTABLE = "@ + bool_digit(f.encryp_flag) + ";\n"@ + u
        + "SERIALIZABLE = 0;"@ + inner + "\n"@ + t + "}"@
}

/// The texts of `s`, one after the other.
pub open spec fn concat_all(s: Seq<Seq<char>>) -> Seq<char>
    decreases s.len(),
{
    if s.len() == 0 {
        Seq::empty()
    } else {
        concat_all(s.drop_last()) + s.last()
    }
}

/// A field nested at the first level, with the fields nested in it.
pub struct FieldLevel2 {
    pub field: FieldPODLView,
    pub nested: Seq<FieldPODLView>,
}

/// A top-level field, with the fields nested in it and in those.
pub struct FieldLevel1 {
    pub field: FieldPODLView,
    pub nested: Seq<FieldLevel2>,
}

/// A first-level nested field, with the fields nested in it.
pub open spec fn level2_of(g: FieldPODL) -> FieldLevel2 {
    FieldLevel2 { field: g@, nested: podl_views(g.nested_fields@) }
}

/// A top-level field, with its two levels of nested fields.
pub open spec fn level1_of(f: FieldPODL) -> FieldLevel1 {
    FieldLevel1 { field: f@, nested: f.nested_fields@.map_values(|g: FieldPODL| level2_of(g)) }
}

/// The fields of a class, with their nested fields.
pub open spec fn class_trees(fs: Seq<FieldPODL>) -> Seq<FieldLevel1> {
    fs.map_values(|f: FieldPODL| level1_of(f))
}

/// The block of a second-level nested field (depth 3).
pub open spec fn level3_text(v: FieldPODLView) -> Seq<char> {
    "\n"@ + field_block_at(v, 3, Seq::empty())
}

/// The block of a first-level nested field (depth 2), with the blocks of
/// the fields nested in it.
pub open spec fn level2_text(l: FieldLevel2) -> Seq<char> {
    field_block_at(l.field, 2, concat_all(l.nested.map_values(|v: FieldPODLView| level3_text(v))))
}

/// The block of a top-level field (depth 1), with the blocks of the fields
/// nested in it, each on lines of its own.
pub open spec fn level1_text(l: FieldLevel1) -> Seq<char> {
    field_block_at(
        l.field,
        1,
        concat_all(l.nested.map_values(|n: FieldLevel2| "\n"@ + level2_text(n))),
    )
}

/// The PODL header of a storable class.
pub open spec fn class_header(type_str: Seq<char>, descr: Seq<char>) -> Seq<char> {
    "#=======================================\n#  Storable Class "@ + type_str
        + "\n#=======================================\n\nSTORABLE CLASS "@ + type_str
        + " {\n\tDESCR = "@ + descr
        + ";\n\tREAD_ACCESS = \"BrandLineage\";\n\tWRITE_ACCESS = \"BrandLineage\";\n\tIS_PARTITIONED = \"0\";\n\tEVENT_TYPE = \"NONE\";"@
}

/// The banner before the fields of a class.
pub open spec fn fields_banner() -> Seq<char> {
    "\t#=======================================\n\t#  Fields\n\t#======================================="@
}

/// The views of a sequence of PODL fields.
pub open spec fn podl_views(fs: Seq<FieldPODL>) -> Seq<FieldPODLView> {
    fs.map_values(|f: FieldPODL| f@)
}

/// The PODL text of a class, piece by piece: the header, then (where there
/// are fields) the banner and one block per top-level field, holding the
/// blocks of the fields nested in it, then `}`.
pub open spec fn podl_pieces(type_str: Seq<char>, descr: Seq<char>, fs: Seq<FieldLevel1>) -> Seq<
    Seq<char>,
> {
    let body = if fs.len() > 0 {
        seq![fields_banner()] + fs.map_values(|f: FieldLevel1| level1_text(f))
    } else {
        Seq::empty()
    };
    seq![class_header(type_str, descr)] + body + seq!["}"@]
}

/// Compute `podl_type`.
fn podl_type_of(dt: &String) -> (r: String)
    ensures
        r@ == podl_type(dt@),
{
    let t = trim_chars(&chars_of(dt.as_str()));
    if starts_with_chars(&t, &chars_of("PIN_FLDT_")) {
        proof {
            reveal_strlit("PIN_FLDT_");
        }
        let u = sub_chars(&t, 9, t.len());
        assert(u@ =~= trim(dt@).skip(9));
        if chars_are(&u, "STR") {
            String::from_str("STRING")
        } else if chars_are(&u, "TSTAMP") {
            String::from_str("TIMESTAMP")
        } else {
            string_of(&u)
        }
    } else {
        string_of(&t)
    }
}

/// Compute `bool_digit`.
fn bool_text(b: bool) -> (r: &'static str)
    ensures
        r@ == bool_digit(b),
{
    if b {
        "1"
    } else {
        "0"
    }
}

/// Compute `tabs`.
fn tabs_text(n: usize) -> (r: String)
    ensures
        r@ == tabs(n as nat),
{
    let mut r = String::new();
    let mut i: usize = 0;
    while i < n
        invariant
            i <= n,
            r@ == tabs(i as nat),
        decreases n - i,
    {
        push_char(&mut r, '\t');
        i = i + 1;
    }
    r
}

/// Compute `field_block_at`.
fn field_block_at_of(f: &FieldPODL, d: usize, inner: &str) -> (r: String)
    requires
        d < usize::MAX,
    ensures
        r@ == field_block_at(f@, d as nat, inner@),
{
    reveal(field_block_at);
    let t = tabs_text(d);
    let u = tabs_text(d + 1);
    let mut r = String::new();
    r.append(t.as_str());
    let ty = podl_type_of(&f.data_type);
    r.append(ty.as_str());
    r.append(" ");
    r.append(f.name.as_str());
    r.append(" {\n");
    r.append(u.as_str());
    r.append("DESCR = ");
    r.append(f.descr.as_str());
    r.append(";\n");
    r.append(u.as_str());
    r.append("ORDER = 0;\n");
    r.append(u.as_str());
    r.append("CREATE = ");
    let c = f.create_flag.as_text();
    r.append(c.as_str());
    r.append(";\n");
    r.append(u.as_str());
    r.append("MODIFY = ");
    let m = f.modify_flag.as_text();
    r.append(m.as_str());
    r.append(";\n");
    r.append(u.as_str());
    r.append("AUDITABLE = ");
    r.append(bool_text(f.audit_flag));
    r.append(";\n");
    r.append(u.as_str());
    r.append("ENCRYPTABLE = ");
    r.append(bool_text(f.encryp_flag));
    r.append(";\n");
    r.append(u.as_str());
    r.append("SERIALIZABLE = 0;");
    r.append(inner);
    r.append("\n");
    r.append(t.as_str());
    r.append("}");
    r
}

/// Compute `level2_text` of a first-level nested field.
fn level2_text_of(g: &FieldPODL) -> (r: String)
    ensures
        r@ == level2_text(level2_of(*g)),
{
    let ghost parts = podl_views(g.nested_fields@).map_values(|v: FieldPODLView| level3_text(v));
    let mut inner = String::new();
    let n = g.nested_fields.len();
    for i in 0..n
        invariant
            n == g.nested_fields@.len(),
            parts == podl_views(g.nested_fields@).map_values(|v: FieldPODLView| level3_text(v)),
            inner@ == concat_all(parts.take(i as int)),
    {
        proof {
            reveal_strlit("");
        }
        let b = field_block_at_of(&g.nested_fields[i], 3, "");
        let ghost before = inner@;
        inner.append("\n");
        let ghost mid = inner@;
        inner.append(b.as_str());
        assert(""@ =~= Seq::<char>::empty());
        assert(inner@ == mid + b@);
        assert(mid == before + "\n"@);
        assert(parts[i as int] == level3_text(g.nested_fields@[i as int]@));
        assert(parts.take(i + 1).drop_last() =~= parts.take(i as int));
        assert(inner@ =~= before + parts[i as int]);
    }
    assert(parts.take(n as int) =~= parts);
    field_block_at_of(g, 2, inner.as_str())
}

/// Compute `level1_text` of a top-level field.
fn level1_text_of(f: &FieldPODL) -> (r: String)
    ensures
        r@ == level1_text(level1_of(*f)),
{
    let ghost kids = f.nested_fields@.map_values(|g: FieldPODL| level2_of(g));
    let ghost parts = kids.map_values(|k: FieldLevel2| "\n"@ + level2_text(k));
    let mut inner = String::new();
    let n = f.nested_fields.len();
    for i in 0..n
        invariant
            n == f.nested_fields@.len(),
            kids == f.nested_fields@.map_values(|g: FieldPODL| level2_of(g)),
            parts == kids.map_values(|k: FieldLevel2| "\n"@ + level2_text(k)),
            inner@ == concat_all(parts.take(i as int)),
    {
        let b = level2_text_of(&f.nested_fields[i]);
        let ghost before = inner@;
        inner.append("\n");
        let ghost mid = inner@;
        inner.append(b.as_str());
        assert(kids[i as int] == level2_of(f.nested_fields@[i as int]));
        assert(b@ == level2_text(kids[i as int]));
        assert(inner@ == mid + b@);
        assert(mid == before + "\n"@);
        assert(parts[i as int] == "\n"@ + level2_text(level2_of(f.nested_fields@[i as int])));
        assert(parts.take(i + 1).drop_last() =~= parts.take(i as int));
        assert(inner@ =~= before + parts[i as int]);
    }
    assert(parts.take(n as int) =~= parts);
    field_block_at_of(f, 1, inner.as_str())
}

impl ClassPODL {
    /// The PODL text of the class, piece by piece (see `podl_pieces`).
    #[verifier::rlimit(40)]
    pub fn generate_podl(&self) -> (r: Vec<String>)
        ensures
            str_views(r@) == podl_pieces(self.type_str@, self.descr@, class_trees(self.fields@)),
    {
        let mut podl_content: Vec<String> = Vec::new();
        let mut header = String::from_str("#=======================================\n#  Storable Class ");
        header.append(self.type_str.as_str());
        header.append("\n#=======================================\n\nSTORABLE CLASS ");
        header.append(self.type_str.as_str());
        header.append(" {\n\tDESCR = ");
        header.append(self.descr.as_str());
        header.append(
            ";\n\tREAD_ACCESS = \"BrandLineage\";\n\tWRITE_ACCESS = \"BrandLineage\";\n\tIS_PARTITIONED = \"0\";\n\tEVENT_TYPE = \"NONE\";",
        );
        push_string(&mut podl_content, header);
        let ghost fs = class_trees(self.fields@);
        let ghost blocks = fs.map_values(|f: FieldLevel1| level1_text(f));
        if self.fields.len() > 0 {
            push_string(
                &mut podl_content,
                String::from_str(
                    "\t#=======================================\n\t#  Fields\n\t#=======================================",
                ),
            );
            let ghost head = str_views(podl_content@);
            let n = self.fields.len();
            for i in 0..n
                invariant
                    n == self.fields@.len(),
                    fs == class_trees(self.fields@),
                    blocks == fs.map_values(|f: FieldLevel1| level1_text(f)),
                    str_views(podl_content@) == head + blocks.take(i as int),
            {
                let b = level1_text_of(&self.fields[i]);
                assert(fs[i as int] == level1_of(self.fields@[i as int]));
                assert(b@ == blocks[i as int]);
                let ghost before = str_views(podl_content@);
                push_string(&mut podl_content, b);
                assert(str_views(podl_content@) == before.push(blocks[i as int]));
                assert(blocks.take(i + 1) =~= blocks.take(i as int).push(blocks[i as int]));
            }
            assert(blocks.take(n as int) =~= blocks);
        }
        push_string(&mut podl_content, String::from_str("}"));
        assert(str_views(podl_content@) =~= podl_pieces(self.type_str@, self.descr@, fs));
        podl_content
    }
}

/// The `i`-th piece of a split, or `dflt` where there are fewer pieces.
pub open spec fn piece_or(parts: Seq<Seq<char>>, i: int, dflt: Seq<char>) -> Seq<char> {
    if 0 <= i < parts.len() {
        parts[i]
    } else {
        dflt
    }
}

/// The creation flag of a flags entry.
pub open spec fn create_flag_of(s: Seq<char>) -> ObjCreatePermission {
    if s == "0"@ {
        ObjCreatePermission::Required
    } else if s == "1"@ {
        ObjCreatePermission::Optional
    } else if s == "2"@ {
        ObjCreatePermission::Prohibited
    } else if s == "3"@ {
        ObjCreatePermission::System
    } else {
        ObjCreatePermission::Required
    }
}

/// The modification flag of a flags entry.
pub open spec fn modify_flag_of(s: Seq<char>) -> ObjModifyPermission {
    if s == "0"@ {
        ObjModifyPermission::Writeable
    } else if s == "1"@ {
        ObjModifyPermission::NotWriteable
    } else if s == "2"@ {
        ObjModifyPermission::System
    } else {
        ObjModifyPermission::Writeable
    }
}

/// The PODL field that a field specification makes: the name trimmed, type
/// and number from the loaded fields, description and column (pieces 0 and
/// 1, trimmed), flags `create,modify,audit,encrypt` (piece 2, default
/// `0,0,0,0`), and for a `PIN_FLDT_STR` field a length (piece 3, default 60).
pub open spec fn field_podl_spec(t: Seq<FieldView>, field_name: Seq<char>, data: Seq<Seq<char>>) -> FieldPODLView {
    let fname = trim(field_name);
    let dtype = field_type_of(t, fname);
    let flags = split(trim(piece_or(data, 2, "0,0,0,0"@)), ","@);
    FieldPODLView {
        name: fname,
        num: field_num_of(t, fname) as i32,
        data_type: dtype,
        descr: trim(piece_or(data, 0, Seq::empty())),
        data_length: if dtype == "PIN_FLDT_STR"@ {
            if data.len() > 3 {
                match parse_i32(data[3]) {
                    Some(v) => v as i32,
                    None => 60,
                }
            } else {
                60
            }
        } else {
            0
        },
        create_flag: create_flag_of(piece_or(flags, 0, "0"@)),
        modify_flag: modify_flag_of(piece_or(flags, 1, "0"@)),
        audit_flag: piece_or(flags, 2, "0"@) == "1"@,
        encryp_flag: piece_or(flags, 3, "0"@) == "1"@,
        col_tab_name: trim(piece_or(data, 1, Seq::empty())),
    }
}

/// Compute `piece_or` on a vector of character vectors.
fn piece_of(parts: &Vec<Vec<char>>, i: usize, dflt: &str) -> (r: Vec<char>)
    ensures
        r@ == piece_or(char_views(parts@), i as int, dflt@),
{
    if i < parts.len() {
        sub_chars(&parts[i], 0, parts[i].len())
    } else {
        chars_of(dflt)
    }
}

/// Compute `create_flag_of`.
fn create_flag_from(s: &Vec<char>) -> (r: ObjCreatePermission)
    ensures
        r == create_flag_of(s@),
{
    if chars_are(s, "0") {
        ObjCreatePermission::Required
    } else if chars_are(s, "1") {
        ObjCreatePermission::Optional
    } else if chars_are(s, "2") {
        ObjCreatePermission::Prohibited
    } else if chars_are(s, "3") {
        ObjCreatePermission::System
    } else {
        ObjCreatePermission::Required
    }
}

/// Compute `modify_flag_of`.
fn modify_flag_from(s: &Vec<char>) -> (r: ObjModifyPermission)
    ensures
        r == modify_flag_of(s@),
{
    if chars_are(s, "0") {
        ObjModifyPermission::Writeable
    } else if chars_are(s, "1") {
        ObjModifyPermission::NotWriteable
    } else if chars_are(s, "2") {
        ObjModifyPermission::System
    } else {
        ObjModifyPermission::Writeable
    }
}

/// Make the PODL field of a field specification (see `field_podl_spec`),
/// with no nested fields.
pub fn create_field_podl(store: &SessionStore, session_id: &str, field_name: &str, data: Vec<String>) -> (f: FieldPODL)
    ensures
        f@ == field_podl_spec(store.table(session_id@), field_name@, str_views(data@)),
        f.nested_fields@.len() == 0,
{
    let fname = string_of(&trim_chars(&chars_of(field_name)));
    let fnum = get_field_num(store, session_id, fname.as_str());
    let fdata_type = get_field_type(store, session_id, fname.as_str());
    let mut dv: Vec<Vec<char>> = Vec::new();
    let n = data.len();
    for i in 0..n
        invariant
            n == data@.len(),
            char_views(dv@) == str_views(data@).take(i as int),
    {
        let c = chars_of(data[i].as_str());
        let ghost before = dv@;
        dv.push(c);
        assert(char_views(dv@) =~= char_views(before).push(c@));
        assert(str_views(data@).take(i + 1) =~= str_views(data@).take(i as int).push(data@[i as int]@));
    }
    assert(str_views(data@).take(n as int) =~= str_views(data@));
    proof {
        reveal_strlit("");
        assert(""@ =~= Seq::<char>::empty());
        reveal_strlit(",");
    }
    let fdescr = string_of(&trim_chars(&piece_of(&dv, 0, "")));
    let fcol_tab_name = string_of(&trim_chars(&piece_of(&dv, 1, "")));
    let flags_str = trim_chars(&piece_of(&dv, 2, "0,0,0,0"));
    let flags = split_chars(&flags_str, &chars_of(","));
    let fcreate_flag = create_flag_from(&piece_of(&flags, 0, "0"));
    let fmodify_flag = modify_flag_from(&piece_of(&flags, 1, "0"));
    let faudit_flag = chars_are(&piece_of(&flags, 2, "0"), "1");
    let fencryp_flag = chars_are(&piece_of(&flags, 3, "0"), "1");
    let fdata_length: i32 = if chars_are(&chars_of(fdata_type.as_str()), "PIN_FLDT_STR") {
        if dv.len() > 3 {
            assert(char_views(dv@)[3] == dv@[3]@);
            match parse_i32_chars(&dv[3]) {
                Some(v) => v,
                None => 60,
            }
        } else {
            60
        }
    } else {
        0
    };
    FieldPODL {
        name: fname,
        num: fnum,
        data_type: fdata_type,
        descr: fdescr,
        data_length: fdata_length,
        create_flag: fcreate_flag,
        modify_flag: fmodify_flag,
        audit_flag: faudit_flag,
        encryp_flag: fencryp_flag,
        nested_fields: Vec::new(),
        col_tab_name: fcol_tab_name,
    }
}

/// The PODL block of one line of a field specification
/// (`name|description|type|id`), or a comment for a line of fewer parts.
pub open spec fn fld_spec_block(line: Seq<char>) -> Seq<char> {
    let p = split(line, seq!['|']);
    if p.len() >= 4 {
        "#=======================================\n#  Field "@ + trim(p[0])
            + "\n#=======================================\n\n"@ + trim(p[2]) + " "@ + trim(p[0])
            + " {\n\tID = "@ + trim(p[3]) + ";\n\tDESCR = "@ + trim(p[1]) + ";\n}\n"@
    } else {
        "# Invalid line format: "@ + line + "\n"@
    }
}

/// The PODL of a field specification: one block per line, joined by line
/// breaks.
pub open spec fn fld_spec_podl(data: Seq<char>) -> Seq<char> {
    join(lines(data).map_values(|l: Seq<char>| fld_spec_block(l)), "\n"@)
}

/// Compute `fld_spec_block`.
fn fld_spec_block_of(line: &Vec<char>) -> (r: String)
    ensures
        r@ == fld_spec_block(line@),
{
    let bar = vec!['|'];
    assert(bar@ =~= seq!['|']);
    let p = split_chars(line, &bar);
    if p.len() >= 4 {
        assert(char_views(p@)[0] == p@[0]@);
        assert(char_views(p@)[1] == p@[1]@);
        assert(char_views(p@)[2] == p@[2]@);
        assert(char_views(p@)[3] == p@[3]@);
        let name = trim_chars(&p[0]);
        let mut r = String::from_str("#=======================================\n#  Field ");
        push_chars(&mut r, &name);
        r.append("\n#=======================================\n\n");
        push_chars(&mut r, &trim_chars(&p[2]));
        r.append(" ");
        push_chars(&mut r, &name);
        r.append(" {\n\tID = ");
        push_chars(&mut r, &trim_chars(&p[3]));
        r.append(";\n\tDESCR = ");
        push_chars(&mut r, &trim_chars(&p[1]));
        r.append(";\n}\n");
        r
    } else {
        let mut r = String::from_str("# Invalid line format: ");
        push_chars(&mut r, line);
        r.append("\n");
        r
    }
}

/// Convert a field specification (`name|description|type|id` lines) to
/// PODL, for a session that has fields loaded; otherwise a message asking to
/// load them.
pub fn convert_fld_spec_to_podl(store: &SessionStore, session_id: &str, data: String) -> (r: String)
    ensures
        store.table(session_id@).len() == 0 ==> r@
            == "Please load BRM fields first using the load_obrm_fields endpoint !!!"@,
        store.table(session_id@).len() != 0 ==> r@ == fld_spec_podl(data@),
{
    if store.field_count(session_id) == 0 {
        return String::from_str("Please load BRM fields first using the load_obrm_fields endpoint !!!");
    }
    let ls = lines_chars(&chars_of(data.as_str()));
    let ghost blocks = lines(data@).map_values(|l: Seq<char>| fld_spec_block(l));
    let mut pieces: Vec<String> = Vec::new();
    let n = ls.len();
    for i in 0..n
        invariant
            n == ls@.len(),
            char_views(ls@) == lines(data@),
            blocks == lines(data@).map_values(|l: Seq<char>| fld_spec_block(l)),
            str_views(pieces@) == blocks.take(i as int),
    {
        assert(char_views(ls@)[i as int] == ls@[i as int]@);
        let b = fld_spec_block_of(&ls[i]);
        push_string(&mut pieces, b);
        assert(blocks.take(i + 1) =~= blocks.take(i as int).push(blocks[i as int]));
    }
    assert(blocks.take(n as int) =~= blocks);
    join_strings(&pieces, "\n")
}

/// The number of occurrences of `c` in `s`.
pub open spec fn count_char(s: Seq<char>, c: char) -> nat
    decreases s.len(),
{
    if s.len() == 0 {
        0
    } else {
        count_char(s.drop_last(), c) + if s.last() == c {
            1nat
        } else {
            0nat
        }
    }
}

/// Compute `count_char`.
fn count_char_in(s: &Vec<char>, c: char) -> (r: usize)
    ensures
        r == count_char(s@, c),
{
    let n = s.len();
    let mut r: usize = 0;
    for i in 0..n
        invariant
            n == s@.len(),
            r == count_char(s@.take(i as int), c),
            r <= i,
    {
        assert(s@.take(i + 1).drop_last() =~= s@.take(i as int));
        if s[i] == c {
            r = r + 1;
        }
    }
    assert(s@.take(n as int) =~= s@);
    r
}

/// What the PODL output of a class specification depends on while it is
/// read: the class header, the field count, the top-level fields and their
/// names, and the current top-level and first-level field names.
#[verifier::ext_equal]
pub struct ClassModel {
    pub type_str: Seq<char>,
    pub descr: Seq<char>,
    pub no_of_fields: int,
    pub fields: Seq<FieldLevel1>,
    pub lvl0: Seq<Seq<char>>,
    pub lvl1: Seq<(Seq<char>, Seq<char>)>,
    pub lvl2: Seq<(Seq<char>, Seq<char>, Seq<char>)>,
    pub cur0: Seq<char>,
    pub cur1: Seq<char>,
}

/// The model of a class being read, with the current field names.
pub open spec fn class_model(c: ClassPODL, cur0: Seq<char>, cur1: Seq<char>) -> ClassModel {
    ClassModel {
        type_str: c.type_str@,
        descr: c.descr@,
        no_of_fields: c.no_of_fields as int,
        fields: class_trees(c.fields@),
        lvl0: str_views(c.fields_0th_lvl@),
        lvl1: pair_views(c.fields_1st_lvl@),
        lvl2: triple_views(c.fields_2nd_lvl@),
        cur0: cur0,
        cur1: cur1,
    }
}

/// The model before a class specification is read.
pub open spec fn class_start() -> ClassModel {
    ClassModel {
        type_str: Seq::empty(),
        descr: Seq::empty(),
        no_of_fields: -1,
        fields: Seq::empty(),
        lvl0: Seq::empty(),
        lvl1: Seq::empty(),
        lvl2: Seq::empty(),
        cur0: "None"@,
        cur1: "None"@,
    }
}

/// The first position at or after `i` of a top-level field named `name`.
pub open spec fn tree_index_from(ts: Seq<FieldLevel1>, name: Seq<char>, i: int) -> Option<int>
    decreases ts.len() - i,
{
    if i < 0 || i >= ts.len() {
        None
    } else if ts[i].field.name == name {
        Some(i)
    } else {
        tree_index_from(ts, name, i + 1)
    }
}

/// The first position at or after `i` of a first-level field named `name`.
pub open spec fn kid_index_from(ks: Seq<FieldLevel2>, name: Seq<char>, i: int) -> Option<int>
    decreases ks.len() - i,
{
    if i < 0 || i >= ks.len() {
        None
    } else if ks[i].field.name == name {
        Some(i)
    } else {
        kid_index_from(ks, name, i + 1)
    }
}

/// The first top-level field named `at0`, from `i` on, that holds a
/// first-level field named `at1`, with the position of that field.
pub open spec fn tree_pair_from(ts: Seq<FieldLevel1>, at0: Seq<char>, at1: Seq<char>, i: int) -> Option<
    (int, int),
>
    decreases ts.len() - i,
{
    if i < 0 || i >= ts.len() {
        None
    } else if ts[i].field.name == at0 && kid_index_from(ts[i].nested, at1, 0) is Some {
        Some((i, kid_index_from(ts[i].nested, at1, 0).unwrap()))
    } else {
        tree_pair_from(ts, at0, at1, i + 1)
    }
}

/// Adding `f` below the first top-level field named `at0`, once per (`at0`,
/// `name`) pair; nothing where no top-level field has that name.
pub open spec fn add_nested1(m: ClassModel, at0: Seq<char>, name: Seq<char>, f: FieldPODLView) -> ClassModel {
    if m.lvl1.contains((at0, name)) {
        m
    } else {
        match tree_index_from(m.fields, at0, 0) {
            None => m,
            Some(i) => ClassModel {
                fields: m.fields.update(
                    i,
                    FieldLevel1 {
                        nested: m.fields[i].nested.push(FieldLevel2 { field: f, nested: Seq::empty() }),
                        ..m.fields[i]
                    },
                ),
                lvl1: m.lvl1.push((at0, name)),
                ..m
            },
        }
    }
}

/// Adding `f` below the first first-level field named `at1` of the first
/// top-level field named `at0` that has one, once per triple; nothing where
/// there is no such field.
pub open spec fn add_nested2(
    m: ClassModel,
    at0: Seq<char>,
    at1: Seq<char>,
    name: Seq<char>,
    f: FieldPODLView,
) -> ClassModel {
    if m.lvl2.contains((at0, at1, name)) {
        m
    } else {
        match tree_pair_from(m.fields, at0, at1, 0) {
            None => m,
            Some(p) => {
                let (i, j) = p;
                let k = m.fields[i].nested[j];
                ClassModel {
                    fields: m.fields.update(
                        i,
                        FieldLevel1 {
                            nested: m.fields[i].nested.update(
                                j,
                                FieldLevel2 { nested: k.nested.push(f), ..k },
                            ),
                            ..m.fields[i]
                        },
                    ),
                    lvl2: m.lvl2.push((at0, at1, name)),
                    ..m
                }
            },
        }
    }
}

/// Finding a top-level field by name finds the same position in the model.
pub proof fn lemma_tree_index(fs: Seq<FieldPODL>, name: Seq<char>, i: int)
    requires
        0 <= i,
    ensures
        podl_index_from(fs, name, i) == tree_index_from(class_trees(fs), name, i),
    decreases fs.len() - i,
{
    if i < fs.len() {
        assert(class_trees(fs)[i].field.name == fs[i].name@);
        lemma_tree_index(fs, name, i + 1);
    }
}

/// Finding a first-level field by name finds the same position in the model.
pub proof fn lemma_kid_index(gs: Seq<FieldPODL>, name: Seq<char>, i: int)
    requires
        0 <= i,
    ensures
        podl_index_from(gs, name, i) == kid_index_from(
            gs.map_values(|g: FieldPODL| level2_of(g)),
            name,
            i,
        ),
    decreases gs.len() - i,
{
    if i < gs.len() {
        assert(gs.map_values(|g: FieldPODL| level2_of(g))[i].field.name == gs[i].name@);
        lemma_kid_index(gs, name, i + 1);
    }
}

/// Finding a first-level field below a top-level one finds the same
/// positions in the model.
pub proof fn lemma_tree_pair(fs: Seq<FieldPODL>, at0: Seq<char>, at1: Seq<char>, i: int)
    requires
        0 <= i,
    ensures
        podl_pair_from(fs, at0, at1, i) == tree_pair_from(class_trees(fs), at0, at1, i),
    decreases fs.len() - i,
{
    if i < fs.len() {
        let ts = class_trees(fs);
        assert(ts[i] == level1_of(fs[i]));
        lemma_kid_index(fs[i].nested_fields@, at1, 0);
        lemma_tree_pair(fs, at0, at1, i + 1);
    }
}

/// Adding a field below top-level field `i` adds its tree below that field
/// in the model.
pub proof fn lemma_trees_push1(fs: Seq<FieldPODL>, gs: Seq<FieldPODL>, i: int, x: FieldPODL)
    requires
        0 <= i < fs.len(),
        gs.len() == fs.len(),
        forall|j: int| 0 <= j < fs.len() && j != i ==> gs[j] == fs[j],
        nested_pushed(fs[i], gs[i], x),
    ensures
        class_trees(gs) == class_trees(fs).update(
            i,
            FieldLevel1 {
                nested: class_trees(fs)[i].nested.push(level2_of(x)),
                ..class_trees(fs)[i]
            },
        ),
{
    let a = class_trees(fs);
    let b = class_trees(gs);
    let want = a.update(i, FieldLevel1 { nested: a[i].nested.push(level2_of(x)), ..a[i] });
    assert(gs[i].nested_fields@.map_values(|g: FieldPODL| level2_of(g)) =~= fs[i].nested_fields@.map_values(
        |g: FieldPODL| level2_of(g),
    ).push(level2_of(x)));
    assert forall|j: int| 0 <= j < b.len() implies b[j] == want[j] by {
        if j != i {
            assert(gs[j] == fs[j]);
        }
    }
    assert(b =~= want);
}

/// Adding a field below first-level field `j` of top-level field `i` adds it
/// there in the model.
pub proof fn lemma_trees_push2(fs: Seq<FieldPODL>, gs: Seq<FieldPODL>, i: int, j: int, x: FieldPODL)
    requires
        0 <= i < fs.len(),
        0 <= j < fs[i].nested_fields@.len(),
        gs.len() == fs.len(),
        forall|k: int| 0 <= k < fs.len() && k != i ==> gs[k] == fs[k],
        gs[i]@ == fs[i]@,
        gs[i].nested_fields@.len() == fs[i].nested_fields@.len(),
        forall|k: int|
            0 <= k < fs[i].nested_fields@.len() && k != j ==> gs[i].nested_fields@[k]
                == fs[i].nested_fields@[k],
        nested_pushed(fs[i].nested_fields@[j], gs[i].nested_fields@[j], x),
    ensures
        ({
            let a = class_trees(fs);
            let k = a[i].nested[j];
            class_trees(gs) == a.update(
                i,
                FieldLevel1 {
                    nested: a[i].nested.update(j, FieldLevel2 { nested: k.nested.push(x@), ..k }),
                    ..a[i]
                },
            )
        }),
{
    let a = class_trees(fs);
    let b = class_trees(gs);
    let k = a[i].nested[j];
    let want = a.update(
        i,
        FieldLevel1 {
            nested: a[i].nested.update(j, FieldLevel2 { nested: k.nested.push(x@), ..k }),
            ..a[i]
        },
    );
    let gk = gs[i].nested_fields@;
    let fk = fs[i].nested_fields@;
    assert(podl_views(gk[j].nested_fields@) =~= podl_views(fk[j].nested_fields@).push(x@));
    let gm = gk.map_values(|g: FieldPODL| level2_of(g));
    let want2 = a[i].nested.update(j, FieldLevel2 { nested: k.nested.push(x@), ..k });
    assert forall|m: int| 0 <= m < gk.len() implies gm[m] == want2[m] by {
        if m != j {
            assert(gk[m] == fk[m]);
        }
    }
    assert(gm =~= want2);
    assert forall|m: int| 0 <= m < b.len() implies b[m] == want[m] by {
        if m != i {
            assert(gs[m] == fs[m]);
        }
    }
    assert(b =~= want);
}

/// A line of a class specification that defines a field (not blank, at
/// least two `|`-separated parts, not starting with `/`).
pub open spec fn class_field_line(line: Seq<char>) -> bool {
    !all_ws(line) && split(line, seq!['|']).len() >= 2 && first_char(line) != '/'
}

/// Reading one line of a class specification. A line starting with `/`
/// that has two or more `/`, or a `->` in its second part, starts a class
/// (`type|description->table`); a field line at one tab adds a top-level
/// field once per name and makes it the current one; at two tabs it makes
/// the field the current first-level one and adds it below the current
/// top-level field; at three tabs it adds the field below the current
/// first-level field of the current top-level field.
pub open spec fn class_line_step(t: Seq<FieldView>, m: ClassModel, line: Seq<char>) -> ClassModel {
    let parts = split(line, seq!['|']);
    if all_ws(line) || parts.len() < 2 {
        m
    } else {
        let second = split(parts[1], "->"@);
        if first_char(line) == '/' {
            if count_char(line, '/') > 1 || second.len() > 1 {
                ClassModel {
                    type_str: trim(parts[0]),
                    descr: trim(second[0]),
                    no_of_fields: 0,
                    fields: Seq::empty(),
                    lvl0: Seq::empty(),
                    lvl1: Seq::empty(),
                    lvl2: Seq::empty(),
                    ..m
                }
            } else {
                m
            }
        } else {
            let depth = leading_tabs(line);
            let name = trim(parts[0]);
            if depth == 1 {
                if m.lvl0.contains(name) {
                    ClassModel { cur0: name, ..m }
                } else {
                    ClassModel {
                        cur0: name,
                        no_of_fields: m.no_of_fields + 1,
                        fields: m.fields.push(
                            FieldLevel1 {
                                field: field_podl_spec(t, parts[0], second),
                                nested: Seq::empty(),
                            },
                        ),
                        lvl0: m.lvl0.push(name),
                        ..m
                    }
                }
            } else if depth == 2 {
                let m1 = ClassModel { cur1: name, ..m };
                if m.cur0 == "None"@ {
                    m1
                } else {
                    add_nested1(m1, m.cur0, name, field_podl_spec(t, parts[0], second))
                }
            } else if depth == 3 && m.cur0 != "None"@ && m.cur1 != "None"@ {
                add_nested2(m, m.cur0, m.cur1, name, field_podl_spec(t, parts[0], second))
            } else {
                m
            }
        }
    }
}

/// Reading one line does not fail: the tab count of a field line fits an
/// `i32`, and so does the field count after adding a top-level field.
pub open spec fn class_line_ok(m: ClassModel, line: Seq<char>) -> bool {
    let parts = split(line, seq!['|']);
    class_field_line(line) ==> {
        &&& leading_tabs(line) <= i32::MAX
        &&& (leading_tabs(line) == 1 && !m.lvl0.contains(trim(parts[0]))) ==> m.no_of_fields
            < i32::MAX
    }
}

/// The lines of a class specification, four spaces read as a tab.
pub open spec fn class_lines(data: Seq<char>) -> Seq<Seq<char>> {
    lines(replace(data, "    "@, "\t"@))
}

/// The model after reading a class specification.
pub open spec fn class_run(t: Seq<FieldView>, data: Seq<char>) -> ClassModel {
    run_lines(class_start(), class_lines(data), |m: ClassModel, l: Seq<char>| class_line_step(t, m, l))
}

/// Reading a class specification does not fail.
pub open spec fn class_run_ok(data: Seq<char>) -> bool {
    run_lines_ok(
        class_start(),
        class_lines(data),
        |m: ClassModel, l: Seq<char>| class_line_step(Seq::empty(), m, l),
        |m: ClassModel, l: Seq<char>| class_line_ok(m, l),
    )
}

/// The PODL of a read class specification, or `No data found` where no
/// class line came.
pub open spec fn class_podl(m: ClassModel) -> Seq<char> {
    if m.no_of_fields >= 0 {
        join(podl_pieces(m.type_str, m.descr, m.fields), "\n"@)
    } else {
        "No data found"@
    }
}

/// The answer of `convert_class_spec_to_podl` for a session whose field
/// table is `t`.
pub open spec fn class_conversion(t: Seq<FieldView>, data: Seq<char>) -> Seq<char> {
    if t.len() == 0 {
        "Please load fields first !!!"@
    } else {
        class_podl(class_run(t, data))
    }
}

/// Whether a read does not fail does not depend on the field table, since
/// the table changes the fields added but not which names are added.
pub proof fn lemma_class_run_ok_table(t: Seq<FieldView>, ls: Seq<Seq<char>>, s: ClassModel)
    ensures
        run_lines_ok(
            s,
            ls,
            |m: ClassModel, l: Seq<char>| class_line_step(t, m, l),
            |m: ClassModel, l: Seq<char>| class_line_ok(m, l),
        ) == run_lines_ok(
            s,
            ls,
            |m: ClassModel, l: Seq<char>| class_line_step(Seq::empty(), m, l),
            |m: ClassModel, l: Seq<char>| class_line_ok(m, l),
        ),
        ({
            let a = run_lines(s, ls, |m: ClassModel, l: Seq<char>| class_line_step(t, m, l));
            let b = run_lines(
                s,
                ls,
                |m: ClassModel, l: Seq<char>| class_line_step(Seq::empty(), m, l),
            );
            a.no_of_fields == b.no_of_fields && a.lvl0 == b.lvl0
        }),
    decreases ls.len(),
{
    if ls.len() > 0 {
        lemma_class_run_ok_table(t, ls.drop_last(), s);
    }
}

/// Read one line of a class specification into the class and the current
/// field names.
fn class_line(
    store: &SessionStore,
    session_id: &str,
    obj: &mut ClassPODL,
    cur0: &mut String,
    cur1: &mut String,
    line: &Vec<char>,
)
    requires
        class_line_ok(class_model(*old(obj), old(cur0)@, old(cur1)@), line@),
    ensures
        class_model(*final(obj), final(cur0)@, final(cur1)@) == class_line_step(
            store.table(session_id@),
            class_model(*old(obj), old(cur0)@, old(cur1)@),
            line@,
        ),
{
    let ghost m0 = class_model(*obj, cur0@, cur1@);
    if all_whitespace(line) {
        return;
    }
    let first = if line.len() > 0 {
        line[0]
    } else {
        ' '
    };
    let bar = vec!['|'];
    assert(bar@ =~= seq!['|']);
    let parts = split_chars(line, &bar);
    if parts.len() < 2 {
        return;
    }
    assert(char_views(parts@)[0] == parts@[0]@);
    assert(char_views(parts@)[1] == parts@[1]@);
    proof {
        reveal_strlit("->");
    }
    let second = split_chars(&parts[1], &chars_of("->"));
    proof {
        lemma_split_nonempty(parts@[1]@, "->"@, 0);
    }
    assert(char_views(second@)[0] == second@[0]@);
    let name = string_of(&trim_chars(&parts[0]));
    if first == '/' {
        let slash_count = count_char_in(line, '/');
        if slash_count > 1 {
            *obj = ClassPODL::new_value(name, string_of(&trim_chars(&second[0])), String::new());
        } else if second.len() > 1 {
            assert(char_views(second@)[1] == second@[1]@);
            *obj = ClassPODL::new_value(
                name,
                string_of(&trim_chars(&second[0])),
                string_of(&trim_chars(&second[1])),
            );
        }
        assert(class_model(*obj, cur0@, cur1@) =~= class_line_step(
            store.table(session_id@),
            m0,
            line@,
        ));
    } else {
        let mut data: Vec<String> = Vec::new();
        let k = second.len();
        for i in 0..k
            invariant
                k == second@.len(),
                str_views(data@) == char_views(second@).take(i as int),
        {
            assert(char_views(second@)[i as int] == second@[i as int]@);
            push_string(&mut data, string_of(&second[i]));
            assert(char_views(second@).take(i + 1) =~= char_views(second@).take(i as int).push(
                second@[i as int]@,
            ));
        }
        assert(char_views(second@).take(k as int) =~= char_views(second@));
        let field = create_field_podl(store, session_id, string_of(&parts[0]).as_str(), data);
        let tab_count = get_begining_tab_count(string_of(line).as_str());
        let ghost fld = field;
        let ghost fv = field@;
        assert(level2_of(fld) == FieldLevel2 { field: fv, nested: Seq::empty() }) by {
            assert(podl_views(fld.nested_fields@) =~= Seq::<FieldPODLView>::empty());
        }
        if tab_count == 1 {
            *cur0 = name.clone();
            let ghost was = str_views(obj.fields_0th_lvl@).contains(name@);
            let ghost fs = obj.fields@;
            obj.add_0th_lvl_field(name, field);
            proof {
                if !was {
                    assert(fld.nested_fields@.map_values(|g: FieldPODL| level2_of(g))
                        =~= Seq::<FieldLevel2>::empty());
                    assert(class_trees(obj.fields@) =~= class_trees(fs).push(
                        FieldLevel1 { field: fv, nested: Seq::empty() },
                    ));
                }
            }
        } else if tab_count == 2 {
            *cur1 = name.clone();
            if *cur0 != String::from_str("None") {
                let ghost fs = obj.fields@;
                let ghost c0 = cur0@;
                obj.add_1st_lvl_field(cur0.clone(), name, field);
                proof {
                    lemma_tree_index(fs, c0, 0);
                    lemma_podl_index_from(fs, c0, 0);
                    if !m0.lvl1.contains((c0, name@)) {
                        match podl_index_from(fs, c0, 0) {
                            Some(i) => {
                                lemma_trees_push1(fs, obj.fields@, i, fld);
                            },
                            None => {},
                        }
                    }
                }
            }
        } else if tab_count == 3 {
            let none = String::from_str("None");
            if *cur0 != none && *cur1 != none {
                let ghost fs = obj.fields@;
                let ghost c0 = cur0@;
                let ghost c1 = cur1@;
                obj.add_2nd_lvl_field(cur0.clone(), cur1.clone(), name, field);
                proof {
                    lemma_tree_pair(fs, c0, c1, 0);
                    lemma_podl_pair_from(fs, c0, c1, 0);
                    if !m0.lvl2.contains((c0, c1, name@)) {
                        match podl_pair_from(fs, c0, c1, 0) {
                            Some(p) => {
                                lemma_trees_push2(fs, obj.fields@, p.0, p.1, fld);
                            },
                            None => {},
                        }
                    }
                }
            }
        }
        assert(class_model(*obj, cur0@, cur1@) =~= class_line_step(
            store.table(session_id@),
            m0,
            line@,
        ));
    }
}

/// Convert a class specification to PODL, for a session that has fields
/// loaded (otherwise a message asking to load them). The first line, `/type|
/// description->table`, starts the class; tab-indented `name|description->
/// column->flags->length` lines give its fields, one tab for the top level,
/// two and three for nested levels.
pub fn convert_class_spec_to_podl(store: &SessionStore, session_id: &str, data: String) -> (r: String)
    requires
        store.table(session_id@).len() != 0 ==> class_run_ok(data@),
    ensures
        store.table(session_id@).len() == 0 ==> r@ == "Please load fields first !!!"@,
        store.table(session_id@).len() != 0 ==> r@ == class_podl(
            class_run(store.table(session_id@), data@),
        ),
        r@ == class_conversion(store.table(session_id@), data@),
{
    if store.field_count(session_id) == 0 {
        return String::from_str("Please load fields first !!!");
    }
    proof {
        reveal_strlit("    ");
    }
    let content = replace_str(data.as_str(), "    ", "\t");
    let ls = lines_chars(&chars_of(content.as_str()));
    let ghost t = store.table(session_id@);
    let ghost lsv = char_views(ls@);
    let ghost step = |m: ClassModel, l: Seq<char>| class_line_step(t, m, l);
    let ghost ok = |m: ClassModel, l: Seq<char>| class_line_ok(m, l);
    proof {
        lemma_class_run_ok_table(t, lsv, class_start());
    }
    let mut obj = ClassPODL::new();
    let mut cur_0th_level_field = String::from_str("None");
    let mut cur_1st_level_field = String::from_str("None");
    let n = ls.len();
    assert(lsv.take(0) =~= Seq::<Seq<char>>::empty());
    assert(class_model(obj, cur_0th_level_field@, cur_1st_level_field@) =~= class_start());
    for i in 0..n
        invariant
            n == ls@.len(),
            lsv == char_views(ls@),
            lsv == class_lines(data@),
            t == store.table(session_id@),
            run_lines_ok(class_start(), lsv, step, ok),
            class_model(obj, cur_0th_level_field@, cur_1st_level_field@) == run_lines(
                class_start(),
                lsv.take(i as int),
                step,
            ),
            step == (|m: ClassModel, l: Seq<char>| class_line_step(t, m, l)),
            ok == (|m: ClassModel, l: Seq<char>| class_line_ok(m, l)),
    {
        proof {
            lemma_run_lines_ok_prefix(class_start(), lsv, step, ok, i + 1);
            lemma_run_lines_step(class_start(), lsv, step, ok, i as int);
        }
        assert(lsv[i as int] == ls@[i as int]@);
        class_line(
            store,
            session_id,
            &mut obj,
            &mut cur_0th_level_field,
            &mut cur_1st_level_field,
            &ls[i],
        );
    }
    assert(lsv.take(n as int) =~= lsv);
    if obj.no_of_fields >= 0 {
        let pieces = obj.generate_podl();
        join_strings(&pieces, "\n")
    } else {
        String::from_str("No data found")
    }
}

/// Decide `class_line_ok`.
fn class_line_allowed(obj: &ClassPODL, line: &Vec<char>) -> (r: bool)
    ensures
        r == class_line_ok(class_model(*obj, Seq::empty(), Seq::empty()), line@),
{
    let bar = vec!['|'];
    assert(bar@ =~= seq!['|']);
    let parts = split_chars(line, &bar);
    let first = if line.len() > 0 {
        line[0]
    } else {
        ' '
    };
    if all_whitespace(line) || parts.len() < 2 || first == '/' {
        return true;
    }
    assert(char_views(parts@)[0] == parts@[0]@);
    let mut tabs: usize = 0;
    let ghost v = line@;
    assert(v.skip(0) =~= v);
    while tabs < line.len() && line[tabs] == '\t'
        invariant
            v == line@,
            tabs <= v.len(),
            leading_tabs(v) == tabs + leading_tabs(v.skip(tabs as int)),
        decreases v.len() - tabs,
    {
        assert(v.skip(tabs as int).drop_first() =~= v.skip(tabs + 1));
        tabs = tabs + 1;
    }
    assert(leading_tabs(v.skip(tabs as int)) == 0);
    if tabs > 0x7fff_ffff {
        return false;
    }
    if tabs == 1 {
        let name = string_of(&trim_chars(&parts[0]));
        if !strings_contain(&obj.fields_0th_lvl, &name) {
            return obj.no_of_fields < 0x7fff_ffff;
        }
    }
    true
}

/// Decide whether reading a class specification runs without failing:
/// the tab count of each field line fits an `i32`, and so does the field
/// count.
pub fn class_spec_input_ok(data: &String) -> (r: bool)
    ensures
        r == class_run_ok(data@),
{
    let store = SessionStore::new();
    let sid = "";
    proof {
        reveal_strlit("    ");
    }
    let content = replace_str(data.as_str(), "    ", "\t");
    let ls = lines_chars(&chars_of(content.as_str()));
    let ghost t = store.table(sid@);
    assert(t == Seq::<FieldView>::empty());
    let ghost lsv = char_views(ls@);
    let ghost step = |m: ClassModel, l: Seq<char>| class_line_step(t, m, l);
    let ghost ok = |m: ClassModel, l: Seq<char>| class_line_ok(m, l);
    let mut obj = ClassPODL::new();
    let mut cur0 = String::from_str("None");
    let mut cur1 = String::from_str("None");
    let n = ls.len();
    assert(lsv.take(0) =~= Seq::<Seq<char>>::empty());
    assert(class_model(obj, cur0@, cur1@) =~= class_start());
    for i in 0..n
        invariant
            n == ls@.len(),
            lsv == char_views(ls@),
            lsv == class_lines(data@),
            t == store.table(sid@),
            t == Seq::<FieldView>::empty(),
            run_lines_ok(class_start(), lsv.take(i as int), step, ok),
            class_model(obj, cur0@, cur1@) == run_lines(class_start(), lsv.take(i as int), step),
            step == (|m: ClassModel, l: Seq<char>| class_line_step(t, m, l)),
            ok == (|m: ClassModel, l: Seq<char>| class_line_ok(m, l)),
    {
        proof {
            lemma_run_lines_step(class_start(), lsv, step, ok, i as int);
        }
        assert(lsv[i as int] == ls@[i as int]@);
        let allowed = class_line_allowed(&obj, &ls[i]);
        assert(class_line_ok(class_model(obj, Seq::empty(), Seq::empty()), ls@[i as int]@)
            == class_line_ok(class_model(obj, cur0@, cur1@), ls@[i as int]@));
        if !allowed {
            proof {
                if run_lines_ok(class_start(), lsv, step, ok) {
                    lemma_run_lines_ok_prefix(class_start(), lsv, step, ok, i + 1);
                }
            }
            return false;
        }
        class_line(&store, sid, &mut obj, &mut cur0, &mut cur1, &ls[i]);
    }
    assert(lsv.take(n as int) =~= lsv);
    true
}

/// Convert a class specification to PODL (see `convert_class_spec_to_podl`),
/// or `None` where reading it would fail (see `class_spec_input_ok`).
pub fn try_convert_class_spec_to_podl(store: &SessionStore, session_id: &str, data: String) -> (r:
    Option<String>)
    ensures
        r is None <==> (store.table(session_id@).len() != 0 && !class_run_ok(data@)),
        r matches Some(x) ==> (store.table(session_id@).len() == 0 ==> x@
            == "Please load fields first !!!"@),
        r matches Some(x) ==> (store.table(session_id@).len() != 0 ==> x@ == class_podl(
            class_run(store.table(session_id@), data@),
        )),
{
    if store.field_count(session_id) != 0 && !class_spec_input_ok(&data) {
        None
    } else {
        Some(convert_class_spec_to_podl(store, session_id, data))
    }
}

} // verus!
