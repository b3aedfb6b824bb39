//! Per-session tables of BRM field definitions (`name|type|number` lines),
//! and the lookups that the PODL generators make in them.
use vstd::prelude::*;
use vstd::string::*;

use crate::number::{nat_chars, nat_str, parse_i32, parse_i32_chars};
use crate::text::{char_views, chars_of, lines, lines_chars, push_chars, split, split_chars, string_of};

verus! {

/// A BRM field definition: field name, field data type, field number.
#[derive(Debug, Clone)]
pub struct Field {
    pub name: String,
    pub data_type: String,
    pub num: String,
}

/// The text held by a `Field`.
pub struct FieldView {
    pub name: Seq<char>,
    pub data_type: Seq<char>,
    pub num: Seq<char>,
}

impl View for Field {
    type V = FieldView;

    open spec fn view(&self) -> FieldView {
        FieldView { name: self.name@, data_type: self.data_type@, num: self.num@ }
    }
}

/// The views of a sequence of fields.
pub open spec fn field_views(v: Seq<Field>) -> Seq<FieldView> {
    v.map_values(|f: Field| f@)
}

/// A copy of a field.
pub fn copy_field(f: &Field) -> (r: Field)
    ensures
        r@ == f@,
{
    Field { name: f.name.clone(), data_type: f.data_type.clone(), num: f.num.clone() }
}

/// The first position at or after `i` of a field named `name`.
pub open spec fn field_index_from(t: Seq<FieldView>, name: Seq<char>, i: int) -> Option<int>
    decreases t.len() - i,
{
    if i < 0 || i >= t.len() {
        None
    } else if t[i].name == name {
        Some(i)
    } else {
        field_index_from(t, name, i + 1)
    }
}

/// The position of the field named `name` in a table.
pub open spec fn field_index(t: Seq<FieldView>, name: Seq<char>) -> Option<int> {
    field_index_from(t, name, 0)
}

/// The field named `name` in a table.
pub open spec fn lookup_field(t: Seq<FieldView>, name: Seq<char>) -> Option<FieldView> {
    match field_index(t, name) {
        Some(i) => Some(t[i]),
        None => None,
    }
}

/// `field_index_from` gives the first match.
pub proof fn lemma_field_index_from(t: Seq<FieldView>, name: Seq<char>, i: int)
    requires
        0 <= i,
    ensures
        field_index_from(t, name, i) matches Some(k) ==> i <= k < t.len() && t[k].name == name
            && forall|j: int| i <= j < k ==> t[j].name != name,
        field_index_from(t, name, i) is None ==> forall|j: int|
            i <= j < t.len() ==> t[j].name != name,
    decreases t.len() - i,
{
    if i < t.len() && t[i].name != name {
        lemma_field_index_from(t, name, i + 1);
    }
}

/// Insert `f` into a table keyed by name: replace the field of the same name
/// in place, or add `f` at the end (what `HashMap::insert` does to the set of
/// entries).
pub open spec fn upsert(t: Seq<FieldView>, f: FieldView) -> Seq<FieldView> {
    match field_index(t, f.name) {
        Some(i) => t.update(i, f),
        None => t.push(f),
    }
}

/// The field that a `name|type|number` line defines: exactly three
/// `|`-separated parts, taken as they are.
pub open spec fn line_field(line: Seq<char>) -> Option<FieldView> {
    let parts = split(line, seq!['|']);
    if parts.len() == 3 {
        Some(FieldView { name: parts[0], data_type: parts[1], num: parts[2] })
    } else {
        None
    }
}

/// The table that a sequence of lines loads: each defining line inserted
/// in turn, a later definition of a name replacing an earlier one.
pub open spec fn load_table(ls: Seq<Seq<char>>) -> Seq<FieldView>
    decreases ls.len(),
{
    if ls.len() == 0 {
        seq![]
    } else {
        let t = load_table(ls.drop_last());
        match line_field(ls.last()) {
            Some(f) => upsert(t, f),
            None => t,
        }
    }
}

/// No two fields of a table have the same name.
pub open spec fn names_distinct(t: Seq<FieldView>) -> bool {
    forall|i: int, j: int| 0 <= i < j < t.len() ==> t[i].name != t[j].name
}

/// The fields loaded for one session.
pub struct SessionEntry {
    pub id: String,
    pub fields: Vec<Field>,
}

/// What one session entry holds.
pub struct SessionEntryView {
    pub id: Seq<char>,
    pub fields: Seq<FieldView>,
}

impl View for SessionEntry {
    type V = SessionEntryView;

    open spec fn view(&self) -> SessionEntryView {
        SessionEntryView { id: self.id@, fields: field_views(self.fields@) }
    }
}

/// The first position at or after `i` of the entry of session `id`.
pub open spec fn session_index_from(es: Seq<SessionEntryView>, id: Seq<char>, i: int) -> Option<
    int,
>
    decreases es.len() - i,
{
    if i < 0 || i >= es.len() {
        None
    } else if es[i].id == id {
        Some(i)
    } else {
        session_index_from(es, id, i + 1)
    }
}

/// `session_index_from` gives the first match.
pub proof fn lemma_session_index_from(es: Seq<SessionEntryView>, id: Seq<char>, i: int)
    requires
        0 <= i,
    ensures
        session_index_from(es, id, i) matches Some(k) ==> i <= k < es.len() && es[k].id == id
            && forall|j: int| i <= j < k ==> es[j].id != id,
        session_index_from(es, id, i) is None ==> forall|j: int|
            i <= j < es.len() ==> es[j].id != id,
    decreases es.len() - i,
{
    if i < es.len() && es[i].id != id {
        lemma_session_index_from(es, id, i + 1);
    }
}

/// The entries, as text.
pub open spec fn entry_views_of(v: Seq<SessionEntry>) -> Seq<SessionEntryView> {
    v.map_values(|e: SessionEntry| e@)
}

/// The field table of session `id` among the entries `es`: that of the
/// first entry for `id`, or an empty one.
pub open spec fn entries_table(es: Seq<SessionEntryView>, id: Seq<char>) -> Seq<FieldView> {
    match session_index_from(es, id, 0) {
        Some(i) => es[i].fields,
        None => seq![],
    }
}

/// The position of the entry of session `id`.
fn find_entry(es: &Vec<SessionEntry>, id: &String) -> (r: Option<usize>)
    ensures
        r matches Some(i) ==> session_index_from(entry_views_of(es@), id@, 0) == Some(i as int)
            && i < es@.len(),
        r is None ==> session_index_from(entry_views_of(es@), id@, 0) is None,
{
    let n = es.len();
    let mut i: usize = 0;
    while i < n
        invariant
            n == es@.len(),
            i <= n,
            session_index_from(entry_views_of(es@), id@, 0) == session_index_from(
                entry_views_of(es@),
                id@,
                i as int,
            ),
        decreases n - i,
    {
        assert(entry_views_of(es@)[i as int] == es@[i as int]@);
        if es[i].id == *id {
            return Some(i);
        }
        i = i + 1;
    }
    None
}

/// Give session `id` the table `fields` among the entries `es`, leaving the
/// other sessions' tables as they are.
fn put_entry(es: &mut Vec<SessionEntry>, id: String, fields: Vec<Field>)
    ensures
        entries_table(entry_views_of(final(es)@), id@) == field_views(fields@),
        forall|k: Seq<char>|
            k != id@ ==> #[trigger] entries_table(entry_views_of(final(es)@), k) == entries_table(
                entry_views_of(old(es)@),
                k,
            ),
{
    let ghost old_es = entry_views_of(es@);
    proof {
        lemma_session_index_from(old_es, id@, 0);
    }
    match find_entry(es, &id) {
        Some(i) => {
            let entry = SessionEntry { id: id, fields: fields };
            es.set(i, entry);
            let ghost nes = entry_views_of(es@);
            assert(nes =~= old_es.update(i as int, entry@));
            proof {
                lemma_session_index_from(nes, entry.id@, 0);
                assert(nes[i as int] == entry@);
                if let Some(a) = session_index_from(nes, entry.id@, 0) {
                    if a < i {
                        assert(old_es[a].id == entry.id@);
                    }
                    assert(a <= i);
                }
                assert forall|k: Seq<char>| k != entry.id@ implies #[trigger] entries_table(nes, k)
                    == entries_table(old_es, k) by {
                    lemma_session_index_from(nes, k, 0);
                    lemma_session_index_from(old_es, k, 0);
                    if let Some(a) = session_index_from(nes, k, 0) {
                        assert(old_es[a].id == k);
                        if let Some(b) = session_index_from(old_es, k, 0) {
                            if b < a {
                                assert(nes[b].id == k);
                            }
                        }
                    } else if let Some(b) = session_index_from(old_es, k, 0) {
                        assert(nes[b].id == k);
                    }
                }
            }
        },
        None => {
            let entry = SessionEntry { id: id, fields: fields };
            es.push(entry);
            let ghost nes = entry_views_of(es@);
            assert(nes =~= old_es.push(entry@));
            proof {
                lemma_session_index_from(nes, entry.id@, 0);
                if let Some(a) = session_index_from(nes, entry.id@, 0) {
                    if a < old_es.len() {
                        assert(old_es[a].id == entry.id@);
                    }
                }
                assert(nes[old_es.len() as int].id == entry.id@);
                assert forall|k: Seq<char>| k != entry.id@ implies #[trigger] entries_table(nes, k)
                    == entries_table(old_es, k) by {
                    lemma_session_index_from(nes, k, 0);
                    lemma_session_index_from(old_es, k, 0);
                    if let Some(a) = session_index_from(nes, k, 0) {
                        assert(a < old_es.len());
                        assert(old_es[a].id == k);
                        if let Some(b) = session_index_from(old_es, k, 0) {
                            if b < a {
                                assert(nes[b].id == k);
                            }
                        }
                    } else if let Some(b) = session_index_from(old_es, k, 0) {
                        assert(nes[b].id == k);
                    }
                }
            }
        },
    }
}

/// The BRM field tables of all sessions. A session that has no entry has
/// an empty table. No session's table holds two fields of one name.
pub struct SessionStore {
    entries: Vec<SessionEntry>,
}

impl SessionStore {
    /// The field table of session `id`.
    pub closed spec fn table(&self, id: Seq<char>) -> Seq<FieldView> {
        entries_table(entry_views_of(self.entries@), id)
    }

    /// No session's table holds two fields of one name.
    pub open spec fn tables_distinct(&self) -> bool {
        forall|id: Seq<char>| names_distinct(#[trigger] self.table(id))
    }

    /// Every store keeps each session's field names distinct.
    #[verifier::type_invariant]
    spec fn store_inv(self) -> bool {
        self.tables_distinct()
    }

    /// A store in which every session has an empty table.
    pub fn new() -> (s: SessionStore)
        ensures
            forall|id: Seq<char>| s.table(id) == Seq::<FieldView>::empty(),
            s.tables_distinct(),
    {
        SessionStore { entries: Vec::new() }
    }

    /// The number of fields loaded for a session.
    pub fn field_count(&self, session_id: &str) -> (n: usize)
        ensures
            n == self.table(session_id@).len(),
    {
        let id = String::from_str(session_id);
        match find_entry(&self.entries, &id) {
            Some(i) => {
                assert(entry_views_of(self.entries@)[i as int] == self.entries@[i as int]@);
                self.entries[i].fields.len()
            },
            None => 0,
        }
    }

    /// A copy of the fields loaded for a session.
    fn copy_table(&self, session_id: &str) -> (r: Vec<Field>)
        ensures
            field_views(r@) == self.table(session_id@),
            names_distinct(field_views(r@)),
    {
        proof {
            use_type_invariant(self);
            assert(names_distinct(self.table(session_id@)));
        }
        let id = String::from_str(session_id);
        match find_entry(&self.entries, &id) {
            Some(i) => {
                assert(entry_views_of(self.entries@)[i as int] == self.entries@[i as int]@);
                let src = &self.entries[i].fields;
                let mut r: Vec<Field> = Vec::new();
                let n = src.len();
                for k in 0..n
                    invariant
                        n == src@.len(),
                        field_views(r@) == field_views(src@).take(k as int),
                {
                    assert(field_views(src@)[k as int] == src@[k as int]@);
                    let c = copy_field(&src[k]);
                    let ghost before = r@;
                    r.push(c);
                    assert(r@ =~= before.push(c));
                    assert(field_views(r@) =~= field_views(before).push(c@));
                    assert(field_views(src@).take(k + 1) =~= field_views(src@).take(
                        k as int,
                    ).push(src@[k as int]@));
                }
                assert(field_views(src@).take(n as int) =~= field_views(src@));
                r
            },
            None => {
                let r: Vec<Field> = Vec::new();
                assert(field_views(r@) =~= Seq::<FieldView>::empty());
                r
            },
        }
    }

    /// Set the table of session `id` to fields of distinct names, leaving
    /// the others as they are.
    fn set_table(&mut self, id: String, fields: Vec<Field>)
        requires
            names_distinct(field_views(fields@)),
        ensures
            final(self).table(id@) == field_views(fields@),
            forall|k: Seq<char>| k != id@ ==> final(self).table(k) == old(self).table(k),
    {
        proof {
            use_type_invariant(&*self);
        }
        let ghost before = entry_views_of(self.entries@);
        let ghost idv = id@;
        let ghost fv = field_views(fields@);
        let mut es: Vec<SessionEntry> = Vec::new();
        proof {
            assert forall|k: Seq<char>| names_distinct(
                #[trigger] entries_table(entry_views_of(es@), k),
            ) by {
                assert(entry_views_of(es@) =~= Seq::<SessionEntryView>::empty());
            }
        }
        std::mem::swap(&mut es, &mut self.entries);
        assert(entry_views_of(es@) == before);
        put_entry(&mut es, id, fields);
        proof {
            assert forall|k: Seq<char>| names_distinct(
                #[trigger] entries_table(entry_views_of(es@), k),
            ) by {
                if k != idv {
                    assert(entries_table(before, k) == old(self).table(k));
                    assert(names_distinct(old(self).table(k)));
                }
            }
        }
        self.entries = es;
    }
}

/// The position of the field named `name` in `t`.
fn find_field(t: &Vec<Field>, name: &String) -> (r: Option<usize>)
    ensures
        r matches Some(i) ==> field_index(field_views(t@), name@) == Some(i as int) && i
            < t@.len(),
        r is None ==> field_index(field_views(t@), name@) is None,
{
    let n = t.len();
    let mut i: usize = 0;
    while i < n
        invariant
            n == t@.len(),
            i <= n,
            field_index(field_views(t@), name@) == field_index_from(
                field_views(t@),
                name@,
                i as int,
            ),
        decreases n - i,
    {
        assert(field_views(t@)[i as int] == t@[i as int]@);
        if t[i].name == *name {
            return Some(i);
        }
        i = i + 1;
    }
    None
}

/// Insert a field into a table keyed by name.
fn upsert_field(t: &mut Vec<Field>, f: Field)
    ensures
        field_views(final(t)@) == upsert(field_views(old(t)@), f@),
{
    match find_field(t, &f.name) {
        Some(i) => {
            let ghost fv = f@;
            t.set(i, f);
            assert(field_views(t@) =~= field_views(old(t)@).update(i as int, fv));
        },
        None => {
            let ghost fv = f@;
            t.push(f);
            assert(field_views(t@) =~= field_views(old(t)@).push(fv));
        },
    }
}

/// The table that `data` loads.
fn load_lines(data: &str) -> (t: Vec<Field>)
    ensures
        field_views(t@) == load_table(lines(data@)),
{
    let chars = chars_of(data);
    let ls = lines_chars(&chars);
    let bar = vec!['|'];
    assert(bar@ =~= seq!['|']);
    let mut t: Vec<Field> = Vec::new();
    let n = ls.len();
    assert(field_views(t@) =~= load_table(char_views(ls@).take(0)));
    for i in 0..n
        invariant
            n == ls@.len(),
            bar@ == seq!['|'],
            char_views(ls@) == lines(data@),
            field_views(t@) == load_table(char_views(ls@).take(i as int)),
    {
        let parts = split_chars(&ls[i], &bar);
        assert(char_views(ls@).take(i + 1).drop_last() =~= char_views(ls@).take(i as int));
        assert(char_views(ls@).take(i + 1).last() == ls@[i as int]@);
        if parts.len() == 3 {
            assert(char_views(parts@)[0] == parts@[0]@);
            assert(char_views(parts@)[1] == parts@[1]@);
            assert(char_views(parts@)[2] == parts@[2]@);
            let f = Field {
                name: string_of(&parts[0]),
                data_type: string_of(&parts[1]),
                num: string_of(&parts[2]),
            };
            upsert_field(&mut t, f);
        }
    }
    assert(char_views(ls@).take(n as int) =~= char_views(ls@));
    t
}

/// The data type of the field named `name` in a table, or a not-found
/// message.
pub open spec fn field_type_of(t: Seq<FieldView>, name: Seq<char>) -> Seq<char> {
    match lookup_field(t, name) {
        Some(f) => f.data_type,
        None => "Field Not Found while getting its data type"@,
    }
}

/// The number of the field named `name` in a table as an `i32`, or -1
/// where the field is missing or its number does not parse.
pub open spec fn field_num_of(t: Seq<FieldView>, name: Seq<char>) -> int {
    match lookup_field(t, name) {
        Some(f) => match parse_i32(f.num) {
            Some(v) => v,
            None => -1,
        },
        None => -1,
    }
}

/// The table of a session after a load of `data`: the table that `data`
/// loads where the session had no fields, the old table otherwise.
pub open spec fn after_load(t: Seq<FieldView>, data: Seq<char>) -> Seq<FieldView> {
    if t.len() == 0 {
        load_table(lines(data))
    } else {
        t
    }
}

/// `prefix`, the decimal text of `n`, then `suffix`.
pub fn text_with_number(prefix: &str, n: u64, suffix: &str) -> (r: String)
    ensures
        r@ == prefix@ + nat_str(n as nat) + suffix@,
{
    let mut r = String::from_str(prefix);
    let digits = nat_chars(n);
    push_chars(&mut r, &digits);
    r.append(suffix);
    r
}

/// Load BRM field definitions (`name|type|number` lines) into the table of
/// a session that has none yet. A session whose table is not empty keeps
/// it. The answer gives the number of fields in the session's table.
pub fn load_obrm_fields(store: &mut SessionStore, session_id: &str, data: String) -> (r: String)
    ensures
        final(store).table(session_id@) == after_load(old(store).table(session_id@), data@),
        old(store).table(session_id@).len() == 0 ==> r@ == "Fields ("@ + nat_str(
            load_table(lines(data@)).len(),
        ) + ") loaded!!!"@,
        old(store).table(session_id@).len() != 0 ==> r@ == "Fields ("@ + nat_str(
            old(store).table(session_id@).len(),
        ) + ") already loaded!!!"@,
        forall|k: Seq<char>|
            k != session_id@ ==> #[trigger] final(store).table(k) == old(store).table(k),
        final(store).tables_distinct(),
{
    proof {
        crate::laws::law_loaded_names_distinct(lines(data@));
    }
    let count = store.field_count(session_id);
    if count == 0 {
        let t = load_lines(data.as_str());
        let n = t.len();
        store.set_table(String::from_str(session_id), t);
        proof {
            use_type_invariant(&*store);
        }
        text_with_number("Fields (", n as u64, ") loaded!!!")
    } else {
        proof {
            use_type_invariant(&*store);
        }
        text_with_number("Fields (", count as u64, ") already loaded!!!")
    }
}

/// The data type of a field of a session, or a not-found message.
pub fn get_field_type(store: &SessionStore, session_id: &str, field_name: &str) -> (r: String)
    ensures
        r@ == field_type_of(store.table(session_id@), field_name@),
{
    let t = store.copy_table(session_id);
    let name = String::from_str(field_name);
    match find_field(&t, &name) {
        Some(i) => {
            assert(field_views(t@)[i as int] == t@[i as int]@);
            t[i].data_type.clone()
        },
        None => String::from_str("Field Not Found while getting its data type"),
    }
}

/// The number of a field of a session as an `i32`, or -1 where the field
/// is not loaded or its number does not parse.
pub fn get_field_num(store: &SessionStore, session_id: &str, field_name: &str) -> (r: i32)
    ensures
        r == field_num_of(store.table(session_id@), field_name@),
{
    let t = store.copy_table(session_id);
    let name = String::from_str(field_name);
    match find_field(&t, &name) {
        Some(i) => {
            assert(field_views(t@)[i as int] == t@[i as int]@);
            let num = chars_of(t[i].num.as_str());
            match parse_i32_chars(&num) {
                Some(v) => v,
                None => -1,
            }
        },
        None => -1,
    }
}

/// All fields loaded for a session (empty where none are).
pub fn get_session_fields(store: &SessionStore, session_id: &str) -> (r: Vec<Field>)
    ensures
        field_views(r@) == store.table(session_id@),
        names_distinct(field_views(r@)),
{
    store.copy_table(session_id)
}

} // verus!
