//! Finding the call stack trace in an uploaded ZIP archive: the first entry
//! whose name looks like a trace and whose text has both `Enter` and `Exit`,
//! else the first entry that is not a directory and whose text is not
//! blank. The archive is read with the `zip` crate.
use std::io::{Cursor, Read};
use vstd::prelude::*;
use zip::ZipArchive;

use crate::number::{nat_chars, nat_str};
use crate::text::{
    all_whitespace, all_ws, chars_of, contains, contains_chars, ends_with_chars, has_suffix,
    push_chars,
};

verus! {

#[verifier::external_type_specification]
#[verifier::external_body]
#[verifier::reject_recursive_types(R)]
pub struct ExZipArchive<R>(zip::ZipArchive<R>);

#[verifier::external_type_specification]
#[verifier::external_body]
#[verifier::reject_recursive_types(T)]
pub struct ExCursor<T>(std::io::Cursor<T>);

/// What one entry of an archive gives: the text of the error met reaching
/// it, or its name and its contents read as UTF-8 text (or the text of the
/// error met reading them).
pub enum ZipEntryView {
    Unreachable(Seq<char>),
    Entry { name: Seq<char>, text: Result<Seq<char>, Seq<char>> },
}

/// What one entry of an archive gives (see `ZipEntryView`).
#[derive(Debug)]
pub enum ZipEntry {
    Unreachable(String),
    Entry { name: String, text: Result<String, String> },
}

/// The view of a text or of the text of an error.
pub open spec fn text_view(r: Result<String, String>) -> Result<Seq<char>, Seq<char>> {
    match r {
        Ok(t) => Ok(t@),
        Err(e) => Err(e@),
    }
}

impl View for ZipEntry {
    type V = ZipEntryView;

    open spec fn view(&self) -> ZipEntryView {
        match self {
            ZipEntry::Unreachable(e) => ZipEntryView::Unreachable(e@),
            ZipEntry::Entry { name, text } => ZipEntryView::Entry {
                name: name@,
                text: text_view(*text),
            },
        }
    }
}

/// The views of a listing of entries.
pub open spec fn entry_views(v: Seq<ZipEntry>) -> Seq<ZipEntryView> {
    v.map_values(|e: ZipEntry| e@)
}

/// What the archive holds for one entry: whether its encryption flag is set,
/// where its central directory header starts (`None` where the entry's local
/// header cannot be reached), and the entry as `ZipArchive::by_index` gives
/// it. An entry on which `by_index` would panic (an AES extra field without
/// the encryption flag) counts as unreachable, with the text of the
/// invalid-password error.
pub struct ZipSlot {
    pub encrypted: bool,
    pub header: Option<int>,
    pub entry: ZipEntryView,
}

/// What `zip::ZipArchive::new` makes of these bytes: the entries of the
/// archive, or the text of the error.
pub uninterp spec fn zip_open_view(data: Seq<u8>) -> Result<Seq<ZipSlot>, Seq<char>>;

/// The entries of an open archive.
pub uninterp spec fn zip_entries(a: ZipArchive<Cursor<Vec<u8>>>) -> Seq<ZipSlot>;

/// `zip::ZipArchive::new` over a copy of the bytes: an archive whose entries
/// are those that `zip_open_view` gives of the bytes, or the text
/// (`Display`) of the error that `zip_open_view` gives. What those are is
/// left to the `zip` crate, but for one fact that its reading of a central
/// directory header shows: the header lies within the bytes, and the low bit
/// of its ninth byte is the entry's encryption flag.
#[verifier::external_body]
fn zip_open(data: &[u8]) -> (r: Result<ZipArchive<Cursor<Vec<u8>>>, String>)
    ensures
        match zip_open_view(data@) {
            Ok(es) => r matches Ok(a) && zip_entries(a) == es,
            Err(t) => r matches Err(m) && m@ == t,
        },
        r matches Ok(a) ==> headers_in(zip_entries(a), data@),
{
    ZipArchive::new(Cursor::new(data.to_vec())).map_err(|e| e.to_string())
}

/// `zip::ZipArchive::len`: the number of entries.
#[verifier::external_body]
fn zip_len(a: &ZipArchive<Cursor<Vec<u8>>>) -> (n: usize)
    ensures
        n == zip_entries(*a).len(),
{
    a.len()
}

/// `zip::ZipArchive::by_index_raw`, then `ZipFile::central_header_start`:
/// where the central directory header of entry `i` starts, or the text of
/// the error met reaching the entry's local header. The entries do not
/// change.
#[verifier::external_body]
fn zip_header(a: &mut ZipArchive<Cursor<Vec<u8>>>, i: usize) -> (r: Result<u64, String>)
    ensures
        zip_entries(*final(a)) == zip_entries(*old(a)),
        i < zip_entries(*old(a)).len() ==> match zip_entries(*old(a))[i as int].header {
            Some(c) => r matches Ok(x) && x == c,
            None => r is Err,
        },
{
    a.by_index_raw(i).map(|f| f.central_header_start()).map_err(|e| e.to_string())
}

/// `zip::ZipArchive::by_index_decrypt` with an empty password, which it
/// discards for an entry without the encryption flag and so opens the entry
/// as `by_index` does, but answers an invalid password where `by_index`
/// would panic. The entry is given as its name (`ZipFile::name`) and its
/// contents read as UTF-8 (`Read::read_to_string`), or the text of the error
/// met reaching it: the entry that `zip_entries` lists. The entries do not
/// change.
#[verifier::external_body]
fn zip_entry_unencrypted(a: &mut ZipArchive<Cursor<Vec<u8>>>, i: usize) -> (r: ZipEntry)
    requires
        i < zip_entries(*old(a)).len(),
        !zip_entries(*old(a))[i as int].encrypted,
    ensures
        zip_entries(*final(a)) == zip_entries(*old(a)),
        r@ == zip_entries(*old(a))[i as int].entry,
{
    match a.by_index_decrypt(i, &[]) {
        Ok(Ok(mut file)) => {
            let name = file.name().to_string();
            let mut text = String::new();
            let read = file.read_to_string(&mut text).map(|_| text).map_err(|e| e.to_string());
            ZipEntry::Entry { name, text: read }
        },
        Ok(Err(e)) => ZipEntry::Unreachable(e.to_string()),
        Err(e) => ZipEntry::Unreachable(e.to_string()),
    }
}

/// `zip::ZipArchive::by_index` on an entry whose encryption flag is set (it
/// answers that a password is required) or whose local header cannot be
/// reached (it answers that error): in both cases it returns before the
/// step that can panic. The entry is given as `zip_entries` lists it. The
/// entries do not change.
#[verifier::external_body]
fn zip_entry_closed(a: &mut ZipArchive<Cursor<Vec<u8>>>, i: usize) -> (r: ZipEntry)
    requires
        i < zip_entries(*old(a)).len(),
        zip_entries(*old(a))[i as int].encrypted || zip_entries(*old(a))[i as int].header is None,
    ensures
        zip_entries(*final(a)) == zip_entries(*old(a)),
        r@ == zip_entries(*old(a))[i as int].entry,
{
    match a.by_index(i) {
        Ok(mut file) => {
            let name = file.name().to_string();
            let mut text = String::new();
            let read = file.read_to_string(&mut text).map(|_| text).map_err(|e| e.to_string());
            ZipEntry::Entry { name, text: read }
        },
        Err(e) => ZipEntry::Unreachable(e.to_string()),
    }
}

/// Where an entry's central directory header is known, it lies within
/// `data` and the low bit of its ninth byte is the entry's encryption flag.
pub open spec fn header_flag_ok(e: ZipSlot, data: Seq<u8>) -> bool {
    match e.header {
        Some(c) => 0 <= c && c + 10 <= data.len() && e.encrypted == (data[c + 8] % 2 == 1),
        None => true,
    }
}

/// `header_flag_ok` holds of every entry.
pub open spec fn headers_in(es: Seq<ZipSlot>, data: Seq<u8>) -> bool {
    forall|k: int| 0 <= k < es.len() ==> #[trigger] header_flag_ok(es[k], data)
}

/// The entries of an archive, as `ZipEntryView`s.
pub open spec fn slot_entries(es: Seq<ZipSlot>) -> Seq<ZipEntryView> {
    es.map_values(|e: ZipSlot| e.entry)
}

/// The error for an entry that cannot be reached.
pub open spec fn access_error(i: int, e: Seq<char>) -> Seq<char> {
    "Failed to access file at index "@ + nat_str(i as nat) + ": "@ + e
}

/// The error for an entry whose text cannot be read.
pub open spec fn read_error(name: Seq<char>, e: Seq<char>) -> Seq<char> {
    "Failed to read file '"@ + name + "': "@ + e
}

/// An entry name that looks like a trace: it ends with `.txt`, `.log` or
/// `.trace`, or has `callstack`, `trace` or `log` in it.
pub open spec fn trace_like_name(n: Seq<char>) -> bool {
    ||| has_suffix(n, ".txt"@)
    ||| has_suffix(n, ".log"@)
    ||| has_suffix(n, ".trace"@)
    ||| contains(n, "callstack"@)
    ||| contains(n, "trace"@)
    ||| contains(n, "log"@)
}

/// The first pass, from entry `i` on: an unreachable entry ends it with an
/// error; an entry named like a trace is read (an error ends the pass) and
/// taken if its text has both `Enter` and `Exit`. `None` where no entry was
/// taken.
pub open spec fn trace_entry_from(es: Seq<ZipEntryView>, i: int) -> Option<
    Result<Seq<char>, Seq<char>>,
>
    decreases es.len() - i,
{
    if i < 0 || i >= es.len() {
        None
    } else {
        match es[i] {
            ZipEntryView::Unreachable(e) => Some(Err(access_error(i, e))),
            ZipEntryView::Entry { name, text } => if trace_like_name(name) {
                match text {
                    Err(e) => Some(Err(read_error(name, e))),
                    Ok(c) => if contains(c, "Enter"@) && contains(c, "Exit"@) {
                        Some(Ok(c))
                    } else {
                        trace_entry_from(es, i + 1)
                    },
                }
            } else {
                trace_entry_from(es, i + 1)
            },
        }
    }
}

/// The second pass, from entry `i` on: an unreachable entry ends it with an
/// error; the first entry whose name does not end with `/` and whose text
/// reads and is not blank is taken. `None` where no entry was taken.
pub open spec fn text_entry_from(es: Seq<ZipEntryView>, i: int) -> Option<
    Result<Seq<char>, Seq<char>>,
>
    decreases es.len() - i,
{
    if i < 0 || i >= es.len() {
        None
    } else {
        match es[i] {
            ZipEntryView::Unreachable(e) => Some(Err(access_error(i, e))),
            ZipEntryView::Entry { name, text } => match text {
                Ok(c) => if !has_suffix(name, "/"@) && !all_ws(c) {
                    Some(Ok(c))
                } else {
                    text_entry_from(es, i + 1)
                },
                Err(_) => text_entry_from(es, i + 1),
            },
        }
    }
}

/// The trace text found among the entries of an archive, or the error.
pub open spec fn callstack_in_entries(es: Seq<ZipEntryView>) -> Result<Seq<char>, Seq<char>> {
    match trace_entry_from(es, 0) {
        Some(r) => r,
        None => match text_entry_from(es, 0) {
            Some(r) => r,
            None => Err("No suitable callstack data found in zip file"@),
        },
    }
}

/// The trace text found in the archive that these bytes hold, or the error.
pub open spec fn callstack_in_zip(data: Seq<u8>) -> Result<Seq<char>, Seq<char>> {
    match zip_open_view(data) {
        Err(e) => Err("Failed to open ZIP archive: "@ + e),
        Ok(es) => callstack_in_entries(slot_entries(es)),
    }
}

/// Build `access_error(i, e)`.
fn access_error_text(i: usize, e: &String) -> (r: String)
    ensures
        r@ == access_error(i as int, e@),
{
    let mut r = String::from_str("Failed to access file at index ");
    push_chars(&mut r, &nat_chars(i as u64));
    r.append(": ");
    r.append(e.as_str());
    r
}

/// Decide `trace_like_name`.
fn is_trace_like_name(n: &String) -> (r: bool)
    ensures
        r == trace_like_name(n@),
{
    let v = chars_of(n.as_str());
    ends_with_chars(&v, &chars_of(".txt")) || ends_with_chars(&v, &chars_of(".log"))
        || ends_with_chars(&v, &chars_of(".trace")) || contains_chars(&v, &chars_of("callstack"))
        || contains_chars(&v, &chars_of("trace")) || contains_chars(&v, &chars_of("log"))
}

/// Find the trace text among the entries of an archive (see
/// `callstack_in_entries`).
pub fn find_callstack(entries: &Vec<ZipEntry>) -> (r: Result<String, String>)
    ensures
        text_view(r) == callstack_in_entries(entry_views(entries@)),
{
    let ghost es = entry_views(entries@);
    let n = entries.len();
    let mut i: usize = 0;
    while i < n
        invariant
            n == entries@.len(),
            es == entry_views(entries@),
            i <= n,
            trace_entry_from(es, 0) == trace_entry_from(es, i as int),
        decreases n - i,
    {
        assert(es[i as int] == entries@[i as int]@);
        match &entries[i] {
            ZipEntry::Unreachable(e) => {
                return Err(access_error_text(i, e));
            },
            ZipEntry::Entry { name, text } => {
                if is_trace_like_name(name) {
                    match text {
                        Err(e) => {
                            let mut m = String::from_str("Failed to read file '");
                            m.append(name.as_str());
                            m.append("': ");
                            m.append(e.as_str());
                            return Err(m);
                        },
                        Ok(c) => {
                            let cv = chars_of(c.as_str());
                            if contains_chars(&cv, &chars_of("Enter")) && contains_chars(
                                &cv,
                                &chars_of("Exit"),
                            ) {
                                return Ok(c.clone());
                            }
                        },
                    }
                }
            },
        }
        i = i + 1;
    }
    let mut i: usize = 0;
    while i < n
        invariant
            n == entries@.len(),
            es == entry_views(entries@),
            i <= n,
            trace_entry_from(es, 0) is None,
            text_entry_from(es, 0) == text_entry_from(es, i as int),
        decreases n - i,
    {
        assert(es[i as int] == entries@[i as int]@);
        match &entries[i] {
            ZipEntry::Unreachable(e) => {
                return Err(access_error_text(i, e));
            },
            ZipEntry::Entry { name, text } => {
                match text {
                    Ok(c) => {
                        if !ends_with_chars(&chars_of(name.as_str()), &chars_of("/"))
                            && !all_whitespace(&chars_of(c.as_str())) {
                            return Ok(c.clone());
                        }
                    },
                    Err(_) => {},
                }
            },
        }
        i = i + 1;
    }
    Err(String::from_str("No suitable callstack data found in zip file"))
}

/// Entry `i` of an archive opened from `data`: reached without the call
/// that can panic, by checking its encryption flag first.
fn fetch_entry(a: &mut ZipArchive<Cursor<Vec<u8>>>, data: &[u8], i: usize) -> (r: ZipEntry)
    requires
        i < zip_entries(*old(a)).len(),
        headers_in(zip_entries(*old(a)), data@),
    ensures
        zip_entries(*final(a)) == zip_entries(*old(a)),
        r@ == zip_entries(*old(a))[i as int].entry,
{
    let ghost es = zip_entries(*a);
    match zip_header(a, i) {
        Ok(c) => {
            assert(header_flag_ok(es[i as int], data@));
            assert(es[i as int].header == Some(c as int));
            assert(c + 10 <= data@.len());
            let len = data.len();
            assert(c < len);
            let pos = c as usize;
            assert(pos == c);
            let flags = data[pos + 8];
            if flags % 2 == 1 {
                zip_entry_closed(a, i)
            } else {
                zip_entry_unencrypted(a, i)
            }
        },
        Err(_) => zip_entry_closed(a, i),
    }
}

/// Find the call stack trace in the ZIP archive that `zip_data` holds (see
/// `callstack_in_zip`), reading the entries in the order the search visits
/// them and stopping where it ends.
pub fn read_callstack_from_zip(zip_data: &[u8]) -> (r: Result<String, String>)
    ensures
        text_view(r) == callstack_in_zip(zip_data@),
{
    let mut archive = match zip_open(zip_data) {
        Ok(a) => a,
        Err(e) => {
            let mut m = String::from_str("Failed to open ZIP archive: ");
            m.append(e.as_str());
            return Err(m);
        },
    };
    let ghost slots = zip_entries(archive);
    let ghost es = slot_entries(slots);
    assert(zip_open_view(zip_data@) == Ok::<Seq<ZipSlot>, Seq<char>>(slots));
    assert(callstack_in_zip(zip_data@) == callstack_in_entries(es));
    let n = zip_len(&archive);
    let mut i: usize = 0;
    while i < n
        invariant
            n == es.len(),
            slots == zip_entries(archive),
            es == slot_entries(slots),
            i <= n,
            headers_in(slots, zip_data@),
            callstack_in_zip(zip_data@) == callstack_in_entries(es),
            trace_entry_from(es, 0) == trace_entry_from(es, i as int),
        decreases n - i,
    {
        let e = fetch_entry(&mut archive, zip_data, i);
        assert(es[i as int] == e@);
        match e {
            ZipEntry::Unreachable(msg) => {
                return Err(access_error_text(i, &msg));
            },
            ZipEntry::Entry { name, text } => {
                if is_trace_like_name(&name) {
                    match text {
                        Err(msg) => {
                            let mut m = String::from_str("Failed to read file '");
                            m.append(name.as_str());
                            m.append("': ");
                            m.append(msg.as_str());
                            return Err(m);
                        },
                        Ok(c) => {
                            let cv = chars_of(c.as_str());
                            if contains_chars(&cv, &chars_of("Enter")) && contains_chars(
                                &cv,
                                &chars_of("Exit"),
                            ) {
                                return Ok(c);
                            }
                        },
                    }
                }
            },
        }
        i = i + 1;
    }
    let mut i: usize = 0;
    while i < n
        invariant
            n == es.len(),
            slots == zip_entries(archive),
            es == slot_entries(slots),
            i <= n,
            headers_in(slots, zip_data@),
            callstack_in_zip(zip_data@) == callstack_in_entries(es),
            trace_entry_from(es, 0) is None,
            text_entry_from(es, 0) == text_entry_from(es, i as int),
        decreases n - i,
    {
        let e = fetch_entry(&mut archive, zip_data, i);
        assert(es[i as int] == e@);
        match e {
            ZipEntry::Unreachable(msg) => {
                return Err(access_error_text(i, &msg));
            },
            ZipEntry::Entry { name, text } => {
                match text {
                    Ok(c) => {
                        if !ends_with_chars(&chars_of(name.as_str()), &chars_of("/"))
                            && !all_whitespace(&chars_of(c.as_str())) {
                            return Ok(c);
                        }
                    },
                    Err(_) => {},
                }
            },
        }
        i = i + 1;
    }
    Err(String::from_str("No suitable callstack data found in zip file"))
}

} // verus!
