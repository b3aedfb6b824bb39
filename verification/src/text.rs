//! Character-level text handling: trimming, splitting, line breaking,
//! replacement, decimal formatting and integer parsing, each stated over
//! `Seq<char>` and implemented on `Vec<char>`.
use vstd::prelude::*;
use vstd::string::*;

verus! {

// ------------------------------------------------------------------
// Conversions between `str`/`String` and `Vec<char>`
// ------------------------------------------------------------------

/// Copy the characters of a string slice into a vector.
pub fn chars_of(s: &str) -> (v: Vec<char>)
    ensures
        v@ == s@,
{
    let mut v: Vec<char> = Vec::new();
    for c in it: s.chars()
        invariant
            v@ == it.seq().take(it.index() as int),
            it.seq() == s@,
    {
        v.push(c);
    }
    v
}

/// `String::push`: appends one character at the end of the string.
#[verifier::external_body]
pub(crate) fn push_char(s: &mut String, c: char)
    ensures
        final(s)@ == old(s)@.push(c),
{
    s.push(c);
}

/// `String::pop`: removes the last character, if there is one, and returns it.
#[verifier::external_body]
pub(crate) fn pop_char(s: &mut String) -> (r: Option<char>)
    ensures
        old(s)@.len() == 0 ==> r is None && final(s)@ == old(s)@,
        old(s)@.len() > 0 ==> r == Some(old(s)@.last()) && final(s)@ == old(s)@.drop_last(),
{
    s.pop()
}

/// Append every character of `v` to `s`.
pub fn push_chars(s: &mut String, v: &Vec<char>)
    ensures
        final(s)@ == old(s)@ + v@,
{
    let ghost start = s@;
    let n = v.len();
    for i in 0..n
        invariant
            n == v@.len(),
            s@ == start + v@.take(i as int),
    {
        push_char(s, v[i]);
        assert(v@.take(i + 1) =~= v@.take(i as int).push(v@[i as int]));
    }
    assert(v@.take(n as int) =~= v@);
}

/// Build a `String` holding exactly the characters of `v`.
pub fn string_of(v: &Vec<char>) -> (s: String)
    ensures
        s@ == v@,
{
    let mut s = String::new();
    push_chars(&mut s, v);
    assert(s@ =~= v@);
    s
}

/// Copy of the characters of `s` in positions `lo..hi`.
pub fn sub_chars(s: &Vec<char>, lo: usize, hi: usize) -> (r: Vec<char>)
    requires
        lo <= hi <= s@.len(),
    ensures
        r@ == s@.subrange(lo as int, hi as int),
{
    let mut r: Vec<char> = Vec::new();
    let mut i = lo;
    while i < hi
        invariant
            lo <= i <= hi <= s@.len(),
            r@ == s@.subrange(lo as int, i as int),
        decreases hi - i,
    {
        r.push(s[i]);
        i = i + 1;
        assert(r@ =~= s@.subrange(lo as int, i as int));
    }
    r
}

/// Concatenation of two character vectors.
pub fn concat_chars(a: &Vec<char>, b: &Vec<char>) -> (r: Vec<char>)
    ensures
        r@ == a@ + b@,
{
    let mut r = sub_chars(a, 0, a.len());
    let n = b.len();
    for i in 0..n
        invariant
            n == b@.len(),
            r@ == a@ + b@.take(i as int),
    {
        r.push(b[i]);
        assert(b@.take(i + 1) =~= b@.take(i as int).push(b@[i as int]));
    }
    assert(a@.subrange(0, a@.len() as int) =~= a@);
    assert(b@.take(n as int) =~= b@);
    r
}

/// The character sequences held by a sequence of character vectors.
pub open spec fn char_views(v: Seq<Vec<char>>) -> Seq<Seq<char>> {
    v.map_values(|x: Vec<char>| x@)
}

/// The character sequences held by a sequence of strings.
pub open spec fn str_views(v: Seq<String>) -> Seq<Seq<char>> {
    v.map_values(|x: String| x@)
}

// ------------------------------------------------------------------
// Whitespace and trimming
// ------------------------------------------------------------------

/// A character with the Unicode `White_Space` property (what
/// `char::is_whitespace` and `str::trim` go by).
pub open spec fn is_ws(c: char) -> bool {
    let u = c as u32;
    ||| 9 <= u <= 13
    ||| u == 32
    ||| u == 0x85
    ||| u == 0xA0
    ||| u == 0x1680
    ||| 0x2000 <= u <= 0x200A
    ||| u == 0x2028
    ||| u == 0x2029
    ||| u == 0x202F
    ||| u == 0x205F
    ||| u == 0x3000
}

/// Decide `is_ws`.
pub fn is_whitespace_char(c: char) -> (r: bool)
    ensures
        r == is_ws(c),
{
    let u = c as u32;
    (9 <= u && u <= 13) || u == 32 || u == 0x85 || u == 0xA0 || u == 0x1680 || (0x2000 <= u && u
        <= 0x200A) || u == 0x2028 || u == 0x2029 || u == 0x202F || u == 0x205F || u == 0x3000
}

/// `s` without its leading whitespace.
pub open spec fn trim_start(s: Seq<char>) -> Seq<char>
    decreases s.len(),
{
    if s.len() > 0 && is_ws(s[0]) {
        trim_start(s.drop_first())
    } else {
        s
    }
}

/// `s` without its trailing whitespace.
pub open spec fn trim_end(s: Seq<char>) -> Seq<char>
    decreases s.len(),
{
    if s.len() > 0 && is_ws(s.last()) {
        trim_end(s.drop_last())
    } else {
        s
    }
}

/// `s` without leading and trailing whitespace (`str::trim`).
pub open spec fn trim(s: Seq<char>) -> Seq<char> {
    trim_end(trim_start(s))
}

/// Every character of `s` is whitespace.
pub open spec fn all_ws(s: Seq<char>) -> bool {
    forall|i: int| 0 <= i < s.len() ==> is_ws(#[trigger] s[i])
}

/// Compute `trim`.
pub fn trim_chars(s: &Vec<char>) -> (r: Vec<char>)
    ensures
        r@ == trim(s@),
{
    let n = s.len();
    let mut lo: usize = 0;
    assert(s@.skip(0) =~= s@);
    while lo < n && is_whitespace_char(s[lo])
        invariant
            n == s@.len(),
            lo <= n,
            trim_start(s@) == trim_start(s@.skip(lo as int)),
        decreases n - lo,
    {
        assert(s@.skip(lo as int).drop_first() =~= s@.skip(lo + 1));
        lo = lo + 1;
    }
    assert(trim_start(s@) == s@.subrange(lo as int, n as int)) by {
        assert(s@.skip(lo as int) =~= s@.subrange(lo as int, n as int));
    }
    let mut hi: usize = n;
    while hi > lo && is_whitespace_char(s[hi - 1])
        invariant
            n == s@.len(),
            lo <= hi <= n,
            trim(s@) == trim_end(s@.subrange(lo as int, hi as int)),
        decreases hi,
    {
        assert(s@.subrange(lo as int, hi as int).drop_last() =~= s@.subrange(
            lo as int,
            hi - 1,
        ));
        hi = hi - 1;
    }
    sub_chars(s, lo, hi)
}

/// Decide `all_ws`.
pub fn all_whitespace(s: &Vec<char>) -> (r: bool)
    ensures
        r == all_ws(s@),
{
    let n = s.len();
    for i in 0..n
        invariant
            n == s@.len(),
            forall|j: int| 0 <= j < i ==> is_ws(#[trigger] s@[j]),
    {
        if !is_whitespace_char(s[i]) {
            return false;
        }
    }
    true
}

// ------------------------------------------------------------------
// Comparison and search
// ------------------------------------------------------------------

/// Decide equality of two character sequences.
pub fn chars_eq(a: &Vec<char>, b: &Vec<char>) -> (r: bool)
    ensures
        r == (a@ == b@),
{
    if a.len() != b.len() {
        return false;
    }
    let n = a.len();
    for i in 0..n
        invariant
            n == a@.len(),
            n == b@.len(),
            forall|j: int| 0 <= j < i ==> a@[j] == b@[j],
    {
        if a[i] != b[i] {
            return false;
        }
    }
    assert(a@ =~= b@);
    true
}

/// Decide whether `s` equals the string `lit`.
pub fn chars_are(s: &Vec<char>, lit: &str) -> (r: bool)
    ensures
        r == (s@ == lit@),
{
    let l = chars_of(lit);
    chars_eq(s, &l)
}

/// `p` occurs in `s` at position `i`.
pub open spec fn occurs_at(s: Seq<char>, p: Seq<char>, i: int) -> bool {
    0 <= i && i + p.len() <= s.len() && s.subrange(i, i + p.len()) == p
}

/// The first position at or after `start` where `p` occurs in `s`.
pub open spec fn find_from(s: Seq<char>, p: Seq<char>, start: int) -> Option<int>
    decreases s.len() - start,
{
    if start < 0 || start + p.len() > s.len() {
        None
    } else if occurs_at(s, p, start) {
        Some(start)
    } else if start >= s.len() {
        None
    } else {
        find_from(s, p, start + 1)
    }
}

/// `s` has a prefix equal to `p`.
pub open spec fn has_prefix(s: Seq<char>, p: Seq<char>) -> bool {
    p.len() <= s.len() && s.take(p.len() as int) == p
}

/// `p` occurs somewhere in `s` (`str::contains`).
pub open spec fn contains(s: Seq<char>, p: Seq<char>) -> bool {
    find_from(s, p, 0) is Some
}

/// What `find_from` returns is an occurrence at or after `start`, and the
/// first one.
pub proof fn lemma_find_from(s: Seq<char>, p: Seq<char>, start: int)
    ensures
        find_from(s, p, start) matches Some(i) ==> start <= i && occurs_at(s, p, i) && forall|
            j: int,
        | start <= j < i ==> !occurs_at(s, p, j),
        find_from(s, p, start) is None ==> forall|j: int|
            start <= j && 0 <= start ==> !occurs_at(s, p, j),
    decreases s.len() - start,
{
    if start < 0 || start + p.len() > s.len() {
    } else if occurs_at(s, p, start) {
    } else if start >= s.len() {
    } else {
        lemma_find_from(s, p, start + 1);
    }
}

/// Compute `find_from`.
pub fn find_chars_from(s: &Vec<char>, p: &Vec<char>, start: usize) -> (r: Option<usize>)
    ensures
        r matches Some(i) ==> find_from(s@, p@, start as int) == Some(i as int),
        r is None ==> find_from(s@, p@, start as int) is None,
{
    let n = s.len();
    let m = p.len();
    if m > n || start > n - m {
        return None;
    }
    if m == 0 {
        assert(s@.subrange(start as int, start as int) =~= p@);
        return Some(start);
    }
    let mut i = start;
    while i <= n - m
        invariant
            n == s@.len(),
            m == p@.len(),
            1 <= m <= n,
            start <= i <= n - m + 1,
            find_from(s@, p@, start as int) == find_from(s@, p@, i as int),
        decreases n - m + 1 - i,
    {
        let mut k: usize = 0;
        let mut ok = true;
        while k < m
            invariant
                n == s@.len(),
                m == p@.len(),
                i + m <= n,
                k <= m,
                ok ==> forall|j: int| 0 <= j < k ==> s@[i + j] == p@[j],
                !ok ==> !occurs_at(s@, p@, i as int),
            decreases m - k,
        {
            if s[i + k] != p[k] {
                ok = false;
                assert(s@.subrange(i as int, i + m)[k as int] != p@[k as int]);
            }
            k = k + 1;
        }
        if ok {
            assert(s@.subrange(i as int, i + m) =~= p@);
            return Some(i);
        }
        i = i + 1;
    }
    None
}

/// Decide `has_prefix`.
pub fn starts_with_chars(s: &Vec<char>, p: &Vec<char>) -> (r: bool)
    ensures
        r == has_prefix(s@, p@),
{
    if p.len() > s.len() {
        return false;
    }
    let head = sub_chars(s, 0, p.len());
    chars_eq(&head, p)
}

/// `s` has a suffix equal to `p` (`str::ends_with`).
pub open spec fn has_suffix(s: Seq<char>, p: Seq<char>) -> bool {
    p.len() <= s.len() && s.subrange(s.len() - p.len(), s.len() as int) == p
}

/// Decide `has_suffix`.
pub fn ends_with_chars(s: &Vec<char>, p: &Vec<char>) -> (r: bool)
    ensures
        r == has_suffix(s@, p@),
{
    if p.len() > s.len() {
        return false;
    }
    let tail = sub_chars(s, s.len() - p.len(), s.len());
    chars_eq(&tail, p)
}

/// Decide `contains`.
pub fn contains_chars(s: &Vec<char>, p: &Vec<char>) -> (r: bool)
    ensures
        r == contains(s@, p@),
{
    find_chars_from(s, p, 0).is_some()
}

// ------------------------------------------------------------------
// Splitting, lines, joining, replacing
// ------------------------------------------------------------------

/// The pieces of `s` from `start` on, cut at each non-overlapping
/// occurrence of the non-empty pattern `p`, left to right.
pub open spec fn split_from(s: Seq<char>, p: Seq<char>, start: int) -> Seq<Seq<char>>
    decreases s.len() - start,
{
    if p.len() == 0 || start < 0 || start > s.len() {
        seq![]
    } else {
        match find_from(s, p, start) {
            None => seq![s.subrange(start, s.len() as int)],
            Some(i) => {
                proof {
                    lemma_find_from(s, p, start);
                }
                seq![s.subrange(start, i)] + split_from(s, p, i + p.len())
            },
        }
    }
}

/// `str::split` by a non-empty pattern.
pub open spec fn split(s: Seq<char>, p: Seq<char>) -> Seq<Seq<char>> {
    split_from(s, p, 0)
}

/// A split by a non-empty pattern has at least one piece.
pub proof fn lemma_split_nonempty(s: Seq<char>, p: Seq<char>, start: int)
    requires
        p.len() > 0,
        0 <= start <= s.len(),
    ensures
        split_from(s, p, start).len() >= 1,
{
    lemma_find_from(s, p, start);
}

/// Compute `split`.
pub fn split_chars(s: &Vec<char>, p: &Vec<char>) -> (r: Vec<Vec<char>>)
    requires
        p@.len() > 0,
    ensures
        char_views(r@) == split(s@, p@),
{
    let mut r: Vec<Vec<char>> = Vec::new();
    let mut pos: usize = 0;
    let n = s.len();
    loop
        invariant
            n == s@.len(),
            p@.len() > 0,
            pos <= n,
            char_views(r@) + split_from(s@, p@, pos as int) == split(s@, p@),
        decreases n - pos,
    {
        proof {
            lemma_find_from(s@, p@, pos as int);
        }
        match find_chars_from(s, p, pos) {
            None => {
                let piece = sub_chars(s, pos, n);
                let ghost before = char_views(r@);
                r.push(piece);
                assert(char_views(r@) =~= before + seq![s@.subrange(pos as int, n as int)]);
                assert(char_views(r@) == split(s@, p@));
                return r;
            },
            Some(i) => {
                let piece = sub_chars(s, pos, i);
                let ghost before = char_views(r@);
                r.push(piece);
                assert(char_views(r@) =~= before + seq![s@.subrange(pos as int, i as int)]);
                assert(seq![s@.subrange(pos as int, i as int)] + split_from(
                    s@,
                    p@,
                    i + p@.len(),
                ) == split_from(s@, p@, pos as int));
                assert(before + split_from(s@, p@, pos as int) =~= char_views(r@) + split_from(
                    s@,
                    p@,
                    i + p@.len(),
                ));
                pos = i + p.len();
            },
        }
    }
}

/// A line without one trailing carriage return.
pub open spec fn strip_cr(l: Seq<char>) -> Seq<char> {
    if l.len() > 0 && l.last() == '\r' {
        l.drop_last()
    } else {
        l
    }
}

/// `str::lines`: the pieces between `\n` characters, a `\r` before each `\n`
/// removed, and no empty last line after a final `\n`.
pub open spec fn lines(s: Seq<char>) -> Seq<Seq<char>> {
    let parts = split(s, seq!['\n']);
    let n = parts.len() as int;
    if n == 0 {
        seq![]
    } else if parts[n - 1].len() == 0 {
        Seq::new((n - 1) as nat, |i: int| strip_cr(parts[i]))
    } else {
        Seq::new(n as nat, |i: int| if i < n - 1 { strip_cr(parts[i]) } else { parts[i] })
    }
}

/// Compute `strip_cr`.
fn strip_cr_chars(l: &Vec<char>) -> (r: Vec<char>)
    ensures
        r@ == strip_cr(l@),
{
    if l.len() > 0 && l[l.len() - 1] == '\r' {
        sub_chars(l, 0, l.len() - 1)
    } else {
        sub_chars(l, 0, l.len())
    }
}

/// Compute `lines`.
pub fn lines_chars(s: &Vec<char>) -> (r: Vec<Vec<char>>)
    ensures
        char_views(r@) == lines(s@),
{
    let nl = vec!['\n'];
    assert(nl@ =~= seq!['\n']);
    let parts = split_chars(s, &nl);
    proof {
        lemma_split_nonempty(s@, nl@, 0);
    }
    let n = parts.len();
    let last_empty = parts[n - 1].len() == 0;
    let count = if last_empty {
        n - 1
    } else {
        n
    };
    let mut r: Vec<Vec<char>> = Vec::new();
    for i in 0..count
        invariant
            n == char_views(parts@).len(),
            n >= 1,
            char_views(parts@) == split(s@, seq!['\n']),
            last_empty ==> count == n - 1,
            !last_empty ==> count == n,
            last_empty == (char_views(parts@)[n - 1].len() == 0),
            char_views(r@) =~= lines(s@).take(i as int),
            lines(s@).len() == count,
    {
        let piece = if i + 1 < n {
            strip_cr_chars(&parts[i])
        } else {
            sub_chars(&parts[i], 0, parts[i].len())
        };
        assert(char_views(parts@)[i as int] == parts[i as int]@);
        assert(piece@ == lines(s@)[i as int]);
        r.push(piece);
        assert(lines(s@).take(i + 1) =~= lines(s@).take(i as int).push(piece@));
    }
    assert(lines(s@).take(count as int) =~= lines(s@));
    r
}

/// The pieces of `parts` with `sep` between consecutive ones (`join`).
pub open spec fn join(parts: Seq<Seq<char>>, sep: Seq<char>) -> Seq<char>
    decreases parts.len(),
{
    if parts.len() == 0 {
        seq![]
    } else if parts.len() == 1 {
        parts[0]
    } else {
        join(parts.drop_last(), sep) + sep + parts.last()
    }
}

/// Compute `join` on strings.
pub fn join_strings(parts: &Vec<String>, sep: &str) -> (r: String)
    ensures
        r@ == join(str_views(parts@), sep@),
{
    let mut r = String::new();
    let n = parts.len();
    for i in 0..n
        invariant
            n == str_views(parts@).len(),
            r@ == join(str_views(parts@).take(i as int), sep@),
    {
        assert(str_views(parts@)[i as int] == parts[i as int]@);
        if i > 0 {
            r.append(sep);
        }
        r.append(parts[i].as_str());
        assert(str_views(parts@).take(i + 1).drop_last() =~= str_views(parts@).take(i as int));
        assert(str_views(parts@).take(i + 1).last() == parts[i as int]@);
        if i == 0 {
            assert(r@ =~= join(str_views(parts@).take(i + 1), sep@));
        }
    }
    assert(str_views(parts@).take(n as int) =~= str_views(parts@));
    r
}

/// `s` with every non-overlapping occurrence of the non-empty `from`,
/// left to right, replaced by `to` (`str::replace`), from `start` on.
pub open spec fn replace_from(s: Seq<char>, from: Seq<char>, to: Seq<char>, start: int) -> Seq<
    char,
>
    decreases s.len() - start,
{
    if from.len() == 0 || start < 0 || start > s.len() {
        seq![]
    } else {
        match find_from(s, from, start) {
            None => s.subrange(start, s.len() as int),
            Some(i) => {
                proof {
                    lemma_find_from(s, from, start);
                }
                s.subrange(start, i) + to + replace_from(s, from, to, i + from.len())
            },
        }
    }
}

/// Where the replacement is one character that the pattern does not hold,
/// what `replace_from` gives holds no occurrence of the pattern.
pub proof fn lemma_replace_leaves_none(s: Seq<char>, p: Seq<char>, t: Seq<char>, start: int)
    requires
        p.len() > 0,
        t.len() == 1,
        !p.contains(t[0]),
        0 <= start <= s.len(),
    ensures
        forall|j: int| !occurs_at(replace_from(s, p, t, start), p, j),
    decreases s.len() - start,
{
    lemma_find_from(s, p, start);
    let r = replace_from(s, p, t, start);
    match find_from(s, p, start) {
        None => {
            assert forall|j: int| !occurs_at(r, p, j) by {
                if occurs_at(r, p, j) {
                    assert(r.subrange(j, j + p.len()) =~= s.subrange(start + j, start + j + p.len()));
                    assert(occurs_at(s, p, start + j));
                }
            }
        },
        Some(i) => {
            lemma_replace_leaves_none(s, p, t, i + p.len());
            let a = s.subrange(start, i);
            let rest = replace_from(s, p, t, i + p.len());
            assert(r == a + t + rest);
            assert forall|j: int| !occurs_at(r, p, j) by {
                if occurs_at(r, p, j) {
                    if j + p.len() <= a.len() {
                        assert(r.subrange(j, j + p.len()) =~= s.subrange(
                            start + j,
                            start + j + p.len(),
                        ));
                        assert(occurs_at(s, p, start + j));
                    } else if j <= a.len() {
                        let k = a.len() - j;
                        assert(r[a.len() as int] == t[0]);
                        assert(r.subrange(j, j + p.len())[k] == r[j + k]);
                        assert(p[k] == t[0]);
                    } else {
                        let j2 = j - a.len() - 1;
                        assert(r.subrange(j, j + p.len()) =~= rest.subrange(j2, j2 + p.len()));
                        assert(occurs_at(rest, p, j2));
                    }
                }
            }
        },
    }
}

/// Replacing again changes nothing where the replacement is one character
/// that the pattern does not hold.
pub proof fn lemma_replace_twice(s: Seq<char>, p: Seq<char>, t: Seq<char>)
    requires
        p.len() > 0,
        t.len() == 1,
        !p.contains(t[0]),
    ensures
        replace(replace(s, p, t), p, t) == replace(s, p, t),
{
    let r = replace(s, p, t);
    lemma_replace_leaves_none(s, p, t, 0);
    lemma_find_from(r, p, 0);
    assert(find_from(r, p, 0) is None);
    assert(r.subrange(0, r.len() as int) =~= r);
}

/// `str::replace` with a non-empty pattern.
pub open spec fn replace(s: Seq<char>, from: Seq<char>, to: Seq<char>) -> Seq<char> {
    replace_from(s, from, to, 0)
}

/// Compute `replace`.
pub fn replace_chars(s: &Vec<char>, from: &Vec<char>, to: &Vec<char>) -> (r: Vec<char>)
    requires
        from@.len() > 0,
    ensures
        r@ == replace(s@, from@, to@),
{
    let mut r: Vec<char> = Vec::new();
    let mut pos: usize = 0;
    let n = s.len();
    loop
        invariant
            n == s@.len(),
            from@.len() > 0,
            pos <= n,
            r@ + replace_from(s@, from@, to@, pos as int) == replace(s@, from@, to@),
        decreases n - pos,
    {
        proof {
            lemma_find_from(s@, from@, pos as int);
        }
        match find_chars_from(s, from, pos) {
            None => {
                let piece = sub_chars(s, pos, n);
                let r2 = concat_chars(&r, &piece);
                return r2;
            },
            Some(i) => {
                let piece = sub_chars(s, pos, i);
                let ghost before = r@;
                let r1 = concat_chars(&r, &piece);
                r = concat_chars(&r1, to);
                assert(before + replace_from(s@, from@, to@, pos as int) =~= r@ + replace_from(
                    s@,
                    from@,
                    to@,
                    i + from@.len(),
                ));
                pos = i + from.len();
            },
        }
    }
}

/// `replace` on a string, with string patterns.
pub fn replace_str(s: &str, from: &str, to: &str) -> (r: String)
    requires
        from@.len() > 0,
    ensures
        r@ == replace(s@, from@, to@),
{
    let sv = chars_of(s);
    let fv = chars_of(from);
    let tv = chars_of(to);
    let rv = replace_chars(&sv, &fv, &tv);
    string_of(&rv)
}

} // verus!

verus! {

// ------------------------------------------------------------------
// Vectors of strings
// ------------------------------------------------------------------

/// Add a string at the end of a vector of strings.
pub fn push_string(v: &mut Vec<String>, s: String)
    ensures
        str_views(final(v)@) == str_views(old(v)@).push(s@),
{
    let ghost sv = s@;
    v.push(s);
    assert(str_views(v@) =~= str_views(old(v)@).push(sv));
}

/// Remove the last string of a non-empty vector of strings.
pub fn pop_string(v: &mut Vec<String>) -> (r: String)
    requires
        old(v)@.len() > 0,
    ensures
        str_views(final(v)@) == str_views(old(v)@).drop_last(),
        r@ == str_views(old(v)@).last(),
{
    let r = v.pop().unwrap();
    assert(str_views(v@) =~= str_views(old(v)@).drop_last());
    r
}

/// A copy of the last string of a non-empty vector of strings.
pub fn last_string(v: &Vec<String>) -> (r: String)
    requires
        v@.len() > 0,
    ensures
        r@ == str_views(v@).last(),
{
    v[v.len() - 1].clone()
}

/// Decide whether a vector of strings holds `s`.
pub fn strings_contain(v: &Vec<String>, s: &String) -> (r: bool)
    ensures
        r == str_views(v@).contains(s@),
{
    let n = v.len();
    for i in 0..n
        invariant
            n == v@.len(),
            forall|j: int| 0 <= j < i ==> str_views(v@)[j] != s@,
    {
        if v[i] == *s {
            assert(str_views(v@)[i as int] == s@);
            return true;
        }
    }
    false
}

/// What `str::to_lowercase` gives of `s`: the Unicode lowercase mapping of
/// its characters (a capital sigma at the end of a word becoming final
/// sigma), as the standard library computes it.
pub uninterp spec fn lowercase(s: Seq<char>) -> Seq<char>;

/// `c` in lower case where it is an ASCII capital letter; otherwise `c`.
pub open spec fn ascii_lower(c: char) -> char {
    if 'A' <= c && c <= 'Z' {
        ((c as u32) + 32) as char
    } else {
        c
    }
}

/// `s` with its ASCII capitals lowered.
pub open spec fn ascii_lowered(s: Seq<char>) -> Seq<char> {
    s.map_values(|c: char| ascii_lower(c))
}

/// Every character of `s` is ASCII.
pub open spec fn is_ascii_text(s: Seq<char>) -> bool {
    forall|i: int| 0 <= i < s.len() ==> (#[trigger] s[i] as u32) < 128
}

/// `str::to_lowercase`: its result is `lowercase` of the argument; for ASCII
/// text, where the Unicode lowercase mapping lowers `A`-`Z` and keeps every
/// other character, that is the same text with its capitals lowered.
#[verifier::external_body]
pub(crate) fn to_lowercase(s: &str) -> (r: String)
    ensures
        r@ == lowercase(s@),
        is_ascii_text(s@) ==> r@ == ascii_lowered(s@),
{
    s.to_lowercase()
}

// ------------------------------------------------------------------
// Running a step over the lines of a text
// ------------------------------------------------------------------

/// The state after applying `step` to each line in turn.
pub open spec fn run_lines<S>(
    s: S,
    ls: Seq<Seq<char>>,
    step: spec_fn(S, Seq<char>) -> S,
) -> S
    decreases ls.len(),
{
    if ls.len() == 0 {
        s
    } else {
        step(run_lines(s, ls.drop_last(), step), ls.last())
    }
}

/// Applying `step` to each line in turn never meets a state and line on
/// which `ok` fails.
pub open spec fn run_lines_ok<S>(
    s: S,
    ls: Seq<Seq<char>>,
    step: spec_fn(S, Seq<char>) -> S,
    ok: spec_fn(S, Seq<char>) -> bool,
) -> bool
    decreases ls.len(),
{
    if ls.len() == 0 {
        true
    } else {
        run_lines_ok(s, ls.drop_last(), step, ok) && ok(run_lines(s, ls.drop_last(), step), ls.last())
    }
}

/// A run that does not fail on a sequence of lines does not fail on any
/// prefix of it.
pub proof fn lemma_run_lines_ok_prefix<S>(
    s: S,
    ls: Seq<Seq<char>>,
    step: spec_fn(S, Seq<char>) -> S,
    ok: spec_fn(S, Seq<char>) -> bool,
    k: int,
)
    requires
        run_lines_ok(s, ls, step, ok),
        0 <= k <= ls.len(),
    ensures
        run_lines_ok(s, ls.take(k), step, ok),
    decreases ls.len(),
{
    if k < ls.len() {
        lemma_run_lines_ok_prefix(s, ls.drop_last(), step, ok, k);
        assert(ls.drop_last().take(k) =~= ls.take(k));
    } else {
        assert(ls.take(k) =~= ls);
    }
}

/// One more line of a run.
pub proof fn lemma_run_lines_step<S>(
    s: S,
    ls: Seq<Seq<char>>,
    step: spec_fn(S, Seq<char>) -> S,
    ok: spec_fn(S, Seq<char>) -> bool,
    i: int,
)
    requires
        0 <= i < ls.len(),
    ensures
        run_lines(s, ls.take(i + 1), step) == step(run_lines(s, ls.take(i), step), ls[i]),
        run_lines_ok(s, ls.take(i + 1), step, ok) == (run_lines_ok(s, ls.take(i), step, ok) && ok(
            run_lines(s, ls.take(i), step),
            ls[i],
        )),
{
    assert(ls.take(i + 1).drop_last() =~= ls.take(i));
}

} // verus!
