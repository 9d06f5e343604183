//! Text helpers: strings are handled as sequences of characters.

use vstd::prelude::*;

verus! {

/// Appends one character to a string, as `String::push` does.
#[verifier::external_body]
pub(crate) fn push_char(s: &mut String, c: char)
    ensures
        final(s)@ == old(s)@.push(c),
{
    s.push(c);
}

/// The views of the strings of a sequence.
pub open spec fn texts(v: Seq<String>) -> Seq<Seq<char>> {
    Seq::new(v.len(), |i: int| v[i]@)
}

/// The views of the character vectors of a sequence.
pub open spec fn rows(v: Seq<Vec<char>>) -> Seq<Seq<char>> {
    Seq::new(v.len(), |i: int| v[i]@)
}

/// Whether `pat` stands in `s` at position `i`.
pub open spec fn occurs_at(s: Seq<char>, pat: Seq<char>, i: int) -> bool {
    0 <= i && i + pat.len() <= s.len() && s.subrange(i, i + pat.len()) == pat
}

/// The first position at or after `start` where `pat` stands in `s`, or -1.
pub open spec fn find_from(s: Seq<char>, pat: Seq<char>, start: int) -> int
    decreases s.len() - start,
{
    if start < 0 || start + pat.len() > s.len() {
        -1
    } else if occurs_at(s, pat, start) {
        start
    } else if start >= s.len() {
        -1
    } else {
        find_from(s, pat, start + 1)
    }
}

/// The first position where `pat` stands in `s`, or -1.
pub open spec fn find_first(s: Seq<char>, pat: Seq<char>) -> int {
    find_from(s, pat, 0)
}

/// The pieces of `s` between the occurrences of `pat`, taken from the left.
/// A text without `pat` is one piece; so is the empty text.
pub open spec fn split_on(s: Seq<char>, pat: Seq<char>) -> Seq<Seq<char>>
    decreases s.len(),
{
    let i = find_first(s, pat);
    if pat.len() == 0 || i < 0 || i + pat.len() > s.len() {
        seq![s]
    } else {
        seq![s.take(i)] + split_on(s.skip(i + pat.len()), pat)
    }
}

/// Whether `c` is a space or a tab.
pub open spec fn is_blank(c: char) -> bool {
    c == ' ' || c == '\t'
}

/// `s` without the blanks at its start.
pub open spec fn trim_start(s: Seq<char>) -> Seq<char>
    decreases s.len(),
{
    if s.len() > 0 && is_blank(s[0]) {
        trim_start(s.skip(1))
    } else {
        s
    }
}

/// `s` without the blanks at its end.
pub open spec fn trim_end(s: Seq<char>) -> Seq<char>
    decreases s.len(),
{
    if s.len() > 0 && is_blank(s.last()) {
        trim_end(s.drop_last())
    } else {
        s
    }
}

/// `s` without the blanks at its start and at its end.
pub open spec fn trimmed(s: Seq<char>) -> Seq<char> {
    trim_end(trim_start(s))
}

/// What stands in `s` before the first `c`; all of `s` where it holds none.
pub open spec fn before_first(s: Seq<char>, c: char) -> Seq<char> {
    let i = find_first(s, seq![c]);
    if i < 0 || i > s.len() {
        s
    } else {
        s.take(i)
    }
}

/// Whether `s` begins with `prefix`.
pub open spec fn starts_with(s: Seq<char>, prefix: Seq<char>) -> bool {
    s.len() >= prefix.len() && s.take(prefix.len() as int) == prefix
}

/// Where `find_from` finds something, `pat` stands there and nowhere between
/// `start` and there.
pub proof fn lemma_find_from(s: Seq<char>, pat: Seq<char>, start: int)
    requires
        0 <= start,
    ensures
        find_from(s, pat, start) == -1 || (start <= find_from(s, pat, start) && occurs_at(
            s,
            pat,
            find_from(s, pat, start),
        )),
        forall|j: int|
            start <= j && (j < find_from(s, pat, start) || find_from(s, pat, start) == -1)
                ==> !occurs_at(s, pat, j),
    decreases s.len() - start,
{
    if start + pat.len() > s.len() {
    } else if occurs_at(s, pat, start) {
    } else if start >= s.len() {
        assert(pat.len() == 0);
        assert(s.subrange(start, start + pat.len()) =~= pat);
    } else {
        lemma_find_from(s, pat, start + 1);
    }
}

/// The characters of a string, in order.
pub fn chars_of(s: &str) -> (v: Vec<char>)
    ensures
        v@ == s@,
{
    let mut v: Vec<char> = Vec::new();
    for c in it: s.chars()
        invariant
            v@ == it.seq().take(it.index() as int),
            it.seq() == s@,
    {
        v.push(c);
    }
    v
}

/// The string made of the given characters.
pub fn string_of(v: &Vec<char>) -> (s: String)
    ensures
        s@ == v@,
{
    let mut s = String::new();
    let mut i: usize = 0;
    while i < v.len()
        invariant
            i <= v.len(),
            s@ == v@.take(i as int),
        decreases v.len() - i,
    {
        push_char(&mut s, v[i]);
        i += 1;
    }
    s
}

/// The characters of `v` from position `from` up to, and without, `to`.
pub fn sub_vec(v: &Vec<char>, from: usize, to: usize) -> (r: Vec<char>)
    requires
        from <= to <= v@.len(),
    ensures
        r@ == v@.subrange(from as int, to as int),
{
    let mut r: Vec<char> = Vec::new();
    let mut i: usize = from;
    while i < to
        invariant
            from <= i <= to,
            to <= v@.len(),
            r@ == v@.subrange(from as int, i as int),
        decreases to - i,
    {
        r.push(v[i]);
        i += 1;
    }
    r
}

/// Whether two character vectors hold the same text.
pub fn same_chars(a: &Vec<char>, b: &Vec<char>) -> (r: bool)
    ensures
        r == (a@ == b@),
{
    if a.len() != b.len() {
        return false;
    }
    let mut i: usize = 0;
    while i < a.len()
        invariant
            i <= a.len(),
            a@.len() == b@.len(),
            a@.take(i as int) == b@.take(i as int),
        decreases a.len() - i,
    {
        if a[i] != b[i] {
            return false;
        }
        assert(a@.take(i + 1) =~= a@.take(i as int).push(a@[i as int]));
        assert(b@.take(i + 1) =~= b@.take(i as int).push(b@[i as int]));
        i += 1;
    }
    assert(a@ =~= a@.take(a@.len() as int));
    assert(b@ =~= b@.take(b@.len() as int));
    true
}

/// Whether two strings hold the same text.
pub fn same_text(a: &str, b: &str) -> (r: bool)
    ensures
        r == (a@ == b@),
{
    let x = chars_of(a);
    let y = chars_of(b);
    same_chars(&x, &y)
}

/// Whether `pat` stands in `v` at position `i`.
pub fn stands_at(v: &Vec<char>, pat: &Vec<char>, i: usize) -> (r: bool)
    requires
        i + pat@.len() <= v@.len(),
    ensures
        r == occurs_at(v@, pat@, i as int),
{
    let limit: usize = v.len();
    assert(i + pat@.len() <= limit);
    let part = sub_vec(v, i, i + pat.len());
    same_chars(&part, pat)
}

/// The first position where `pat` stands in `v`.
pub fn find(v: &Vec<char>, pat: &Vec<char>) -> (r: Option<usize>)
    ensures
        match r {
            Some(i) => find_first(v@, pat@) == i && i + pat@.len() <= v@.len(),
            None => find_first(v@, pat@) == -1,
        },
{
    if pat.len() > v.len() {
        return None;
    }
    let last: usize = v.len() - pat.len();
    let mut i: usize = 0;
    while i <= last
        invariant
            i <= last + 1,
            last == v@.len() - pat@.len(),
            find_first(v@, pat@) == find_from(v@, pat@, i as int),
        decreases last + 1 - i,
    {
        if stands_at(v, pat, i) {
            return Some(i);
        }
        if i == last {
            proof {
                lemma_find_from(v@, pat@, i as int);
                assert(find_from(v@, pat@, i + 1) == -1);
            }
            return None;
        }
        i += 1;
    }
    None
}

/// The pieces of `v` between the occurrences of `pat`.
pub fn split(v: &Vec<char>, pat: &Vec<char>) -> (r: Vec<Vec<char>>)
    ensures
        rows(r@) == split_on(v@, pat@),
{
    let mut r: Vec<Vec<char>> = Vec::new();
    let mut rest: Vec<char> = sub_vec(v, 0, v.len());
    assert(rest@ =~= v@);
    if pat.len() == 0 {
        r.push(rest);
        assert(rows(r@) =~= seq![v@]);
        return r;
    }
    loop
        invariant
            pat@.len() > 0,
            split_on(v@, pat@) == rows(r@) + split_on(rest@, pat@),
        decreases rest@.len(),
    {
        match find(&rest, pat) {
            None => {
                let ghost before = rows(r@);
                r.push(rest);
                assert(rows(r@) =~= before + seq![rest@]);
                return r;
            },
            Some(i) => {
                let end: usize = rest.len();
                let piece = sub_vec(&rest, 0, i);
                let next = sub_vec(&rest, i + pat.len(), end);
                let ghost before = rows(r@);
                assert(piece@ =~= rest@.take(i as int));
                assert(next@ =~= rest@.skip(i + pat@.len()));
                r.push(piece);
                assert(rows(r@) =~= before + seq![piece@]);
                assert(split_on(rest@, pat@) == seq![piece@] + split_on(next@, pat@));
                rest = next;
            },
        }
    }
}

/// `v` without the blanks at its start and at its end.
pub fn trim(v: &Vec<char>) -> (r: Vec<char>)
    ensures
        r@ == trimmed(v@),
{
    let mut from: usize = 0;
    assert(v@.skip(0) =~= v@);
    while from < v.len() && (v[from] == ' ' || v[from] == '\t')
        invariant
            from <= v@.len(),
            trim_start(v@) == trim_start(v@.skip(from as int)),
        decreases v@.len() - from,
    {
        assert(v@.skip(from as int).skip(1) =~= v@.skip(from + 1));
        from += 1;
    }
    let mut to: usize = v.len();
    assert(v@.skip(from as int) =~= v@.subrange(from as int, to as int));
    while to > from && (v[to - 1] == ' ' || v[to - 1] == '\t')
        invariant
            from <= to <= v@.len(),
            trim_start(v@) == v@.skip(from as int),
            trimmed(v@) == trim_end(v@.subrange(from as int, to as int)),
        decreases to,
    {
        assert(v@.subrange(from as int, to as int).drop_last() =~= v@.subrange(
            from as int,
            to - 1,
        ));
        to -= 1;
    }
    sub_vec(v, from, to)
}

/// What stands in `v` before the first `c`.
pub fn cut_at(v: &Vec<char>, c: char) -> (r: Vec<char>)
    ensures
        r@ == before_first(v@, c),
{
    let mut pat: Vec<char> = Vec::new();
    pat.push(c);
    assert(pat@ =~= seq![c]);
    match find(v, &pat) {
        Some(i) => {
            let r = sub_vec(v, 0, i);
            assert(r@ =~= v@.take(i as int));
            r
        },
        None => {
            let r = sub_vec(v, 0, v.len());
            assert(r@ =~= v@);
            r
        },
    }
}

/// Whether `text` begins with `prefix`.
pub fn begins_with(text: &str, prefix: &str) -> (r: bool)
    ensures
        r == starts_with(text@, prefix@),
{
    let chars = chars_of(text);
    let pat = chars_of(prefix);
    if chars.len() < pat.len() {
        return false;
    }
    let head = sub_vec(&chars, 0, pat.len());
    assert(head@ =~= text@.take(prefix@.len() as int));
    same_chars(&head, &pat)
}

/// Whether `list` holds the text `key`.
pub fn holds_text(list: &Vec<String>, key: &str) -> (r: bool)
    ensures
        r == texts(list@).contains(key@),
{
    let mut i: usize = 0;
    while i < list.len()
        invariant
            i <= list@.len(),
            forall|k: int| 0 <= k < i ==> texts(list@)[k] != key@,
        decreases list@.len() - i,
    {
        if same_text(list[i].as_str(), key) {
            assert(texts(list@)[i as int] == key@);
            return true;
        }
        i += 1;
    }
    false
}

} // verus!
