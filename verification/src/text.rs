//! Character-level helpers shared by the codec and the normalizers:
//! conversion between strings and character vectors, case-insensitive
//! comparison, and whitespace trimming.

use vstd::prelude::*;

verus! {

/// The whitespace characters recognized when trimming loosely-formatted
/// field values (space, tab, line feed, carriage return, vertical tab,
/// form feed).
pub open spec fn is_ws_char(c: char) -> bool {
    c == ' ' || c == '\t' || c == '\n' || c == '\r' || c == '\u{b}' || c == '\u{c}'
}

/// Executable mirror of [`is_ws_char`].
pub fn ws_char(c: char) -> (r: bool)
    ensures
        r == is_ws_char(c),
{
    c == ' ' || c == '\t' || c == '\n' || c == '\r' || c == '\u{b}' || c == '\u{c}'
}

/// Character `a` equals character `b` after ASCII-lowercasing `a`;
/// `b` is expected to be lowercase already.
pub open spec fn lower_eq_char(a: char, b: char) -> bool {
    a == b || ('A' <= a && a <= 'Z' && a as u32 + 32 == b as u32)
}

/// `a` equals `b` up to ASCII case of `a`; `b` is expected lowercase.
pub open spec fn eq_ignore_ascii_case(a: Seq<char>, b: Seq<char>) -> bool {
    a.len() == b.len() && (forall|i: int| 0 <= i < a.len() ==> lower_eq_char(a[i], b[i]))
}

/// `s` with leading and trailing whitespace characters removed.
pub open spec fn trim_ws(s: Seq<char>) -> Seq<char>
    decreases s.len(),
{
    if s.len() == 0 {
        s
    } else if is_ws_char(s.first()) {
        trim_ws(s.drop_first())
    } else if is_ws_char(s.last()) {
        trim_ws(s.drop_last())
    } else {
        s
    }
}

/// Trimming a string of nothing but whitespace leaves nothing.
pub proof fn lemma_trim_ws_all_ws(s: Seq<char>)
    requires
        forall|k: int| 0 <= k < s.len() ==> is_ws_char(s[k]),
    ensures
        trim_ws(s) == Seq::<char>::empty(),
    decreases s.len(),
{
    if s.len() == 0 {
        assert(s =~= Seq::<char>::empty());
    } else {
        lemma_trim_ws_all_ws(s.drop_first());
    }
}

/// A subrange free of surrounding whitespace is exactly what trimming
/// leaves behind.
pub proof fn lemma_trim_ws_range(s: Seq<char>, i: int, j: int)
    requires
        0 <= i <= j <= s.len(),
        forall|k: int| 0 <= k < i ==> is_ws_char(s[k]),
        forall|k: int| j <= k < s.len() ==> is_ws_char(s[k]),
        i < j ==> !is_ws_char(s[i]) && !is_ws_char(s[j - 1]),
    ensures
        trim_ws(s) == s.subrange(i, j),
    decreases s.len(),
{
    if i == j {
        lemma_trim_ws_all_ws(s);
        assert(s.subrange(i, j) =~= Seq::<char>::empty());
    } else if i > 0 {
        assert(is_ws_char(s.first()));
        lemma_trim_ws_range(s.drop_first(), i - 1, j - 1);
        assert(s.drop_first().subrange(i - 1, j - 1) =~= s.subrange(i, j));
    } else if j < s.len() {
        assert(!is_ws_char(s.first()));
        assert(is_ws_char(s.last()));
        lemma_trim_ws_range(s.drop_last(), i, j);
        assert(s.drop_last().subrange(i, j) =~= s.subrange(i, j));
    } else {
        assert(!is_ws_char(s.first()));
        assert(!is_ws_char(s.last()));
        assert(s.subrange(i, j) =~= s);
    }
}

/// The view of an optional string.
pub open spec fn opt_view(o: Option<String>) -> Option<Seq<char>> {
    match o {
        Some(s) => Some(s@),
        None => None,
    }
}

/// Collects the characters of a string slice into a vector.
pub fn chars_of(s: &str) -> (v: Vec<char>)
    ensures
        v@ == s@,
{
    let n = s.unicode_len();
    let mut v: Vec<char> = Vec::new();
    for i in 0..n
        invariant
            n == s@.len(),
            v@ == s@.take(i as int),
    {
        v.push(s.get_char(i));
        assert(v@ =~= s@.take(i + 1));
    }
    assert(v@ =~= s@);
    v
}

/// Relies on `String::push`: appends one character at the end.
#[verifier::external_body]
pub fn push_char(s: &mut String, c: char)
    ensures
        final(s)@ == old(s)@ + seq![c],
{
    s.push(c);
}

/// Builds an owned string out of a vector of characters.
pub fn string_from_chars(v: &Vec<char>) -> (s: String)
    ensures
        s@ == v@,
{
    let mut s = String::new();
    let n = v.len();
    for i in 0..n
        invariant
            n == v@.len(),
            s@ == v@.take(i as int),
    {
        push_char(&mut s, v[i]);
        assert(s@ =~= v@.take(i + 1));
    }
    assert(s@ =~= v@);
    s
}

/// Appends every character of `src` to `dst`.
pub fn push_all(dst: &mut Vec<char>, src: &Vec<char>)
    ensures
        final(dst)@ == old(dst)@ + src@,
{
    let n = src.len();
    for i in 0..n
        invariant
            n == src@.len(),
            dst@ == old(dst)@ + src@.take(i as int),
    {
        dst.push(src[i]);
        assert(dst@ =~= old(dst)@ + src@.take(i + 1));
    }
    assert(dst@ =~= old(dst)@ + src@);
}

/// Copies a range of a character vector into its own vector.
pub fn copy_range(v: &Vec<char>, from: usize, to: usize) -> (r: Vec<char>)
    requires
        from <= to <= v@.len(),
    ensures
        r@ == v@.subrange(from as int, to as int),
{
    let mut r: Vec<char> = Vec::new();
    let mut i = from;
    while i < to
        invariant
            from <= i <= to <= v@.len(),
            r@ == v@.subrange(from as int, i as int),
        decreases to - i,
    {
        r.push(v[i]);
        assert(r@ =~= v@.subrange(from as int, i + 1));
        i += 1;
    }
    r
}

/// Compares a character slice with a string slice, character by character.
pub fn chars_eq_str(v: &[char], s: &str) -> (r: bool)
    ensures
        r == (v@ == s@),
{
    let n = s.unicode_len();
    if v.len() != n {
        assert(v@ != s@);
        return false;
    }
    for i in 0..n
        invariant
            n == s@.len() == v@.len(),
            forall|k: int| 0 <= k < i ==> v@[k] == s@[k],
    {
        if v[i] != s.get_char(i) {
            assert(v@ != s@);
            return false;
        }
    }
    assert(v@ =~= s@);
    true
}

/// Compares two string slices for equal contents.
pub fn str_eq(a: &str, b: &str) -> (r: bool)
    ensures
        r == (a@ == b@),
{
    let n = a.unicode_len();
    if b.unicode_len() != n {
        assert(a@ != b@);
        return false;
    }
    for i in 0..n
        invariant
            n == a@.len() == b@.len(),
            forall|k: int| 0 <= k < i ==> a@[k] == b@[k],
    {
        if a.get_char(i) != b.get_char(i) {
            assert(a@ != b@);
            return false;
        }
    }
    assert(a@ =~= b@);
    true
}

/// Compares a character range of `v` against a word, exactly.
pub fn range_eq_str(v: &Vec<char>, from: usize, to: usize, word: &str) -> (r: bool)
    requires
        from <= to <= v@.len(),
    ensures
        r == (v@.subrange(from as int, to as int) == word@),
{
    let n = word.unicode_len();
    if to - from != n {
        return false;
    }
    for i in 0..n
        invariant
            n == word@.len(),
            from <= to <= v@.len(),
            to - from == n,
            forall|k: int| 0 <= k < i ==> v@.subrange(from as int, to as int)[k] == word@[k],
    {
        if v[from + i] != word.get_char(i) {
            assert(v@.subrange(from as int, to as int)[i as int] != word@[i as int]);
            return false;
        }
        assert(v@.subrange(from as int, to as int)[i as int] == word@[i as int]);
    }
    assert(v@.subrange(from as int, to as int) =~= word@);
    true
}

/// Case-insensitive comparison of a character range of `v` against an
/// all-lowercase word.
pub fn range_eq_ignore_case(v: &Vec<char>, from: usize, to: usize, word: &str) -> (r: bool)
    requires
        from <= to <= v@.len(),
    ensures
        r == eq_ignore_ascii_case(v@.subrange(from as int, to as int), word@),
{
    let n = word.unicode_len();
    if to - from != n {
        return false;
    }
    for i in 0..n
        invariant
            n == word@.len(),
            from <= to <= v@.len(),
            to - from == n,
            forall|k: int| 0 <= k < i ==> lower_eq_char(v@.subrange(from as int, to as int)[k], word@[k]),
    {
        let a = v[from + i];
        let b = word.get_char(i);
        let ok = a == b || ('A' <= a && a <= 'Z' && a as u32 + 32 == b as u32);
        if !ok {
            assert(!lower_eq_char(v@.subrange(from as int, to as int)[i as int], word@[i as int]));
            return false;
        }
    }
    true
}

} // verus!
