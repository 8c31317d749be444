//! A small URL reader for the telemetry and image links handed over by
//! the upstream ad network.
//!
//! The accepted shape is deliberately narrow: printable ASCII only, a
//! scheme, `"://"`, a non-empty authority, then an optional path, an
//! optional `?`-introduced query and an optional `#`-introduced fragment.
//! The host is the authority without userinfo (up to the last `@`) and
//! without the port (after the first `:` that follows). A URL outside this
//! shape is rejected, which the callers surface as a validation error.

use vstd::prelude::*;

verus! {

/// Characters admitted anywhere in a URL: printable ASCII, no space.
pub open spec fn is_url_char(c: char) -> bool {
    '\u{21}' <= c && c <= '\u{7e}'
}

/// Characters admitted in a scheme.
pub open spec fn is_scheme_char(c: char) -> bool {
    ('a' <= c && c <= 'z') || ('A' <= c && c <= 'Z') || ('0' <= c && c <= '9') || c == '+' || c
        == '-' || c == '.'
}

/// The first index at or after `i` whose character satisfies `p`.
pub open spec fn find_idx(s: Seq<char>, i: int, p: spec_fn(char) -> bool) -> Option<int>
    decreases s.len() - i,
{
    if i < 0 || i >= s.len() {
        None
    } else if p(s[i]) {
        Some(i)
    } else {
        find_idx(s, i + 1, p)
    }
}

/// The first index at or after `i`, or the length of `s` when there is none.
pub open spec fn find_idx_or_len(s: Seq<char>, i: int, p: spec_fn(char) -> bool) -> int {
    match find_idx(s, i, p) {
        Some(k) => k,
        None => s.len() as int,
    }
}

/// The last index at or before `i` whose character satisfies `p`.
pub open spec fn rfind_idx(s: Seq<char>, i: int, p: spec_fn(char) -> bool) -> Option<int>
    decreases i + 1,
{
    if i < 0 || i >= s.len() {
        None
    } else if p(s[i]) {
        Some(i)
    } else {
        rfind_idx(s, i - 1, p)
    }
}

/// Ends the scheme: the first character that cannot belong to one.
pub open spec fn p_non_scheme() -> spec_fn(char) -> bool {
    |c: char| !is_scheme_char(c)
}

/// Ends the authority: a slash, a query mark or a fragment mark.
pub open spec fn p_auth_end() -> spec_fn(char) -> bool {
    |c: char| c == '/' || c == '?' || c == '#'
}

/// Starts a query or a fragment.
pub open spec fn p_query_or_frag() -> spec_fn(char) -> bool {
    |c: char| c == '?' || c == '#'
}

/// Starts a fragment.
pub open spec fn p_frag() -> spec_fn(char) -> bool {
    |c: char| c == '#'
}

/// Separates userinfo from the host.
pub open spec fn p_at() -> spec_fn(char) -> bool {
    |c: char| c == '@'
}

/// Separates query pairs.
pub open spec fn p_amp() -> spec_fn(char) -> bool {
    |c: char| c == '&'
}

/// Separates a query key from its value.
pub open spec fn p_eq() -> spec_fn(char) -> bool {
    |c: char| c == '='
}

/// Separates the host from the port.
pub open spec fn p_colon() -> spec_fn(char) -> bool {
    |c: char| c == ':'
}

/// Where the scheme of `s` ends, if a scheme is present.
pub open spec fn scheme_end(s: Seq<char>) -> Option<int> {
    find_idx(s, 0, p_non_scheme())
}

/// Where the authority of a well-formed `s` starts.
pub open spec fn auth_start(s: Seq<char>) -> int {
    scheme_end(s).unwrap() + 3
}

/// Where the authority of a well-formed `s` ends.
pub open spec fn auth_end(s: Seq<char>) -> int {
    find_idx_or_len(s, auth_start(s), p_auth_end())
}

/// Whether `s` has the URL shape this module accepts.
pub open spec fn url_well_formed(s: Seq<char>) -> bool {
    &&& forall|k: int| 0 <= k < s.len() ==> is_url_char(#[trigger] s[k])
    &&& scheme_end(s) matches Some(k) && k > 0 && k + 3 <= s.len() && s[k] == ':' && s[k + 1]
        == '/' && s[k + 2] == '/'
    &&& auth_end(s) > auth_start(s)
}

/// The host of an authority: userinfo and port stripped.
pub open spec fn host_of_authority(a: Seq<char>) -> Seq<char> {
    let start = match rfind_idx(a, a.len() - 1, p_at()) {
        Some(k) => k + 1,
        None => 0,
    };
    let rest = a.subrange(start, a.len() as int);
    rest.take(find_idx_or_len(rest, 0, p_colon()))
}

/// The host of a well-formed URL.
pub open spec fn url_host(s: Seq<char>) -> Seq<char> {
    host_of_authority(s.subrange(auth_start(s), auth_end(s)))
}

/// The path of a well-formed URL; `/` when the authority is followed by
/// no slash.
pub open spec fn url_path(s: Seq<char>) -> Seq<char> {
    let ae = auth_end(s);
    if ae == s.len() || s[ae] != '/' {
        seq!['/']
    } else {
        s.subrange(ae, find_idx_or_len(s, ae, p_query_or_frag()))
    }
}

/// The query of a well-formed URL, without its leading `?`, if present.
pub open spec fn url_query(s: Seq<char>) -> Option<Seq<char>> {
    let ae = auth_end(s);
    match find_idx(s, ae, p_query_or_frag()) {
        Some(q) => if s[q] == '?' {
            Some(s.subrange(q + 1, find_idx_or_len(s, ae, p_frag())))
        } else {
            None
        },
        None => None,
    }
}

/// The pieces of a URL this library reads.
pub struct UrlParts {
    /// Authority without userinfo and port.
    pub host: Vec<char>,
    /// Path, `/` when absent.
    pub path: Vec<char>,
    /// Query without its leading `?`, absent when there is none.
    pub query: Option<Vec<char>>,
}

impl UrlParts {
    /// The parts agree with the spec-level readers on `s`.
    pub open spec fn agrees_with(&self, s: Seq<char>) -> bool {
        &&& self.host@ == url_host(s)
        &&& self.path@ == url_path(s)
        &&& match self.query {
            Some(q) => url_query(s) == Some(q@),
            None => url_query(s) is None,
        }
    }
}

/// What a successful forward search says about the sequence.
pub proof fn lemma_find_idx_props(s: Seq<char>, i: int, p: spec_fn(char) -> bool)
    requires
        0 <= i,
    ensures
        match find_idx(s, i, p) {
            Some(k) => i <= k < s.len() && p(s[k]) && (forall|m: int|
                i <= m < k ==> !p(s[m])),
            None => forall|m: int| i <= m < s.len() ==> !p(s[m]),
        },
    decreases s.len() - i,
{
    if i < s.len() && !p(s[i]) {
        lemma_find_idx_props(s, i + 1, p);
    }
}

/// The delimiter classes the parser searches for.
#[derive(Clone, Copy)]
pub enum Delim {
    NonScheme,
    AuthEnd,
    QueryOrFrag,
    Frag,
    At,
    Colon,
    Amp,
    Eq,
}

/// The predicate a delimiter class stands for.
pub open spec fn delim_pred(d: Delim) -> spec_fn(char) -> bool {
    match d {
        Delim::NonScheme => p_non_scheme(),
        Delim::AuthEnd => p_auth_end(),
        Delim::QueryOrFrag => p_query_or_frag(),
        Delim::Frag => p_frag(),
        Delim::At => p_at(),
        Delim::Colon => p_colon(),
        Delim::Amp => p_amp(),
        Delim::Eq => p_eq(),
    }
}

/// Tests one character against a delimiter class.
fn delim_match(d: Delim, c: char) -> (r: bool)
    ensures
        r == delim_pred(d)(c),
{
    match d {
        Delim::NonScheme => !(('a' <= c && c <= 'z') || ('A' <= c && c <= 'Z') || ('0' <= c && c
            <= '9') || c == '+' || c == '-' || c == '.'),
        Delim::AuthEnd => c == '/' || c == '?' || c == '#',
        Delim::QueryOrFrag => c == '?' || c == '#',
        Delim::Frag => c == '#',
        Delim::At => c == '@',
        Delim::Colon => c == ':',
        Delim::Amp => c == '&',
        Delim::Eq => c == '=',
    }
}

/// The first position at or after `from` holding a character of class `d`.
pub fn find_first(v: &Vec<char>, from: usize, d: Delim) -> (r: Option<usize>)
    requires
        from <= v@.len(),
    ensures
        match r {
            Some(k) => from <= k < v@.len() && find_idx(v@, from as int, delim_pred(d)) == Some(
                k as int,
            ),
            None => find_idx(v@, from as int, delim_pred(d)) is None,
        },
{
    let mut i = from;
    while i < v.len()
        invariant
            from <= i <= v@.len(),
            find_idx(v@, from as int, delim_pred(d)) == find_idx(v@, i as int, delim_pred(d)),
        decreases v@.len() - i,
    {
        if delim_match(d, v[i]) {
            return Some(i);
        }
        i += 1;
    }
    None
}

/// The last position holding a character of class `d`.
pub fn rfind_last(v: &Vec<char>, d: Delim) -> (r: Option<usize>)
    ensures
        match r {
            Some(k) => k < v@.len() && rfind_idx(v@, v@.len() - 1, delim_pred(d)) == Some(k as int),
            None => rfind_idx(v@, v@.len() - 1, delim_pred(d)) is None,
        },
{
    let mut i = v.len();
    while i > 0
        invariant
            i <= v@.len(),
            rfind_idx(v@, v@.len() - 1, delim_pred(d)) == rfind_idx(v@, i - 1, delim_pred(d)),
        decreases i,
    {
        if delim_match(d, v[i - 1]) {
            return Some(i - 1);
        }
        i -= 1;
    }
    None
}

/// Splits a URL into host, path and query, or rejects it.
pub fn parse_url(v: &Vec<char>) -> (r: Option<UrlParts>)
    ensures
        match r {
            Some(u) => url_well_formed(v@) && u.agrees_with(v@),
            None => !url_well_formed(v@),
        },
{
    // Every character must be printable ASCII.
    let n = v.len();
    for i in 0..n
        invariant
            n == v@.len(),
            forall|k: int| 0 <= k < i ==> is_url_char(#[trigger] v@[k]),
    {
        let c = v[i];
        if !('\u{21}' <= c && c <= '\u{7e}') {
            return None;
        }
    }
    // Scheme, then "://".
    let k = match find_first(v, 0, Delim::NonScheme) {
        Some(k) => k,
        None => {
            return None;
        },
    };
    if k == 0 || v.len() - k < 3 || v[k] != ':' || v[k + 1] != '/' || v[k + 2] != '/' {
        return None;
    }
    let a0 = k + 3;
    // Authority.
    let ae = match find_first(v, a0, Delim::AuthEnd) {
        Some(e) => e,
        None => v.len(),
    };
    if ae == a0 {
        return None;
    }
    assert(url_well_formed(v@));
    // Host: strip userinfo, then the port.
    let auth = crate::text::copy_range(v, a0, ae);
    let hstart = match rfind_last(&auth, Delim::At) {
        Some(j) => j + 1,
        None => 0,
    };
    let rest = crate::text::copy_range(&auth, hstart, auth.len());
    let hend = match find_first(&rest, 0, Delim::Colon) {
        Some(j) => j,
        None => rest.len(),
    };
    let host = crate::text::copy_range(&rest, 0, hend);
    assert(host@ =~= url_host(v@));
    // Path.
    let path: Vec<char> = if ae == v.len() || v[ae] != '/' {
        let mut p: Vec<char> = Vec::new();
        p.push('/');
        p
    } else {
        let pe = match find_first(v, ae, Delim::QueryOrFrag) {
            Some(q) => q,
            None => v.len(),
        };
        crate::text::copy_range(v, ae, pe)
    };
    assert(path@ =~= url_path(v@));
    // Query.
    let query: Option<Vec<char>> = match find_first(v, ae, Delim::QueryOrFrag) {
        Some(q) => {
            if v[q] == '?' {
                let he = match find_first(v, ae, Delim::Frag) {
                    Some(h) => h,
                    None => v.len(),
                };
                proof {
                    lemma_find_idx_props(v@, ae as int, p_query_or_frag());
                    lemma_find_idx_props(v@, ae as int, p_frag());
                }
                assert(q < he);
                Some(crate::text::copy_range(v, q + 1, he))
            } else {
                None
            }
        },
        None => None,
    };
    Some(UrlParts { host, path, query })
}

/// Characters that query encoding passes through unchanged.
pub open spec fn is_unreserved(c: char) -> bool {
    ('a' <= c && c <= 'z') || ('A' <= c && c <= 'Z') || ('0' <= c && c <= '9') || c == '*' || c
        == '-' || c == '.' || c == '_'
}

/// The upper-case hexadecimal digit for a value below sixteen.
pub open spec fn hex_upper(n: int) -> char {
    if n == 0 {
        '0'
    } else if n == 1 {
        '1'
    } else if n == 2 {
        '2'
    } else if n == 3 {
        '3'
    } else if n == 4 {
        '4'
    } else if n == 5 {
        '5'
    } else if n == 6 {
        '6'
    } else if n == 7 {
        '7'
    } else if n == 8 {
        '8'
    } else if n == 9 {
        '9'
    } else if n == 10 {
        'A'
    } else if n == 11 {
        'B'
    } else if n == 12 {
        'C'
    } else if n == 13 {
        'D'
    } else if n == 14 {
        'E'
    } else {
        'F'
    }
}

/// Executable mirror of [`hex_upper`].
pub fn hex_upper_char(n: u32) -> (c: char)
    requires
        n < 16,
    ensures
        c == hex_upper(n as int),
{
    if n == 0 {
        '0'
    } else if n == 1 {
        '1'
    } else if n == 2 {
        '2'
    } else if n == 3 {
        '3'
    } else if n == 4 {
        '4'
    } else if n == 5 {
        '5'
    } else if n == 6 {
        '6'
    } else if n == 7 {
        '7'
    } else if n == 8 {
        '8'
    } else if n == 9 {
        '9'
    } else if n == 10 {
        'A'
    } else if n == 11 {
        'B'
    } else if n == 12 {
        'C'
    } else if n == 13 {
        'D'
    } else if n == 14 {
        'E'
    } else {
        'F'
    }
}

/// Percent-encodes every byte as `%` and two upper-case hex digits.
pub open spec fn encode_pct_bytes(bs: Seq<u8>) -> Seq<char>
    decreases bs.len(),
{
    if bs.len() == 0 {
        Seq::<char>::empty()
    } else {
        seq!['%', hex_upper(bs.first() as int / 16), hex_upper(bs.first() as int % 16)]
            + encode_pct_bytes(bs.drop_first())
    }
}

/// One character under query encoding: unreserved characters pass, a
/// space becomes `+`, everything else is the percent-encoding of its
/// UTF-8 bytes.
pub open spec fn encode_char(c: char) -> Seq<char> {
    if is_unreserved(c) {
        seq![c]
    } else if c == ' ' {
        seq!['+']
    } else {
        encode_pct_bytes(vstd::utf8::encode_utf8(seq![c]))
    }
}

/// A whole string under query encoding.
pub open spec fn form_encoded(s: Seq<char>) -> Seq<char>
    decreases s.len(),
{
    if s.len() == 0 {
        Seq::<char>::empty()
    } else {
        encode_char(s.first()) + form_encoded(s.drop_first())
    }
}

/// Query encoding distributes over appending one character.
pub proof fn lemma_form_encoded_push(s: Seq<char>, c: char)
    ensures
        form_encoded(s + seq![c]) == form_encoded(s) + encode_char(c),
    decreases s.len(),
{
    if s.len() == 0 {
        reveal_with_fuel(form_encoded, 2);
        assert((s + seq![c]).drop_first() =~= Seq::<char>::empty());
        assert((s + seq![c]).first() == c);
        assert(form_encoded(s + seq![c]) =~= form_encoded(s) + encode_char(c));
    } else {
        assert((s + seq![c]).first() == s.first());
        assert((s + seq![c]).drop_first() =~= s.drop_first() + seq![c]);
        lemma_form_encoded_push(s.drop_first(), c);
        assert(form_encoded(s + seq![c]) =~= form_encoded(s) + encode_char(c));
    }
}

/// Applies query encoding to an ASCII character vector.
pub fn form_urlencode(s: &Vec<char>) -> (r: Vec<char>)
    requires
        vstd::utf8::is_ascii_chars(s@),
    ensures
        r@ == form_encoded(s@),
{
    let n = s.len();
    let mut r: Vec<char> = Vec::new();
    for i in 0..n
        invariant
            n == s@.len(),
            vstd::utf8::is_ascii_chars(s@),
            r@ == form_encoded(s@.take(i as int)),
    {
        let c = s[i];
        if ('a' <= c && c <= 'z') || ('A' <= c && c <= 'Z') || ('0' <= c && c <= '9') || c == '*'
            || c == '-' || c == '.' || c == '_' {
            r.push(c);
            assert(encode_char(c) =~= seq![c]);
        } else if c == ' ' {
            r.push('+');
            assert(encode_char(c) =~= seq!['+']);
        } else {
            let u = c as u32;
            proof {
                assert('\0' <= s@[i as int] && s@[i as int] <= '\u{7f}');
                assert(seq![c][0] == c);
                assert(vstd::utf8::is_ascii_chars(seq![c]));
                vstd::utf8::is_ascii_chars_encode_utf8(seq![c]);
                assert(vstd::utf8::encode_utf8(seq![c])[0] == c as u8);
                assert(vstd::utf8::encode_utf8(seq![c]) =~= seq![c as u8]);
            }
            assert(u < 128);
            r.push('%');
            r.push(hex_upper_char(u / 16));
            r.push(hex_upper_char(u % 16));
            proof {
                let b: u8 = c as u8;
                reveal_with_fuel(encode_pct_bytes, 2);
                assert(seq![b].first() == b && seq![b].drop_first() =~= Seq::<u8>::empty());
                assert(encode_pct_bytes(seq![b]) =~= seq![
                    '%',
                    hex_upper(b as int / 16),
                    hex_upper(b as int % 16),
                ]);
                assert(b as int == u as int);
                assert(encode_char(c) =~= seq![
                    '%',
                    hex_upper(u as int / 16),
                    hex_upper(u as int % 16),
                ]);
                assert((u / 16) as int == u as int / 16 && (u % 16) as int == u as int % 16);
            }
        }
        proof {
            lemma_form_encoded_push(s@.take(i as int), c);
            assert(s@.take(i as int) + seq![c] =~= s@.take(i + 1));
        }
    }
    assert(s@.take(n as int) =~= s@);
    r
}

} // verus!
