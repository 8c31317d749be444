//! The tracking shim codec: a third-party telemetry URL becomes a compact
//! opaque token `"{class},{e},{s}"`, where the class identifies one of the
//! three known telemetry endpoints and `e` and `s` are two mandatory query
//! parameters, taken verbatim.

use vstd::prelude::*;

use crate::errors::ProxyError;
use crate::text::{chars_eq_str, chars_of, push_all, string_from_chars};
use crate::url::{
    find_idx, find_idx_or_len, p_amp, p_eq, parse_url, url_path, url_query, url_well_formed, Delim,
    find_first,
};

verus! {

/// The key of one `key=value` query segment (everything before the first
/// `=`, or the whole segment when there is none).
pub open spec fn seg_key(seg: Seq<char>) -> Seq<char> {
    seg.take(find_idx_or_len(seg, 0, p_eq()))
}

/// The value of one query segment (everything after the first `=`, empty
/// when there is none).
pub open spec fn seg_value(seg: Seq<char>) -> Seq<char> {
    match find_idx(seg, 0, p_eq()) {
        Some(k) => seg.subrange(k + 1, seg.len() as int),
        None => Seq::<char>::empty(),
    }
}

/// The value of the first `&`-separated query segment whose key is
/// `name`, if any.
pub open spec fn query_lookup(q: Seq<char>, name: Seq<char>) -> Option<Seq<char>>
    decreases q.len(),
{
    let e = find_idx_or_len(q, 0, p_amp());
    if seg_key(q.take(e)) == name {
        Some(seg_value(q.take(e)))
    } else if e < 0 || e >= q.len() {
        None
    } else {
        query_lookup(q.subrange(e + 1, q.len() as int), name)
    }
}

/// Looks up the first query parameter named `name`.
pub fn query_param(q: &Vec<char>, name: &str) -> (r: Option<Vec<char>>)
    ensures
        match r {
            Some(v) => query_lookup(q@, name@) == Some(v@),
            None => query_lookup(q@, name@) is None,
        },
{
    let mut rest = crate::text::copy_range(q, 0, q.len());
    assert(rest@ =~= q@);
    loop
        invariant
            query_lookup(q@, name@) == query_lookup(rest@, name@),
        decreases rest@.len(),
    {
        let e = find_first(&rest, 0, Delim::Amp);
        let seg_end = match e {
            Some(k) => k,
            None => rest.len(),
        };
        let seg = crate::text::copy_range(&rest, 0, seg_end);
        let key_end = match find_first(&seg, 0, Delim::Eq) {
            Some(k) => k,
            None => seg.len(),
        };
        let key = crate::text::copy_range(&seg, 0, key_end);
        if chars_eq_str(key.as_slice(), name) {
            let value = if key_end < seg.len() {
                crate::text::copy_range(&seg, key_end + 1, seg.len())
            } else {
                Vec::<char>::new()
            };
            assert(value@ == seg_value(seg@));
            return Some(value);
        }
        match e {
            Some(k) => {
                let rl = rest.len();
                let next = crate::text::copy_range(&rest, k + 1, rl);
                assert(next@ == rest@.subrange(k + 1, rest@.len() as int));
                rest = next;
            },
            None => {
                return None;
            },
        }
    }
}

/// The class character for a known telemetry path.
pub open spec fn shim_class(p: Seq<char>) -> Option<char> {
    if p == "/r"@ {
        Some('0')
    } else if p == "/i.gif"@ {
        Some('1')
    } else if p == "/e.gif"@ {
        Some('2')
    } else {
        None
    }
}

/// The shim token for a telemetry URL: its class, then the `e` and `s`
/// query parameters, comma-separated. Absent when the URL is not
/// well-formed, its path is not a telemetry endpoint, or a parameter is
/// missing.
pub open spec fn shim_token(s: Seq<char>) -> Option<Seq<char>> {
    if !url_well_formed(s) {
        None
    } else {
        match shim_class(url_path(s)) {
            Some(cls) => {
                let q = match url_query(s) {
                    Some(q) => q,
                    None => Seq::<char>::empty(),
                };
                match query_lookup(q, "e"@) {
                    Some(e) => match query_lookup(q, "s"@) {
                        Some(v) => Some(seq![cls, ','] + e + seq![','] + v),
                        None => None,
                    },
                    None => None,
                }
            },
            None => None,
        }
    }
}

/// Encodes one telemetry URL into its shim token.
pub fn tracking_url_to_shim(url: &str) -> (r: Result<String, ProxyError>)
    ensures
        r is Ok <==> shim_token(url@) is Some,
        r matches Ok(t) ==> shim_token(url@) == Some(t@),
{
    let chars = chars_of(url);
    let parts = match parse_url(&chars) {
        Some(p) => p,
        None => {
            return Err(ProxyError::new("invalid tracking url"));
        },
    };
    let cls: char = if chars_eq_str(parts.path.as_slice(), "/r") {
        '0'
    } else if chars_eq_str(parts.path.as_slice(), "/i.gif") {
        '1'
    } else if chars_eq_str(parts.path.as_slice(), "/e.gif") {
        '2'
    } else {
        return Err(ProxyError::new("unknown telemetry path"));
    };
    let q: Vec<char> = match parts.query {
        Some(q) => q,
        None => Vec::<char>::new(),
    };
    let e = match query_param(&q, "e") {
        Some(e) => e,
        None => {
            return Err(ProxyError::new("missing telemetry parameter e"));
        },
    };
    let s = match query_param(&q, "s") {
        Some(s) => s,
        None => {
            return Err(ProxyError::new("missing telemetry parameter s"));
        },
    };
    let mut token: Vec<char> = Vec::new();
    token.push(cls);
    token.push(',');
    push_all(&mut token, &e);
    token.push(',');
    push_all(&mut token, &s);
    assert(token@ =~= seq![cls, ','] + e@ + seq![','] + s@);
    Ok(string_from_chars(&token))
}

} // verus!
