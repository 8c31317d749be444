//! Small pure normalizers for loosely-typed upstream fields: priority
//! codes, boolean-like video flags, sponsor-override strings and the
//! sponsor context line. Anomalies in these cosmetic fields are never
//! errors; each has a defined fallback.

use vstd::prelude::*;

use crate::defaults::PRIORITY;
use crate::text::{chars_of, eq_ignore_ascii_case, is_ws_char, lemma_trim_ws_all_ws,
    lemma_trim_ws_range, range_eq_ignore_case, trim_ws, ws_char};

verus! {

/// The client-facing priority rank for an upstream priority code: five
/// known codes map to fixed ranks, everything else (including an absent
/// code) maps to the fallback rank.
pub open spec fn priority_rank(priority_id: Option<u32>) -> u32 {
    match priority_id {
        Some(id) => if id == 147517 {
            1u32
        } else if id == 180843 {
            2u32
        } else if id == 147518 {
            3u32
        } else if id == 160722 {
            9u32
        } else if id == 147520 {
            10u32
        } else {
            PRIORITY
        },
        None => PRIORITY,
    }
}

/// Maps an upstream priority code to its client rank.
pub fn map_priority(priority_id: Option<u32>) -> (r: u32)
    ensures
        r == priority_rank(priority_id),
{
    match priority_id {
        Some(id) => {
            if id == 147517 {
                1
            } else if id == 180843 {
                2
            } else if id == 147518 {
                3
            } else if id == 160722 {
                9
            } else if id == 147520 {
                10
            } else {
                PRIORITY
            }
        },
        None => PRIORITY,
    }
}

/// Words read as `true`, after trimming and lowercasing.
pub open spec fn is_truthy_word(t: Seq<char>) -> bool {
    ||| eq_ignore_ascii_case(t, "y"@)
    ||| eq_ignore_ascii_case(t, "yes"@)
    ||| eq_ignore_ascii_case(t, "t"@)
    ||| eq_ignore_ascii_case(t, "true"@)
    ||| eq_ignore_ascii_case(t, "on"@)
    ||| eq_ignore_ascii_case(t, "1"@)
}

/// Words read as `false`, after trimming and lowercasing.
pub open spec fn is_falsy_word(t: Seq<char>) -> bool {
    ||| eq_ignore_ascii_case(t, "n"@)
    ||| eq_ignore_ascii_case(t, "no"@)
    ||| eq_ignore_ascii_case(t, "f"@)
    ||| eq_ignore_ascii_case(t, "false"@)
    ||| eq_ignore_ascii_case(t, "off"@)
    ||| eq_ignore_ascii_case(t, "0"@)
}

/// What a loosely-formatted video flag means: a truthy word is `true`, a
/// falsy word is `false`, anything else is dropped.
pub open spec fn video_flag(s: Seq<char>) -> Option<bool> {
    if is_truthy_word(trim_ws(s)) {
        Some(true)
    } else if is_falsy_word(trim_ws(s)) {
        Some(false)
    } else {
        None
    }
}

/// The bounds of the whitespace-trimmed middle of `v`.
fn trim_bounds(v: &Vec<char>) -> (r: (usize, usize))
    ensures
        ({
            let (i, j) = r;
            i <= j <= v@.len() && trim_ws(v@) == v@.subrange(i as int, j as int)
        }),
{
    let n = v.len();
    let mut i: usize = 0;
    while i < n && ws_char(v[i])
        invariant
            i <= n == v@.len(),
            forall|k: int| 0 <= k < i ==> is_ws_char(v@[k]),
        decreases n - i,
    {
        i += 1;
    }
    if i == n {
        proof {
            lemma_trim_ws_all_ws(v@);
            assert(v@.subrange(n as int, n as int) =~= Seq::<char>::empty());
        }
        return (n, n);
    }
    let mut j: usize = n;
    while j > i && ws_char(v[j - 1])
        invariant
            i <= j <= n == v@.len(),
            !is_ws_char(v@[i as int]),
            forall|k: int| j <= k < n ==> is_ws_char(v@[k]),
        decreases j,
    {
        j -= 1;
    }
    proof {
        lemma_trim_ws_range(v@, i as int, j as int);
    }
    (i, j)
}

/// Parses the optional video flag; an absent or ambiguous value stays
/// absent.
pub fn get_is_video(is_video: Option<String>) -> (r: Option<bool>)
    ensures
        r == match is_video {
            Some(s) => video_flag(s@),
            None => None::<bool>,
        },
{
    let s = match is_video {
        Some(s) => s,
        None => {
            return None;
        },
    };
    let v = chars_of(s.as_str());
    let (i, j) = trim_bounds(&v);
    if range_eq_ignore_case(&v, i, j, "y") || range_eq_ignore_case(&v, i, j, "yes")
        || range_eq_ignore_case(&v, i, j, "t") || range_eq_ignore_case(&v, i, j, "true")
        || range_eq_ignore_case(&v, i, j, "on") || range_eq_ignore_case(&v, i, j, "1") {
        Some(true)
    } else if range_eq_ignore_case(&v, i, j, "n") || range_eq_ignore_case(&v, i, j, "no")
        || range_eq_ignore_case(&v, i, j, "f") || range_eq_ignore_case(&v, i, j, "false")
        || range_eq_ignore_case(&v, i, j, "off") || range_eq_ignore_case(&v, i, j, "0") {
        Some(false)
    } else {
        None
    }
}

/// Whether a sponsor-override string is a placeholder: exactly `blank` or
/// `empty`, any ASCII case, surrounding whitespace allowed.
pub open spec fn is_blank_override(s: Seq<char>) -> bool {
    eq_ignore_ascii_case(trim_ws(s), "blank"@) || eq_ignore_ascii_case(trim_ws(s), "empty"@)
}

/// Replaces a placeholder sponsor override by the empty string; any other
/// value passes through unchanged.
pub fn clean_sponsored_by_override(sponsored_by_override: String) -> (r: String)
    ensures
        r@ == if is_blank_override(sponsored_by_override@) {
            Seq::<char>::empty()
        } else {
            sponsored_by_override@
        },
{
    let v = chars_of(sponsored_by_override.as_str());
    let (i, j) = trim_bounds(&v);
    if range_eq_ignore_case(&v, i, j, "blank") || range_eq_ignore_case(&v, i, j, "empty") {
        String::new()
    } else {
        sponsored_by_override
    }
}

/// The context line shown beside a sponsored item: `Sponsored by {name}`,
/// or empty when no sponsor is named.
pub open spec fn context_string(sponsor: Option<Seq<char>>) -> Seq<char> {
    match sponsor {
        Some(s) => "Sponsored by "@ + s,
        None => Seq::<char>::empty(),
    }
}

/// Builds the context line for an optional sponsor name.
pub fn format_context(sponsor: Option<&str>) -> (r: String)
    ensures
        r@ == context_string(
            match sponsor {
                Some(s) => Some(s@),
                None => None::<Seq<char>>,
            },
        ),
{
    match sponsor {
        Some(s) => {
            let mut r = String::from_str("Sponsored by ");
            r.append(s);
            r
        },
        None => String::new(),
    }
}

} // verus!
