//! Image URL validation and rewriting: a full-image path must live on the
//! known ad CDN; it is then replaced by a link to the proxy's own image
//! endpoint, carrying the original URL and a fixed resize parameter in the
//! query string.

use vstd::prelude::*;

use crate::errors::ProxyError;
use crate::text::{chars_eq_str, chars_of, range_eq_str};
use crate::url::{form_encoded, form_urlencode, is_url_char, parse_url, url_host, url_well_formed};

verus! {

/// The host is the ad CDN domain itself or one of its subdomains.
pub open spec fn cdn_host_ok(h: Seq<char>) -> bool {
    h == "zkcdn.net"@ || (h.len() >= ".zkcdn.net"@.len() && h.skip(
        h.len() - ".zkcdn.net"@.len(),
    ) == ".zkcdn.net"@)
}

/// Whether a full-image path is accepted: a well-formed URL whose host is
/// on the ad CDN.
pub open spec fn cdn_image_ok(s: Seq<char>) -> bool {
    url_well_formed(s) && cdn_host_ok(url_host(s))
}

/// The rewritten image URL: the proxy's image endpoint with the original
/// URL query-encoded and a fixed resize parameter.
pub open spec fn cdn_image_url(s: Seq<char>) -> Seq<char> {
    "https://img-getpocket.cdn.mozilla.net/direct?url="@ + form_encoded(s) + "&resize=w618-h310"@
}

/// Tests a host against the ad CDN domain.
fn is_cdn_host(h: &Vec<char>) -> (r: bool)
    ensures
        r == cdn_host_ok(h@),
{
    if chars_eq_str(h.as_slice(), "zkcdn.net") {
        return true;
    }
    let suffix = ".zkcdn.net";
    let sl = suffix.unicode_len();
    if h.len() >= sl {
        let from = h.len() - sl;
        let r = range_eq_str(h, from, h.len(), suffix);
        assert(h@.subrange(from as int, h@.len() as int) =~= h@.skip(
            h@.len() - suffix@.len(),
        ));
        r
    } else {
        false
    }
}

/// Validates a full-image path against the ad CDN and rewrites it to the
/// proxy's image endpoint.
pub fn get_cdn_image(full_image_path: &str) -> (r: Result<String, ProxyError>)
    ensures
        r is Ok <==> cdn_image_ok(full_image_path@),
        r matches Ok(u) ==> u@ == cdn_image_url(full_image_path@),
{
    let chars = chars_of(full_image_path);
    let parts = match parse_url(&chars) {
        Some(p) => p,
        None => {
            return Err(ProxyError::new("invalid image url"));
        },
    };
    if !is_cdn_host(&parts.host) {
        return Err(ProxyError::new("image url not on the ad cdn"));
    }
    proof {
        assert forall|k: int| 0 <= k < chars@.len() implies '\0' <= #[trigger] chars@[k]
            && chars@[k] <= '\u{7f}' by {
            assert(is_url_char(chars@[k]));
        }
        assert(vstd::utf8::is_ascii_chars(chars@));
    }
    let encoded = form_urlencode(&chars);
    let mut out = String::from_str("https://img-getpocket.cdn.mozilla.net/direct?url=");
    let enc = crate::text::string_from_chars(&encoded);
    out.append(enc.as_str());
    out.append("&resize=w618-h310");
    Ok(out)
}

} // verus!
