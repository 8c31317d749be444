//! The client-facing schema: the inbound sponsored-content request and
//! the outbound response types, plus the boundary checks that run before
//! the transformation engine (pocket-id validation, geolocation
//! enrichment).

use vstd::prelude::*;

use crate::defaults::Caps;
use crate::errors::ProxyError;

verus! {

/// An inbound sponsored-content request.
pub struct SpocsRequest {
    pub version: u32,
    pub consumer_key: String,
    /// Must be UUID-shaped; validated at the boundary, before the
    /// request builder runs.
    pub pocket_id: String,
    pub site: Option<u32>,
    pub placements: Vec<Placement>,
    pub country: Option<String>,
    pub region: Option<String>,
}

/// One requested ad slot.
pub struct Placement {
    pub name: String,
    pub zone_ids: Vec<u32>,
    pub ad_types: Vec<u32>,
    /// Requested count; unused, the resolved count always comes from the
    /// defaults.
    pub count: Option<u32>,
}

/// The four tracking tokens attached to one outgoing item.
pub struct Shim {
    pub click: String,
    pub impression: String,
    pub delete: String,
    pub save: String,
}

/// One client-facing sponsored-content item.
pub struct Spoc {
    pub id: u32,
    pub flight_id: u32,
    pub campaign_id: u32,
    pub title: String,
    pub url: String,
    pub domain: String,
    pub excerpt: String,
    pub priority: u32,
    pub context: String,
    pub raw_image_src: String,
    pub image_src: String,
    pub shim: Shim,
    pub parameter_set: String,
    pub caps: Caps,
    pub domain_affinities: Vec<(String, u32)>,
    pub personalization_models: Vec<(String, u32)>,
    /// Raw upstream minimum score, a numeric string; absent or malformed
    /// values fall back to a fixed default at the serialization boundary.
    pub min_score_raw: Option<String>,
    /// Raw upstream item score; same treatment as the minimum score.
    pub item_score_raw: Option<String>,
    pub cta: Option<String>,
    pub collection_title: Option<String>,
    pub sponsor: Option<String>,
    pub sponsored_by_override: Option<String>,
    pub is_video: Option<bool>,
}

/// One placement slot's output: a flat list, or a titled collection.
pub enum SpocsList {
    Standard(Vec<Spoc>),
    Collection(Collection),
}

/// A grouped presentation of several items under one title and sponsor.
pub struct Collection {
    pub title: String,
    pub flight_id: u32,
    pub sponsor: Option<String>,
    pub context: String,
    pub items: Vec<Spoc>,
}

/// The outbound response: the shared settings blob and one list per
/// placement slot.
pub struct SpocsResponse {
    pub settings: String,
    pub divs: Vec<(String, SpocsList)>,
}

/// What geolocation knows about the caller.
pub struct ClientLocation {
    pub country: Option<String>,
    pub region: Option<String>,
}

/// Relies on `uuid::Uuid::parse_str`: accepts the simple, hyphenated,
/// urn and braced hexadecimal UUID forms; the verdict depends on the
/// characters alone.
#[verifier::external_body]
fn parse_uuid_ok(s: &str) -> (r: bool)
    ensures
        r == uuid_parse_ok(s@),
{
    uuid::Uuid::parse_str(s).is_ok()
}

/// Whether a string is UUID-shaped, as the identifier parser decides it.
pub uninterp spec fn uuid_parse_ok(s: Seq<char>) -> bool;

impl SpocsRequest {
    /// Rejects a request whose pocket identifier is not UUID-shaped.
    pub fn validate_pocket_id(&self) -> (r: Result<(), ProxyError>)
        ensures
            r is Ok <==> uuid_parse_ok(self.pocket_id@),
    {
        if parse_uuid_ok(self.pocket_id.as_str()) {
            Ok(())
        } else {
            Err(ProxyError::new("pocket_id is not a valid uuid"))
        }
    }

    /// Fills country and region from the caller's location when the
    /// request carries no country of its own; a request with a country
    /// is left untouched.
    pub fn apply_location(&mut self, location: ClientLocation)
        ensures
            final(self).version == old(self).version,
            final(self).consumer_key == old(self).consumer_key,
            final(self).pocket_id == old(self).pocket_id,
            final(self).site == old(self).site,
            final(self).placements == old(self).placements,
            old(self).country is Some ==> final(self).country == old(self).country
                && final(self).region == old(self).region,
            old(self).country is None ==> final(self).country == location.country
                && final(self).region == location.region,
    {
        if self.country.is_none() {
            self.country = location.country;
            self.region = location.region;
        }
    }
}

} // verus!
