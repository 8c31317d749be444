//! The request builder: an inbound sponsored-content request becomes the
//! upstream decision request — targeting keywords derived from country and
//! region, and one resolved placement per requested slot (or the single
//! default placement when none was requested).

use vstd::prelude::*;

use crate::spocs;

verus! {

/// The user key attached to a delete-user call, serialized at the HTTP
/// boundary.
pub struct UserKey<'a> {
    pub user_key: &'a str,
}

/// The user attached to a decision request.
pub struct User {
    pub key: String,
}

/// One resolved placement of the outbound decision request.
pub struct Placement {
    pub div_name: String,
    pub network_id: u32,
    pub site_id: u32,
    pub ad_types: Vec<u32>,
    pub zone_ids: Vec<u32>,
    pub count: u32,
    pub event_ids: Vec<u32>,
}

/// The placement the defaults prescribe for a network.
pub open spec fn is_default_placement(p: Placement, network_id: u32) -> bool {
    &&& p.div_name@ == "spocs"@
    &&& p.network_id == network_id
    &&& p.site_id == 1070098
    &&& p.ad_types@ == seq![2401u32, 3617u32]
    &&& p.zone_ids@ == seq![217995u32]
    &&& p.count == 10
    &&& p.event_ids@ == seq![17u32, 20u32]
}

/// How a requested placement resolves against the defaults: a non-empty
/// ad-type or zone list overrides the default list, a supplied site id
/// overrides the default site, and the requested name always becomes the
/// div name.
pub open spec fn resolves(r: Placement, q: spocs::Placement, network_id: u32, site: Option<
    u32,
>) -> bool {
    &&& r.div_name@ == q.name@
    &&& r.network_id == network_id
    &&& r.site_id == (match site {
        Some(s) => s,
        None => 1070098u32,
    })
    &&& r.ad_types@ == (if q.ad_types@.len() > 0 {
        q.ad_types@
    } else {
        seq![2401u32, 3617u32]
    })
    &&& r.zone_ids@ == (if q.zone_ids@.len() > 0 {
        q.zone_ids@
    } else {
        seq![217995u32]
    })
    &&& r.count == 10
    &&& r.event_ids@ == seq![17u32, 20u32]
}

impl Placement {
    /// The default placement for a network.
    pub fn new(network_id: u32) -> (r: Self)
        ensures
            is_default_placement(r, network_id),
    {
        let mut ad_types: Vec<u32> = Vec::new();
        ad_types.push(2401);
        ad_types.push(3617);
        let mut zone_ids: Vec<u32> = Vec::new();
        zone_ids.push(217995);
        let mut event_ids: Vec<u32> = Vec::new();
        event_ids.push(17);
        event_ids.push(20);
        let r = Placement {
            div_name: String::from_str("spocs"),
            network_id,
            site_id: 1070098,
            ad_types,
            zone_ids,
            count: 10,
            event_ids,
        };
        assert(r.ad_types@ =~= seq![2401u32, 3617u32]);
        assert(r.zone_ids@ =~= seq![217995u32]);
        assert(r.event_ids@ =~= seq![17u32, 20u32]);
        r
    }

    /// Resolves one requested placement against the defaults.
    pub fn from_spoc_placement(placement: spocs::Placement, network_id: u32, site: Option<
        u32,
    >) -> (r: Self)
        ensures
            resolves(r, placement, network_id, site),
    {
        let mut result = Placement::new(network_id);
        if placement.ad_types.len() > 0 {
            result.ad_types = placement.ad_types;
        }
        if placement.zone_ids.len() > 0 {
            result.zone_ids = placement.zone_ids;
        }
        if let Some(site) = site {
            result.site_id = site;
        }
        result.div_name = placement.name;
        result
    }
}

impl Default for Placement {
    /// The default placement on the configured network.
    fn default() -> (r: Self)
        ensures
            is_default_placement(r, crate::defaults::NETWORK_ID),
    {
        Placement::new(crate::defaults::NETWORK_ID)
    }
}

/// The outbound decision request.
pub struct DecisionRequest {
    pub placements: Vec<Placement>,
    pub user: User,
    pub keywords: Vec<String>,
}

/// The views of a list of keyword strings.
pub open spec fn keyword_views(ks: Seq<String>) -> Seq<Seq<char>> {
    ks.map_values(|k: String| k@)
}

/// The targeting keywords derived from country and region: the country,
/// then `{country}-{region}`; nothing without a country.
pub open spec fn keywords_for(country: Option<String>, region: Option<String>) -> Seq<Seq<char>> {
    match country {
        None => Seq::<Seq<char>>::empty(),
        Some(c) => match region {
            None => seq![c@],
            Some(g) => seq![c@, c@ + "-"@ + g@],
        },
    }
}

impl DecisionRequest {
    /// Builds the outbound decision request: the pocket identifier as the
    /// user key, keywords from country and region, and resolved
    /// placements (exactly one default placement when none was
    /// requested).
    pub fn from_spocs_request(spoc: spocs::SpocsRequest, network_id: u32) -> (r: Self)
        ensures
            r.user.key@ == spoc.pocket_id@,
            keyword_views(r.keywords@) == keywords_for(spoc.country, spoc.region),
            spoc.placements@.len() == 0 ==> r.placements@.len() == 1 && is_default_placement(
                r.placements@[0],
                network_id,
            ),
            spoc.placements@.len() > 0 ==> r.placements@.len() == spoc.placements@.len() && (forall|
                i: int,
            |
                0 <= i < r.placements@.len() ==> resolves(
                    #[trigger] r.placements@[i],
                    spoc.placements@[i],
                    network_id,
                    spoc.site,
                )),
    {
        let spocs::SpocsRequest { pocket_id, site, placements: requested, country, region, .. } =
            spoc;
        let user = User { key: pocket_id };

        let mut keywords: Vec<String> = Vec::new();
        match country {
            None => {
                assert(keyword_views(keywords@) =~= keywords_for(spoc.country, spoc.region));
            },
            Some(c) => {
                match region {
                    None => {
                        keywords.push(c);
                        assert(keyword_views(keywords@) =~= keywords_for(
                            spoc.country,
                            spoc.region,
                        ));
                    },
                    Some(g) => {
                        let mut combined = c.clone();
                        combined.append("-");
                        combined.append(g.as_str());
                        keywords.push(c);
                        keywords.push(combined);
                        assert(keyword_views(keywords@) =~= keywords_for(
                            spoc.country,
                            spoc.region,
                        ));
                    },
                }
            },
        }

        let mut placements: Vec<Placement> = Vec::new();
        if requested.len() == 0 {
            placements.push(Placement::new(network_id));
        } else {
            let mut rest = requested;
            while rest.len() > 0
                invariant
                    site == spoc.site,
                    rest@ == spoc.placements@.skip(placements@.len() as int),
                    placements@.len() + rest@.len() == spoc.placements@.len(),
                    forall|i: int|
                        0 <= i < placements@.len() ==> resolves(
                            #[trigger] placements@[i],
                            spoc.placements@[i],
                            network_id,
                            site,
                        ),
                decreases rest@.len(),
            {
                let ghost j = placements@.len() as int;
                let p = rest.remove(0);
                assert(p == spoc.placements@[j]);
                placements.push(Placement::from_spoc_placement(p, network_id, site));
                assert(rest@ =~= spoc.placements@.skip(j + 1));
            }
        }

        DecisionRequest { placements, user, keywords }
    }
}

} // verus!
