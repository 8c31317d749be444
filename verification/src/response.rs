//! The response normalizer: one upstream decision becomes one
//! client-facing item, composing the shim codec, the image rewriter and
//! the field normalizers; per-slot lists are then grouped into a flat
//! list or a titled collection. A single malformed item fails the whole
//! response — partial ad responses are not served.

use vstd::prelude::*;

use crate::defaults::{copy_affinities, get_domain_affinities, EVENT_ID_DELETE, EVENT_ID_SAVE,
    StaticConfig};
use crate::errors::ProxyError;
use crate::image::{cdn_image_ok, cdn_image_url, get_cdn_image};
use crate::normalize::{clean_sponsored_by_override, context_string, format_context, get_is_video,
    is_blank_override, map_priority, priority_rank, video_flag};
use crate::personalization::{get_personalization_models, json_object_entries, models_of,
    models_view};
use crate::shim::{shim_token, tracking_url_to_shim};
use crate::spocs::{Collection, Spoc, SpocsList, SpocsResponse};
use crate::text::opt_view;

verus! {

/// The upstream decision response: per placement slot, an optional list
/// of decisions. A missing or explicitly absent list means no decisions
/// for that slot, never an error.
pub struct DecisionResponse {
    pub decisions: Vec<(String, Option<Vec<Decision>>)>,
}

/// One upstream ad decision.
pub struct Decision {
    pub ad_id: u32,
    pub flight_id: u32,
    pub campaign_id: u32,
    pub priority_id: Option<u32>,
    pub click_url: String,
    /// The upstream schema fixes exactly one content element; any other
    /// count is a contract violation surfaced as an error.
    pub contents: Vec<Content>,
    pub impression_url: String,
    pub events: Vec<Event>,
}

/// The content element of a decision: its custom fields and an optional
/// opaque JSON body carrying personalization topic flags.
pub struct Content {
    pub data: Data,
    pub body: Option<String>,
}

/// The custom fields of a content element.
pub struct Data {
    pub ct_title: String,
    pub ct_url: String,
    pub ct_domain: String,
    pub ct_excerpt: String,
    pub ct_sponsor: Option<String>,
    pub ct_fullimagepath: String,
    pub ct_min_score: Option<String>,
    pub ct_item_score: Option<String>,
    pub ct_domain_affinities: Option<String>,
    pub ct_cta: Option<String>,
    pub ct_collection_title: Option<String>,
    pub ct_is_video: Option<String>,
    pub ct_sponsored_by_override: Option<String>,
}

/// One tracking event of a decision: an event id and its telemetry URL.
pub struct Event {
    pub id: u32,
    pub url: String,
}

/// The map described by a list of pairs inserted left to right: a later
/// pair with the same id wins.
pub open spec fn pairs_map(s: Seq<(u32, String)>) -> Map<u32, Seq<char>>
    decreases s.len(),
{
    if s.len() == 0 {
        Map::<u32, Seq<char>>::empty()
    } else {
        pairs_map(s.drop_last()).insert(s.last().0, s.last().1@)
    }
}

/// The pairs of `s` whose id differs from `id`, order kept.
pub open spec fn retain_other(s: Seq<(u32, String)>, id: u32) -> Seq<(u32, String)>
    decreases s.len(),
{
    if s.len() == 0 {
        s
    } else if s.last().0 == id {
        retain_other(s.drop_last(), id)
    } else {
        retain_other(s.drop_last(), id).push(s.last())
    }
}

/// The shim of the last pair carrying `id`, if any.
pub open spec fn last_value(s: Seq<(u32, String)>, id: u32) -> Option<Seq<char>>
    decreases s.len(),
{
    if s.len() == 0 {
        None
    } else if s.last().0 == id {
        Some(s.last().1@)
    } else {
        last_value(s.drop_last(), id)
    }
}

/// Dropping every pair carrying `id` removes exactly that key, and the
/// last pair carrying `id` holds the key's value.
pub proof fn lemma_pairs_map_remove(s: Seq<(u32, String)>, id: u32)
    ensures
        pairs_map(retain_other(s, id)) == pairs_map(s).remove(id),
        pairs_map(s).contains_key(id) <==> last_value(s, id) is Some,
        last_value(s, id) matches Some(v) ==> pairs_map(s)[id] == v,
    decreases s.len(),
{
    if s.len() == 0 {
        assert(pairs_map(retain_other(s, id)) =~= pairs_map(s).remove(id));
    } else {
        lemma_pairs_map_remove(s.drop_last(), id);
        if s.last().0 == id {
            assert(pairs_map(s).remove(id) =~= pairs_map(s.drop_last()).remove(id));
        } else {
            assert(retain_other(s, id).drop_last() =~= retain_other(s.drop_last(), id));
            assert(retain_other(s, id).last() == s.last());
            assert(pairs_map(s).remove(id) =~= pairs_map(s.drop_last()).remove(id).insert(
                s.last().0,
                s.last().1@,
            ));
        }
    }
}

/// The map of shims described by a list of tracking events: each event's
/// URL encoded, a later event with the same id winning.
pub open spec fn events_map_of(events: Seq<Event>) -> Map<u32, Seq<char>>
    decreases events.len(),
{
    if events.len() == 0 {
        Map::<u32, Seq<char>>::empty()
    } else {
        events_map_of(events.drop_last()).insert(
            events.last().id,
            shim_token(events.last().url@)->Some_0,
        )
    }
}

/// The tracking events of a decision, each URL already encoded into its
/// shim, keyed by event id.
pub struct EventsMap {
    map: Vec<(u32, String)>,
}

impl View for EventsMap {
    type V = Map<u32, Seq<char>>;

    closed spec fn view(&self) -> Map<u32, Seq<char>> {
        pairs_map(self.map@)
    }
}

impl EventsMap {
    /// Encodes every event URL; one URL outside the telemetry shape fails
    /// the whole list.
    pub fn new(events: Vec<Event>) -> (r: Result<Self, ProxyError>)
        ensures
            r is Ok <==> (forall|i: int|
                0 <= i < events@.len() ==> shim_token(#[trigger] events@[i].url@) is Some),
            r matches Ok(m) ==> m@ == events_map_of(events@),
    {
        let mut map: Vec<(u32, String)> = Vec::new();
        let n = events.len();
        assert(pairs_map(map@) =~= events_map_of(events@.take(0)));
        for i in 0..n
            invariant
                n == events@.len(),
                forall|k: int| 0 <= k < i ==> shim_token(#[trigger] events@[k].url@) is Some,
                pairs_map(map@) == events_map_of(events@.take(i as int)),
        {
            let token = match tracking_url_to_shim(events[i].url.as_str()) {
                Ok(t) => t,
                Err(e) => {
                    return Err(e);
                },
            };
            let ghost m0 = map@;
            map.push((events[i].id, token));
            proof {
                assert(events@.take(i + 1).drop_last() =~= events@.take(i as int));
                assert(events@.take(i + 1).last() == events@[i as int]);
                assert(map@.drop_last() =~= m0);
                assert(map@.last() == (events@[i as int].id, token));
                assert(pairs_map(map@) =~= events_map_of(events@.take(i + 1)));
            }
        }
        assert(events@.take(n as int) =~= events@);
        Ok(EventsMap { map })
    }

    /// Hands out and removes the shim stored under an event id; a missing
    /// id is an error and leaves the map unchanged.
    pub fn remove(&mut self, event_id: u32) -> (r: Result<String, ProxyError>)
        ensures
            r is Ok <==> old(self)@.contains_key(event_id),
            r matches Ok(v) ==> v@ == old(self)@[event_id] && final(self)@ == old(self)@.remove(
                event_id,
            ),
            r is Err ==> final(self)@ == old(self)@,
    {
        let mut kept: Vec<(u32, String)> = Vec::new();
        let mut found: Option<String> = None;
        let n = self.map.len();
        assert(kept@ =~= retain_other(self.map@.take(0), event_id));
        for i in 0..n
            invariant
                n == self.map@.len(),
                kept@ == retain_other(self.map@.take(i as int), event_id),
                found matches Some(v) ==> last_value(self.map@.take(i as int), event_id) == Some(
                    v@,
                ),
                found is None ==> last_value(self.map@.take(i as int), event_id) is None,
        {
            let id = self.map[i].0;
            let v = self.map[i].1.clone();
            assert(v == self.map@[i as int].1);
            proof {
                assert(self.map@.take(i + 1).drop_last() =~= self.map@.take(i as int));
                assert(self.map@.take(i + 1).last() == self.map@[i as int]);
            }
            if id == event_id {
                found = Some(v);
            } else {
                kept.push((id, v));
                assert(kept@ =~= retain_other(self.map@.take(i + 1), event_id));
            }
        }
        assert(self.map@.take(n as int) =~= self.map@);
        proof {
            lemma_pairs_map_remove(self.map@, event_id);
        }
        match found {
            Some(v) => {
                self.map = kept;
                Ok(v)
            },
            None => Err(ProxyError::new("missing mandatory tracking event")),
        }
    }
}

/// Whether one decision can be normalized: exactly one content element,
/// encodable click, impression and event URLs, the two mandatory event
/// ids present, an image on the ad CDN, and a personalization body that
/// is a JSON object when present.
pub open spec fn decision_ok(d: Decision) -> bool {
    &&& d.contents@.len() == 1
    &&& shim_token(d.click_url@) is Some
    &&& shim_token(d.impression_url@) is Some
    &&& forall|i: int| 0 <= i < d.events@.len() ==> shim_token((#[trigger] d.events@[i]).url@) is Some
    &&& events_map_of(d.events@).contains_key(EVENT_ID_DELETE)
    &&& events_map_of(d.events@).contains_key(EVENT_ID_SAVE)
    &&& cdn_image_ok(d.contents@[0].data.ct_fullimagepath@)
    &&& (d.contents@[0].body matches Some(b) ==> json_object_entries(b@) is Some)
}

/// How a normalized item relates to the decision it came from.
pub open spec fn normalized_spoc(s: Spoc, d: Decision, config: StaticConfig) -> bool {
    let data = d.contents@[0].data;
    &&& s.id == d.ad_id
    &&& s.flight_id == d.flight_id
    &&& s.campaign_id == d.campaign_id
    &&& s.title == data.ct_title
    &&& s.url == data.ct_url
    &&& s.domain == data.ct_domain
    &&& s.excerpt == data.ct_excerpt
    &&& s.priority == priority_rank(d.priority_id)
    &&& s.context@ == context_string(opt_view(data.ct_sponsor))
    &&& s.raw_image_src == data.ct_fullimagepath
    &&& s.image_src@ == cdn_image_url(data.ct_fullimagepath@)
    &&& s.shim.click@ == shim_token(d.click_url@)->Some_0
    &&& s.shim.impression@ == shim_token(d.impression_url@)->Some_0
    &&& s.shim.delete@ == events_map_of(d.events@)[EVENT_ID_DELETE]
    &&& s.shim.save@ == events_map_of(d.events@)[EVENT_ID_SAVE]
    &&& s.parameter_set@ == "default"@
    &&& s.caps == config.caps
    &&& s.domain_affinities@ == crate::defaults::affinities_for(
        config.affinities.buckets@,
        opt_view(data.ct_domain_affinities),
    )
    &&& models_view(s.personalization_models@) == (match d.contents@[0].body {
        None => Seq::<(Seq<char>, u32)>::empty(),
        Some(b) => models_of(json_object_entries(b@)->Some_0),
    })
    &&& s.min_score_raw == data.ct_min_score
    &&& s.item_score_raw == data.ct_item_score
    &&& s.cta == data.ct_cta
    &&& s.collection_title == data.ct_collection_title
    &&& s.sponsor == data.ct_sponsor
    &&& (match data.ct_sponsored_by_override {
        None => s.sponsored_by_override is None,
        Some(o) => s.sponsored_by_override matches Some(c) && c@ == (if is_blank_override(o@) {
            Seq::<char>::empty()
        } else {
            o@
        }),
    })
    &&& s.is_video == (match data.ct_is_video {
        Some(v) => video_flag(v@),
        None => None::<bool>,
    })
}

impl Spoc {
    /// Normalizes one upstream decision into one client-facing item, or
    /// fails on any structural violation.
    pub fn from_decision(decision: Decision, config: &StaticConfig) -> (r: Result<
        Spoc,
        ProxyError,
    >)
        requires
            config.wf(),
        ensures
            r is Ok <==> decision_ok(decision),
            r matches Ok(s) ==> normalized_spoc(s, decision, *config),
    {
        let Decision {
            ad_id,
            flight_id,
            campaign_id,
            priority_id,
            click_url,
            contents,
            impression_url,
            events,
        } = decision;
        let mut contents = contents;
        if contents.len() != 1 {
            return Err(ProxyError::new("decision must carry exactly one content element"));
        }
        let content = contents.remove(0);
        assert(content == decision.contents@[0]);
        let Content { data, body } = content;

        let mut events_map = match EventsMap::new(events) {
            Ok(m) => m,
            Err(e) => {
                return Err(e);
            },
        };
        let delete = match events_map.remove(EVENT_ID_DELETE) {
            Ok(t) => t,
            Err(e) => {
                return Err(e);
            },
        };
        let save = match events_map.remove(EVENT_ID_SAVE) {
            Ok(t) => t,
            Err(e) => {
                return Err(e);
            },
        };
        let click = match tracking_url_to_shim(click_url.as_str()) {
            Ok(t) => t,
            Err(e) => {
                return Err(e);
            },
        };
        let impression = match tracking_url_to_shim(impression_url.as_str()) {
            Ok(t) => t,
            Err(e) => {
                return Err(e);
            },
        };
        let image_src = match get_cdn_image(data.ct_fullimagepath.as_str()) {
            Ok(u) => u,
            Err(e) => {
                return Err(e);
            },
        };
        let personalization_models = match get_personalization_models(body) {
            Ok(m) => m,
            Err(e) => {
                return Err(e);
            },
        };
        let context = format_context(
            match &data.ct_sponsor {
                Some(s) => Some(s.as_str()),
                None => None,
            },
        );
        let affinities = get_domain_affinities(data.ct_domain_affinities, &config.affinities);
        let domain_affinities = copy_affinities(affinities);
        let sponsored_by_override = match data.ct_sponsored_by_override {
            Some(o) => Some(clean_sponsored_by_override(o)),
            None => None,
        };
        let spoc = Spoc {
            id: ad_id,
            flight_id,
            campaign_id,
            title: data.ct_title,
            url: data.ct_url,
            domain: data.ct_domain,
            excerpt: data.ct_excerpt,
            priority: map_priority(priority_id),
            context,
            raw_image_src: data.ct_fullimagepath,
            image_src,
            shim: crate::spocs::Shim { click, impression, delete, save },
            parameter_set: String::from_str("default"),
            caps: config.caps,
            domain_affinities,
            personalization_models,
            min_score_raw: data.ct_min_score,
            item_score_raw: data.ct_item_score,
            cta: data.ct_cta,
            collection_title: data.ct_collection_title,
            sponsor: data.ct_sponsor,
            sponsored_by_override,
            is_video: get_is_video(data.ct_is_video),
        };
        proof {
            if decision.contents@[0].body is None {
                assert(models_view(spoc.personalization_models@) =~= Seq::<(
                    Seq<char>,
                    u32,
                )>::empty());
            }
        }
        Ok(spoc)
    }
}

/// `c` is `s` with its collection title cleared and every other field
/// kept.
pub open spec fn cleared_of(c: Spoc, s: Spoc) -> bool {
    &&& c.collection_title is None
    &&& c.id == s.id
    &&& c.flight_id == s.flight_id
    &&& c.campaign_id == s.campaign_id
    &&& c.title == s.title
    &&& c.url == s.url
    &&& c.domain == s.domain
    &&& c.excerpt == s.excerpt
    &&& c.priority == s.priority
    &&& c.context == s.context
    &&& c.raw_image_src == s.raw_image_src
    &&& c.image_src == s.image_src
    &&& c.shim == s.shim
    &&& c.parameter_set == s.parameter_set
    &&& c.caps == s.caps
    &&& c.domain_affinities == s.domain_affinities
    &&& c.personalization_models == s.personalization_models
    &&& c.min_score_raw == s.min_score_raw
    &&& c.item_score_raw == s.item_score_raw
    &&& c.cta == s.cta
    &&& c.sponsor == s.sponsor
    &&& c.sponsored_by_override == s.sponsored_by_override
    &&& c.is_video == s.is_video
}

/// A slot's items group into a collection when the protocol version is at
/// least two, the list is non-empty, and every item carries a collection
/// title.
pub open spec fn collection_eligible(spocs: Seq<Spoc>, version: u32) -> bool {
    version >= 2 && spocs.len() > 0 && (forall|i: int|
        0 <= i < spocs.len() ==> (#[trigger] spocs[i]).collection_title is Some)
}

/// How a grouped slot relates to its items: a collection titled and
/// sponsored by the first item with the titles of all members cleared, or
/// the unchanged flat list.
pub open spec fn spocs_list_matches(r: SpocsList, spocs: Seq<Spoc>, version: u32) -> bool {
    if collection_eligible(spocs, version) {
        &&& r matches SpocsList::Collection(c)
        &&& spocs[0].collection_title matches Some(t) && c.title == t
        &&& c.flight_id == spocs[0].flight_id
        &&& c.sponsor == spocs[0].sponsor
        &&& c.context@ == context_string(opt_view(spocs[0].sponsor))
        &&& c.items@.len() == spocs.len()
        &&& forall|i: int| 0 <= i < spocs.len() ==> cleared_of(c.items@[i], #[trigger] spocs[i])
    } else {
        r matches SpocsList::Standard(v) && v@ == spocs
    }
}

/// Whether every item carries a collection title.
fn all_have_collection_title(spocs: &Vec<Spoc>) -> (r: bool)
    ensures
        r == (forall|i: int|
            0 <= i < spocs@.len() ==> (#[trigger] spocs@[i]).collection_title is Some),
{
    let n = spocs.len();
    for i in 0..n
        invariant
            n == spocs@.len(),
            forall|k: int| 0 <= k < i ==> (#[trigger] spocs@[k]).collection_title is Some,
    {
        if spocs[i].collection_title.is_none() {
            return false;
        }
    }
    true
}

impl SpocsList {
    /// Groups one slot's normalized items: a titled collection when every
    /// item carries a collection title (protocol version two and up), the
    /// flat list otherwise.
    pub fn from_spocs(spocs: Vec<Spoc>, version: u32) -> (r: SpocsList)
        ensures
            spocs_list_matches(r, spocs@, version),
    {
        let eligible = version >= 2 && spocs.len() > 0 && all_have_collection_title(&spocs);
        if !eligible {
            return SpocsList::Standard(spocs);
        }
        let ghost orig = spocs@;
        let mut rest = spocs;
        let mut first = rest.remove(0);
        assert(first == orig[0]);
        let title = match &first.collection_title {
            Some(t) => t.clone(),
            None => vstd::pervasive::unreached(),
        };
        let flight_id = first.flight_id;
        let sponsor: Option<String> = match &first.sponsor {
            Some(s) => Some(s.clone()),
            None => None,
        };
        let context = format_context(
            match &first.sponsor {
                Some(s) => Some(s.as_str()),
                None => None,
            },
        );
        first.collection_title = None;
        let mut items: Vec<Spoc> = Vec::new();
        items.push(first);
        while rest.len() > 0
            invariant
                orig.len() == items@.len() + rest@.len(),
                items@.len() >= 1,
                rest@ == orig.skip(items@.len() as int),
                forall|i: int| 0 <= i < items@.len() ==> cleared_of(items@[i], #[trigger] orig[i]),
            decreases rest@.len(),
        {
            let ghost j = items@.len() as int;
            let mut s = rest.remove(0);
            assert(s == orig[j]);
            s.collection_title = None;
            items.push(s);
            assert(rest@ =~= orig.skip(j + 1));
        }
        SpocsList::Collection(Collection { title, flight_id, sponsor, context, items })
    }
}

/// Every decision of a slot can be normalized.
pub open spec fn slot_ok(dlist: Option<Vec<Decision>>) -> bool {
    match dlist {
        None => true,
        Some(ds) => forall|j: int| 0 <= j < ds@.len() ==> decision_ok(#[trigger] ds@[j]),
    }
}

/// Every decision of every slot can be normalized.
pub open spec fn response_ok(dr: DecisionResponse) -> bool {
    forall|i: int| 0 <= i < dr.decisions@.len() ==> slot_ok((#[trigger] dr.decisions@[i]).1)
}

/// The items of one slot, each normalized from its decision, in order.
pub open spec fn normalized_items(items: Seq<Spoc>, ds: Seq<Decision>, config: StaticConfig) -> bool {
    items.len() == ds.len() && (forall|j: int|
        0 <= j < ds.len() ==> normalized_spoc(#[trigger] items[j], ds[j], config))
}

/// How a slot's output relates to its upstream decisions: an absent list
/// yields an empty flat list; a present list is normalized item by item
/// and then grouped.
pub open spec fn slot_list_matches(
    l: SpocsList,
    dlist: Option<Vec<Decision>>,
    version: u32,
    config: StaticConfig,
) -> bool {
    match dlist {
        None => l matches SpocsList::Standard(v) && v@.len() == 0,
        Some(ds) => exists|items: Seq<Spoc>|
            normalized_items(items, ds@, config) && spocs_list_matches(l, items, version),
    }
}

impl SpocsResponse {
    /// Normalizes a whole upstream response: every slot's decisions are
    /// normalized and grouped, in slot order; one malformed decision
    /// fails the whole response.
    pub fn from_decision_response(
        decision_response: DecisionResponse,
        version: u32,
        config: &StaticConfig,
    ) -> (r: Result<SpocsResponse, ProxyError>)
        requires
            config.wf(),
        ensures
            r is Ok <==> response_ok(decision_response),
            r matches Ok(resp) ==> {
                &&& resp.settings@ == config.settings@
                &&& resp.divs@.len() == decision_response.decisions@.len()
                &&& forall|i: int|
                    0 <= i < resp.divs@.len() ==> (#[trigger] resp.divs@[i]).0
                        == decision_response.decisions@[i].0 && slot_list_matches(
                        resp.divs@[i].1,
                        decision_response.decisions@[i].1,
                        version,
                        *config,
                    )
            },
    {
        let ghost orig = decision_response.decisions@;
        let mut rest = decision_response.decisions;
        let mut divs: Vec<(String, SpocsList)> = Vec::new();
        while rest.len() > 0
            invariant
                config.wf(),
                orig == decision_response.decisions@,
                orig.len() == divs@.len() + rest@.len(),
                rest@ == orig.skip(divs@.len() as int),
                forall|i: int| 0 <= i < divs@.len() ==> slot_ok((#[trigger] orig[i]).1),
                forall|i: int|
                    0 <= i < divs@.len() ==> (#[trigger] divs@[i]).0 == orig[i].0
                        && slot_list_matches(divs@[i].1, orig[i].1, version, *config),
            decreases rest@.len(),
        {
            let ghost si = divs@.len() as int;
            let (div, dlist) = rest.remove(0);
            assert((div, dlist) == orig[si]);
            let list: SpocsList = match dlist {
                None => SpocsList::Standard(Vec::new()),
                Some(ds) => {
                    let ghost ds0 = ds@;
                    let mut ds_rest = ds;
                    let mut items: Vec<Spoc> = Vec::new();
                    while ds_rest.len() > 0
                        invariant
                            config.wf(),
                            orig == decision_response.decisions@,
                            orig[si].1 matches Some(dv) && dv@ == ds0,
                            0 <= si < orig.len(),
                            ds0.len() == items@.len() + ds_rest@.len(),
                            ds_rest@ == ds0.skip(items@.len() as int),
                            forall|j: int| 0 <= j < items@.len() ==> decision_ok(#[trigger] ds0[j]),
                            forall|j: int|
                                0 <= j < items@.len() ==> normalized_spoc(
                                    #[trigger] items@[j],
                                    ds0[j],
                                    *config,
                                ),
                        decreases ds_rest@.len(),
                    {
                        let ghost j = items@.len() as int;
                        let d = ds_rest.remove(0);
                        assert(d == ds0[j]);
                        match Spoc::from_decision(d, config) {
                            Ok(s) => {
                                items.push(s);
                            },
                            Err(e) => {
                                assert(!decision_ok(ds0[j]));
                                assert(!slot_ok(orig[si].1));
                                assert(decision_response.decisions@[si] == orig[si]);
                                assert(!response_ok(decision_response));
                                return Err(e);
                            },
                        }
                        assert(ds_rest@ =~= ds0.skip(j + 1));
                    }
                    assert(ds0.skip(items@.len() as int).len() == 0);
                    assert(normalized_items(items@, ds0, *config));
                    let ghost witness = items@;
                    let l = SpocsList::from_spocs(items, version);
                    assert(normalized_items(witness, ds0, *config) && spocs_list_matches(
                        l,
                        witness,
                        version,
                    ));
                    l
                },
            };
            divs.push((div, list));
            assert(rest@ =~= orig.skip(si + 1));
        }
        assert(orig.skip(divs@.len() as int).len() == 0);
        let settings = config.settings.clone();
        Ok(SpocsResponse { settings, divs })
    }
}

} // verus!
