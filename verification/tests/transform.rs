//! End-to-end tests of the transformation engine: request building,
//! shim encoding, image rewriting, normalization and grouping.

use spocs_proxy::client::{classify_upstream_status, DeleteUserResponse, UpstreamOutcome};
use spocs_proxy::errors::ProxyError;
use spocs_proxy::defaults::{default_caps, DomainAffinityTable, StaticConfig, NETWORK_ID, PRIORITY};
use spocs_proxy::image::get_cdn_image;
use spocs_proxy::models::DecisionRequest;
use spocs_proxy::normalize::{clean_sponsored_by_override, format_context, get_is_video,
    map_priority};
use spocs_proxy::personalization::get_personalization_models;
use spocs_proxy::response::{Decision, Content, Data, DecisionResponse, Event};
use spocs_proxy::shim::tracking_url_to_shim;
use spocs_proxy::spocs::{ClientLocation, Placement, Spoc, SpocsList, SpocsRequest, SpocsResponse};

fn sample_request(placements: Vec<Placement>) -> SpocsRequest {
    SpocsRequest {
        version: 2,
        consumer_key: "40249-e88c401e1b1f2242d9e441c4".to_string(),
        pocket_id: "{670e8b97-c271-483f-bcb0-4921b58cdb52}".to_string(),
        site: None,
        placements,
        country: Some("US".to_string()),
        region: Some("IL".to_string()),
    }
}

#[test]
fn test_request_conversion() {
    let spoc_request = sample_request(vec![Placement {
        name: "spocs".to_string(),
        zone_ids: vec![217758, 217995],
        ad_types: vec![3617],
        count: None,
    }]);
    let dr = DecisionRequest::from_spocs_request(spoc_request, 10250);
    assert_eq!(dr.user.key, "{670e8b97-c271-483f-bcb0-4921b58cdb52}");
    assert_eq!(dr.keywords, vec!["US".to_string(), "US-IL".to_string()]);
    assert_eq!(dr.placements.len(), 1);
    let p = &dr.placements[0];
    assert_eq!(p.div_name, "spocs");
    assert_eq!(p.network_id, 10250);
    assert_eq!(p.site_id, 1070098);
    assert_eq!(p.ad_types, vec![3617]);
    assert_eq!(p.zone_ids, vec![217758, 217995]);
    assert_eq!(p.count, 10);
    assert_eq!(p.event_ids, vec![17, 20]);
}

#[test]
fn models_test_request_conversion() {
    let spoc_request = sample_request(vec![Placement {
        name: "spocs".to_string(),
        zone_ids: vec![217758, 217995],
        ad_types: vec![3617],
        count: None,
    }]);
    let dr = DecisionRequest::from_spocs_request(spoc_request, NETWORK_ID);
    assert_eq!(dr.placements[0].network_id, NETWORK_ID);
    assert_eq!(dr.keywords, vec!["US".to_string(), "US-IL".to_string()]);
}

#[test]
fn request_models_test_request_conversion() {
    let spoc_request = sample_request(vec![Placement {
        name: "spocs".to_string(),
        zone_ids: vec![217758, 217995],
        ad_types: vec![3617],
        count: None,
    }]);
    let dr = DecisionRequest::from_spocs_request(spoc_request, NETWORK_ID);
    let p = &dr.placements[0];
    assert_eq!(p.div_name, "spocs");
    assert_eq!(p.site_id, 1070098);
    assert_eq!(p.ad_types, vec![3617]);
    assert_eq!(p.zone_ids, vec![217758, 217995]);
    assert_eq!(p.count, 10);
    assert_eq!(p.event_ids, vec![17, 20]);
    assert_eq!(dr.user.key, "{670e8b97-c271-483f-bcb0-4921b58cdb52}");
}

#[test]
fn keywords_country_only() {
    let mut req = sample_request(vec![]);
    req.region = None;
    let dr = DecisionRequest::from_spocs_request(req, NETWORK_ID);
    assert_eq!(dr.keywords, vec!["US".to_string()]);
}

#[test]
fn keywords_absent_country_ignores_region() {
    let mut req = sample_request(vec![]);
    req.country = None;
    let dr = DecisionRequest::from_spocs_request(req, NETWORK_ID);
    assert!(dr.keywords.is_empty());
}

#[test]
fn zero_placements_yield_the_default() {
    let req = sample_request(vec![]);
    let dr = DecisionRequest::from_spocs_request(req, NETWORK_ID);
    assert_eq!(dr.placements.len(), 1);
    let p = &dr.placements[0];
    assert_eq!(p.div_name, "spocs");
    assert_eq!(p.network_id, NETWORK_ID);
    assert_eq!(p.site_id, 1070098);
    assert_eq!(p.ad_types, vec![2401, 3617]);
    assert_eq!(p.zone_ids, vec![217995]);
    assert_eq!(p.count, 10);
    assert_eq!(p.event_ids, vec![17, 20]);
}

#[test]
fn empty_lists_keep_defaults_and_site_overrides() {
    let mut req = sample_request(vec![Placement {
        name: "sidebar".to_string(),
        zone_ids: vec![],
        ad_types: vec![],
        count: Some(5),
    }]);
    req.site = Some(424242);
    let dr = DecisionRequest::from_spocs_request(req, NETWORK_ID);
    let p = &dr.placements[0];
    assert_eq!(p.div_name, "sidebar");
    assert_eq!(p.ad_types, vec![2401, 3617]);
    assert_eq!(p.zone_ids, vec![217995]);
    assert_eq!(p.site_id, 424242);
    assert_eq!(p.count, 10);
}

#[test]
fn test_tracking_url_to_shim() {
    let test_string: String = "https://example.local/r?e=123&s=456&j=789".to_string();
    let test_result = tracking_url_to_shim(&test_string).unwrap();
    assert_eq!(test_result, "0,123,456")
}

#[test]
fn shim_encodes_all_three_endpoints() {
    assert_eq!(tracking_url_to_shim("https://x/r?e=123&s=456").unwrap(), "0,123,456");
    assert_eq!(tracking_url_to_shim("https://x/i.gif?e=7&s=8").unwrap(), "1,7,8");
    assert_eq!(tracking_url_to_shim("https://x/e.gif?s=2&e=1").unwrap(), "2,1,2");
}

#[test]
fn shim_rejects_bad_urls() {
    assert!(tracking_url_to_shim("https://x/unknown?e=1&s=2").is_err());
    assert!(tracking_url_to_shim("not a url").is_err());
    assert!(tracking_url_to_shim("https://x/r?s=2").is_err());
    assert!(tracking_url_to_shim("https://x/r?e=1").is_err());
    assert!(tracking_url_to_shim("https://x/r").is_err());
}

#[test]
fn test_is_video() {
    let cases: Vec<(Option<String>, Option<bool>)> = vec![
        (Some(String::from("t")), Some(true)),
        (Some(String::from("off")), Some(false)),
        (Some(String::from("1")), Some(true)),
    ];
    for (key, value) in cases {
        assert_eq!(get_is_video(key), value);
    }
}

#[test]
fn video_flag_trims_and_ignores_case() {
    assert_eq!(get_is_video(Some("  YES ".to_string())), Some(true));
    assert_eq!(get_is_video(Some("\tFalse\n".to_string())), Some(false));
    assert_eq!(get_is_video(Some("maybe".to_string())), None);
    assert_eq!(get_is_video(None), None);
}

#[test]
fn test_clean_sponsored_by_override() {
    let cases: Vec<(&str, &str)> = vec![
        ("        blank", ""),
        ("king fisher", "king fisher"),
        ("", ""),
    ];
    for (key, value) in cases {
        assert_eq!(clean_sponsored_by_override(key.to_string()), value.to_string());
    }
}

#[test]
fn sponsor_override_placeholders() {
    assert_eq!(clean_sponsored_by_override("EMPTY  ".to_string()), "");
    assert_eq!(clean_sponsored_by_override("Blank".to_string()), "");
    assert_eq!(clean_sponsored_by_override("blankly".to_string()), "blankly");
}

#[test]
fn test_get_cdn_image() {
    let rewritten = get_cdn_image("https://subdomain.zkcdn.net/foo/bar").unwrap();
    assert_eq!(
        rewritten,
        "https://img-getpocket.cdn.mozilla.net/direct?url=https%3A%2F%2Fsubdomain.zkcdn.net%2Ffoo%2Fbar&resize=w618-h310"
    );
}

#[test]
fn cdn_image_rejects_other_hosts() {
    assert!(get_cdn_image("https://evil.example/foo").is_err());
    assert!(get_cdn_image("https://zkcdn.net.evil.example/foo").is_err());
    assert!(get_cdn_image("not a url").is_err());
    assert!(get_cdn_image("https://zkcdn.net/ok").is_ok());
}

#[test]
fn test_priority_mapping() {
    assert_eq!(map_priority(Some(147517)), 1);
    assert_eq!(map_priority(Some(180843)), 2);
    assert_eq!(map_priority(Some(147518)), 3);
    assert_eq!(map_priority(Some(160722)), 9);
    assert_eq!(map_priority(Some(147520)), 10);
    assert_eq!(map_priority(Some(999)), PRIORITY);
    assert_eq!(map_priority(None), PRIORITY);
}

#[test]
fn test_personalization_models() {
    let body = "{\"topic_fun\": true, \"other\": true}".to_string();
    let models = get_personalization_models(Some(body)).unwrap();
    assert_eq!(models, vec![("fun".to_string(), 1)]);
}

#[test]
fn personalization_accepts_true_strings_and_skips_the_rest() {
    let body = "{\"topic_a\": \"true\", \"topic_b\": false, \"topic_c\": 1, \"topic_d\": true}"
        .to_string();
    let mut models = get_personalization_models(Some(body)).unwrap();
    models.sort();
    assert_eq!(models, vec![("a".to_string(), 1), ("d".to_string(), 1)]);
    assert!(get_personalization_models(None).unwrap().is_empty());
}

#[test]
fn personalization_rejects_malformed_bodies() {
    assert!(get_personalization_models(Some("not json".to_string())).is_err());
    assert!(get_personalization_models(Some("[1, 2]".to_string())).is_err());
}

#[test]
fn test_format_context() {
    assert_eq!(format_context(Some("AdCo")), "Sponsored by AdCo");
    assert_eq!(format_context(None), "");
}

#[test]
fn pocket_id_must_be_a_uuid() {
    let req = sample_request(vec![]);
    assert!(req.validate_pocket_id().is_ok());
    let mut bad = sample_request(vec![]);
    bad.pocket_id = "not-a-uuid".to_string();
    assert!(bad.validate_pocket_id().is_err());
}

#[test]
fn location_fills_only_missing_country() {
    let mut req = sample_request(vec![]);
    req.country = None;
    req.region = None;
    req.apply_location(ClientLocation {
        country: Some("GB".to_string()),
        region: Some("FIF".to_string()),
    });
    assert_eq!(req.country.as_deref(), Some("GB"));
    assert_eq!(req.region.as_deref(), Some("FIF"));

    let mut keeps = sample_request(vec![]);
    keeps.apply_location(ClientLocation { country: Some("GB".to_string()), region: None });
    assert_eq!(keeps.country.as_deref(), Some("US"));
    assert_eq!(keeps.region.as_deref(), Some("IL"));
}

fn sample_config() -> StaticConfig {
    StaticConfig::new(
        "{\"feature\": 1}".to_string(),
        vec![(
            "bucket_a".to_string(),
            vec![("example.com".to_string(), 5), ("example.org".to_string(), 7)],
        )],
    )
}

fn sample_decision(collection_title: Option<&str>) -> Decision {
    Decision {
        ad_id: 1,
        flight_id: 2,
        campaign_id: 3,
        priority_id: Some(147518),
        click_url: "https://t.example/r?e=11&s=22".to_string(),
        contents: vec![Content {
            data: Data {
                ct_title: "A title".to_string(),
                ct_url: "https://dest.example/article".to_string(),
                ct_domain: "dest.example".to_string(),
                ct_excerpt: "An excerpt".to_string(),
                ct_sponsor: Some("AdCo".to_string()),
                ct_fullimagepath: "https://sub.zkcdn.net/img/1".to_string(),
                ct_min_score: Some("0.3".to_string()),
                ct_item_score: None,
                ct_domain_affinities: Some("bucket_a".to_string()),
                ct_cta: Some("Read".to_string()),
                ct_collection_title: collection_title.map(|s| s.to_string()),
                ct_is_video: Some("ON".to_string()),
                ct_sponsored_by_override: Some(" blank ".to_string()),
            },
            body: Some("{\"topic_fun\": true}".to_string()),
        }],
        impression_url: "https://t.example/i.gif?e=33&s=44".to_string(),
        events: vec![
            Event { id: 17, url: "https://t.example/e.gif?e=55&s=66".to_string() },
            Event { id: 20, url: "https://t.example/e.gif?e=77&s=88".to_string() },
        ],
    }
}

#[test]
fn decision_normalizes_into_a_spoc() {
    let config = sample_config();
    let spoc = Spoc::from_decision(sample_decision(None), &config).unwrap();
    assert_eq!(spoc.id, 1);
    assert_eq!(spoc.flight_id, 2);
    assert_eq!(spoc.campaign_id, 3);
    assert_eq!(spoc.priority, 3);
    assert_eq!(spoc.title, "A title");
    assert_eq!(spoc.context, "Sponsored by AdCo");
    assert_eq!(spoc.raw_image_src, "https://sub.zkcdn.net/img/1");
    assert_eq!(
        spoc.image_src,
        "https://img-getpocket.cdn.mozilla.net/direct?url=https%3A%2F%2Fsub.zkcdn.net%2Fimg%2F1&resize=w618-h310"
    );
    assert_eq!(spoc.shim.click, "0,11,22");
    assert_eq!(spoc.shim.impression, "1,33,44");
    assert_eq!(spoc.shim.delete, "2,55,66");
    assert_eq!(spoc.shim.save, "2,77,88");
    assert_eq!(spoc.parameter_set, "default");
    assert_eq!(spoc.caps, default_caps());
    assert_eq!(
        spoc.domain_affinities,
        vec![("example.com".to_string(), 5), ("example.org".to_string(), 7)]
    );
    assert_eq!(spoc.personalization_models, vec![("fun".to_string(), 1)]);
    assert_eq!(spoc.min_score_raw.as_deref(), Some("0.3"));
    assert_eq!(spoc.item_score_raw, None);
    assert_eq!(spoc.cta.as_deref(), Some("Read"));
    assert_eq!(spoc.sponsor.as_deref(), Some("AdCo"));
    assert_eq!(spoc.sponsored_by_override.as_deref(), Some(""));
    assert_eq!(spoc.is_video, Some(true));
}

#[test]
fn unknown_affinity_bucket_yields_the_empty_mapping() {
    let config = sample_config();
    let mut d = sample_decision(None);
    d.contents[0].data.ct_domain_affinities = Some("unknown".to_string());
    let spoc = Spoc::from_decision(d, &config).unwrap();
    assert!(spoc.domain_affinities.is_empty());
}

#[test]
fn duplicate_event_ids_keep_the_last() {
    let config = sample_config();
    let mut d = sample_decision(None);
    d.events.push(Event { id: 17, url: "https://t.example/r?e=99&s=98".to_string() });
    let spoc = Spoc::from_decision(d, &config).unwrap();
    assert_eq!(spoc.shim.delete, "0,99,98");
}

#[test]
fn decision_failures_surface_as_errors() {
    let config = sample_config();

    let mut two_contents = sample_decision(None);
    let extra = two_contents.contents[0].body.clone();
    two_contents.contents.push(Content {
        data: sample_decision(None).contents.remove(0).data,
        body: extra,
    });
    assert!(Spoc::from_decision(two_contents, &config).is_err());

    let mut missing_delete = sample_decision(None);
    missing_delete.events.remove(0);
    assert!(Spoc::from_decision(missing_delete, &config).is_err());

    let mut bad_event_url = sample_decision(None);
    bad_event_url.events[0].url = "https://t.example/nope?e=1&s=2".to_string();
    assert!(Spoc::from_decision(bad_event_url, &config).is_err());

    let mut bad_image = sample_decision(None);
    bad_image.contents[0].data.ct_fullimagepath = "https://evil.example/x".to_string();
    assert!(Spoc::from_decision(bad_image, &config).is_err());

    let mut bad_click = sample_decision(None);
    bad_click.click_url = "nonsense".to_string();
    assert!(Spoc::from_decision(bad_click, &config).is_err());

    let mut bad_body = sample_decision(None);
    bad_body.contents[0].body = Some("{broken".to_string());
    assert!(Spoc::from_decision(bad_body, &config).is_err());
}

#[test]
fn slots_group_into_collections() {
    let config = sample_config();
    let a = Spoc::from_decision(sample_decision(Some("Best of")), &config).unwrap();
    let mut b = Spoc::from_decision(sample_decision(Some("Ignored")), &config).unwrap();
    b.flight_id = 9;
    let list = SpocsList::from_spocs(vec![a, b], 2);
    match list {
        SpocsList::Collection(c) => {
            assert_eq!(c.title, "Best of");
            assert_eq!(c.flight_id, 2);
            assert_eq!(c.sponsor.as_deref(), Some("AdCo"));
            assert_eq!(c.context, "Sponsored by AdCo");
            assert_eq!(c.items.len(), 2);
            assert!(c.items.iter().all(|s| s.collection_title.is_none()));
        },
        SpocsList::Standard(_) => panic!("expected a collection"),
    }
}

#[test]
fn missing_titles_or_old_versions_stay_flat() {
    let config = sample_config();
    let a = Spoc::from_decision(sample_decision(Some("Best of")), &config).unwrap();
    let b = Spoc::from_decision(sample_decision(None), &config).unwrap();
    match SpocsList::from_spocs(vec![a, b], 2) {
        SpocsList::Standard(v) => {
            assert_eq!(v.len(), 2);
            assert_eq!(v[0].collection_title.as_deref(), Some("Best of"));
        },
        SpocsList::Collection(_) => panic!("expected a flat list"),
    }

    let c = Spoc::from_decision(sample_decision(Some("Best of")), &config).unwrap();
    match SpocsList::from_spocs(vec![c], 1) {
        SpocsList::Standard(v) => assert_eq!(v.len(), 1),
        SpocsList::Collection(_) => panic!("expected a flat list"),
    }

    match SpocsList::from_spocs(vec![], 2) {
        SpocsList::Standard(v) => assert!(v.is_empty()),
        SpocsList::Collection(_) => panic!("expected a flat list"),
    }
}

#[test]
fn whole_responses_normalize_per_slot() {
    let config = sample_config();
    let dr = DecisionResponse {
        decisions: vec![
            ("spocs".to_string(), Some(vec![sample_decision(None)])),
            ("sidebar".to_string(), None),
        ],
    };
    let resp: SpocsResponse = SpocsResponse::from_decision_response(dr, 2, &config).unwrap();
    assert_eq!(resp.settings, "{\"feature\": 1}");
    assert_eq!(resp.divs.len(), 2);
    assert_eq!(resp.divs[0].0, "spocs");
    match &resp.divs[0].1 {
        SpocsList::Standard(v) => assert_eq!(v.len(), 1),
        SpocsList::Collection(_) => panic!("expected a flat list"),
    }
    match &resp.divs[1].1 {
        SpocsList::Standard(v) => assert!(v.is_empty()),
        SpocsList::Collection(_) => panic!("expected an empty flat list"),
    }
}

#[test]
fn one_bad_decision_fails_the_whole_response() {
    let config = sample_config();
    let mut bad = sample_decision(None);
    bad.click_url = "junk".to_string();
    let dr = DecisionResponse {
        decisions: vec![
            ("spocs".to_string(), Some(vec![sample_decision(None), bad])),
        ],
    };
    assert!(SpocsResponse::from_decision_response(dr, 2, &config).is_err());
}

#[test]
fn upstream_statuses_classify_per_policy() {
    assert!(matches!(classify_upstream_status(200), UpstreamOutcome::Decisions));
    assert!(matches!(classify_upstream_status(204), UpstreamOutcome::Decisions));
    assert!(matches!(classify_upstream_status(400), UpstreamOutcome::NoDecisions));
    assert!(matches!(classify_upstream_status(404), UpstreamOutcome::NoDecisions));
    assert!(matches!(classify_upstream_status(500), UpstreamOutcome::Failure));
    assert!(matches!(classify_upstream_status(302), UpstreamOutcome::Failure));
}

#[test]
fn delete_user_reports_success_only_on_200() {
    assert_eq!(DeleteUserResponse::from_status(200).status, 1);
    assert_eq!(DeleteUserResponse::from_status(404).status, 0);
}

#[test]
fn proxy_errors_carry_their_messages() {
    assert_eq!(ProxyError::new("boom").message(), "boom");
    assert_eq!(ProxyError::from_source("geoip", "no database").message(), "geoip: no database");
}
