use n3x::direction::OfferDirection;
use n3x::filter::{
    criterion_key, filter_matches, inbox_filter, offer_filter, subscription_filters, Filter,
    TagCriterion,
};
use n3x::offer::{compose_offer, issue, offer_content_json, offer_tags, OfferDraft};
use n3x::record::{tag_of, Record, Tag, DIRECT_MESSAGE_KIND, OFFER_KIND};

const AUTHOR: &str = "79dff8f82963424e0bb02708a22e44b4980893e3a4be0fa3cb60a43b946764e3";
const OTHER: &str = "f86c44a2de95d9149b51c6a29afeabba264c18e2fa7c49de93424a0c56947785";

fn tag(name: &str, values: &[&str]) -> Tag {
    Tag { name: name.to_string(), values: values.iter().map(|v| v.to_string()).collect() }
}

fn criterion(name: &str, values: &[&str]) -> TagCriterion {
    TagCriterion {
        name: name.to_string(),
        values: values.iter().map(|v| v.to_string()).collect(),
    }
}

fn sell_offer() -> Record {
    issue(compose_offer(OfferDirection::Sell, 1000, 65000), AUTHOR.to_string(), 1_700_000_000)
}

#[test]
fn offer_draft_has_kind_content_and_two_tags() {
    assert_eq!(
        compose_offer(OfferDirection::Sell, 1000, 65000),
        OfferDraft {
            kind: 30078,
            content: "{\"quantity\":1000,\"price\":65000}".to_string(),
            tags: vec![tag("d", &["n3x"]), tag("x", &["Sell"])],
        }
    );
    assert_eq!(
        compose_offer(OfferDirection::Buy, 0, -1).tags,
        vec![tag("d", &["n3x"]), tag("x", &["Buy"])]
    );
}

#[test]
fn offer_content_is_quantity_then_price() {
    assert_eq!(offer_content_json(1000, 65000), "{\"quantity\":1000,\"price\":65000}");
    assert_eq!(
        offer_content_json(u64::MAX, i64::MIN),
        "{\"quantity\":18446744073709551615,\"price\":-9223372036854775808}"
    );
}

#[test]
fn offer_has_one_application_tag_and_one_direction_tag() {
    for direction in [OfferDirection::Buy, OfferDirection::Sell] {
        let tags = offer_tags(direction);
        assert_eq!(tags.iter().filter(|tag| tag.name == "d").count(), 1);
        assert_eq!(tags.iter().filter(|tag| tag.name == "x").count(), 1);
        assert_eq!(tags.len(), 2);
    }
}

#[test]
fn issued_offer_keeps_the_draft_and_adds_author_and_time() {
    assert_eq!(
        sell_offer(),
        Record {
            author: AUTHOR.to_string(),
            kind: OFFER_KIND,
            created_at: 1_700_000_000,
            tags: vec![tag("d", &["n3x"]), tag("x", &["Sell"])],
            content: "{\"quantity\":1000,\"price\":65000}".to_string(),
        }
    );
}

#[test]
fn tag_of_makes_a_tag_with_one_value() {
    assert_eq!(tag_of("x", "Buy".to_string()), tag("x", &["Buy"]));
}

#[test]
fn sell_offer_is_found_by_the_sell_filter_and_not_by_the_buy_filter() {
    let offer = sell_offer();
    assert!(filter_matches(&offer_filter(Some(OfferDirection::Sell), None), &offer));
    assert!(!filter_matches(&offer_filter(Some(OfferDirection::Buy), None), &offer));
    assert!(filter_matches(&offer_filter(None, None), &offer));
}

#[test]
fn buy_offer_is_found_by_the_buy_filter_and_not_by_the_sell_filter() {
    let offer = issue(compose_offer(OfferDirection::Buy, 1, 1), OTHER.to_string(), 5);
    assert!(filter_matches(&offer_filter(Some(OfferDirection::Buy), Some(5)), &offer));
    assert!(!filter_matches(&offer_filter(Some(OfferDirection::Sell), Some(5)), &offer));
}

#[test]
fn offer_filters_of_the_same_inputs_are_equal() {
    for direction in [None, Some(OfferDirection::Buy), Some(OfferDirection::Sell)] {
        for since in [None, Some(0), Some(1_700_000_000)] {
            assert_eq!(offer_filter(direction, since), offer_filter(direction, since));
        }
    }
    assert_ne!(
        offer_filter(Some(OfferDirection::Buy), None),
        offer_filter(Some(OfferDirection::Sell), None)
    );
}

#[test]
fn offer_filter_holds_kind_application_and_direction() {
    assert_eq!(
        offer_filter(Some(OfferDirection::Sell), None),
        Filter {
            kind: Some(30078),
            since: None,
            recipient: None,
            tags: vec![criterion("d", &["n3x"]), criterion("x", &["Sell"])],
        }
    );
    assert_eq!(
        offer_filter(None, Some(17)),
        Filter {
            kind: Some(30078),
            since: Some(17),
            recipient: None,
            tags: vec![criterion("d", &["n3x"])],
        }
    );
}

#[test]
fn offer_older_than_the_filter_allows_is_not_found() {
    let offer = sell_offer();
    let direction = Some(OfferDirection::Sell);
    assert!(filter_matches(&offer_filter(direction, Some(1_699_999_999)), &offer));
    assert!(filter_matches(&offer_filter(direction, Some(1_700_000_000)), &offer));
    assert!(!filter_matches(&offer_filter(direction, Some(1_700_000_001)), &offer));
}

#[test]
fn record_of_another_kind_or_application_is_no_offer() {
    let filter = offer_filter(Some(OfferDirection::Sell), None);
    let mut other_kind = sell_offer();
    other_kind.kind = 1;
    assert!(!filter_matches(&filter, &other_kind));
    let mut other_application = sell_offer();
    other_application.tags = vec![tag("d", &["another"]), tag("x", &["Sell"])];
    assert!(!filter_matches(&filter, &other_application));
    let mut no_direction = sell_offer();
    no_direction.tags = vec![tag("d", &["n3x"])];
    assert!(!filter_matches(&filter, &no_direction));
    let mut no_application = sell_offer();
    no_application.tags = vec![tag("x", &["Sell"])];
    assert!(!filter_matches(&filter, &no_application));
    let mut lower_case = sell_offer();
    lower_case.tags = vec![tag("d", &["n3x"]), tag("x", &["sell"])];
    assert!(!filter_matches(&filter, &lower_case));
}

#[test]
fn a_tag_counts_by_its_first_value() {
    let filter = offer_filter(Some(OfferDirection::Sell), None);
    let mut record = sell_offer();
    record.tags = vec![tag("d", &["n3x", "more"]), tag("x", &["Sell", "Buy"])];
    assert!(filter_matches(&filter, &record));
    record.tags = vec![tag("d", &["n3x"]), tag("x", &["Buy", "Sell"])];
    assert!(!filter_matches(&filter, &record));
    record.tags = vec![tag("d", &["n3x"]), tag("x", &[])];
    assert!(!filter_matches(&filter, &record));
    record.tags = vec![tag("x", &["Buy"]), tag("d", &["n3x"]), tag("x", &["Sell"])];
    assert!(filter_matches(&filter, &record));
}

#[test]
fn a_criterion_accepts_any_of_its_values() {
    let filter = Filter {
        kind: None,
        since: None,
        recipient: None,
        tags: vec![criterion("x", &["Buy", "Sell"])],
    };
    assert!(filter_matches(&filter, &sell_offer()));
    let nothing_accepted =
        Filter { kind: None, since: None, recipient: None, tags: vec![criterion("x", &[])] };
    assert!(!filter_matches(&nothing_accepted, &sell_offer()));
    let no_criteria = Filter { kind: None, since: None, recipient: None, tags: vec![] };
    assert!(filter_matches(&no_criteria, &sell_offer()));
}

#[test]
fn inbox_filter_finds_what_is_addressed_to_the_identity() {
    let filter = inbox_filter(AUTHOR, 100);
    assert_eq!(
        filter,
        Filter { kind: None, since: Some(100), recipient: Some(AUTHOR.to_string()), tags: vec![] }
    );
    let addressed = Record {
        author: OTHER.to_string(),
        kind: DIRECT_MESSAGE_KIND,
        created_at: 100,
        tags: vec![tag("p", &[AUTHOR])],
        content: "cipher".to_string(),
    };
    assert!(filter_matches(&filter, &addressed));
    let mut to_another = addressed.clone();
    to_another.tags = vec![tag("p", &[OTHER])];
    assert!(!filter_matches(&filter, &to_another));
    let mut too_old = addressed.clone();
    too_old.created_at = 99;
    assert!(!filter_matches(&filter, &too_old));
    assert!(!filter_matches(&filter, &sell_offer()));
}

#[test]
fn subscription_is_offers_and_inbox_from_now_on() {
    assert_eq!(
        subscription_filters(AUTHOR, 1_700_000_000),
        vec![offer_filter(None, Some(1_700_000_000)), inbox_filter(AUTHOR, 1_700_000_000)]
    );
}

#[test]
fn criteria_stand_under_a_hash_and_the_tag_name() {
    let filter = offer_filter(Some(OfferDirection::Buy), None);
    let keys: Vec<String> = filter.tags.iter().map(criterion_key).collect();
    assert_eq!(keys, vec!["#d".to_string(), "#x".to_string()]);
}
