use nostr_rss::aggregate::aggregate;
use nostr_rss::collect::Collector;
use nostr_rss::collect::make_filter;
use nostr_rss::model::{ChannelMeta, Config, DiscoveryResponse, FeedError, Identity, RawEvent};
use nostr_rss::render::{feed_page, feed_response, render};
use nostr_rss::resolve::resolve;

fn ev(id: &str, author: &str, created_at: u64, content: &str) -> RawEvent {
    RawEvent {
        id: id.to_string(),
        author_public_key: author.to_string(),
        created_at,
        content: content.to_string(),
    }
}

fn lookup(key: Option<&str>, relays: &[&str]) -> Option<DiscoveryResponse> {
    Some(DiscoveryResponse {
        public_key: key.map(|k| k.to_string()),
        relays: relays.iter().map(|r| r.to_string()).collect(),
    })
}

#[test]
fn resolve_keeps_published_key_and_relays() {
    // The discovery lookup for "alice@example.com" published key K and two relays.
    let id = resolve(lookup(Some("K"), &["r1", "r2"])).unwrap();
    assert_eq!(id.public_key, "K");
    assert_eq!(id.relay_addresses, vec!["r1".to_string(), "r2".to_string()]);
    assert!(!id.relay_addresses.is_empty());
}

#[test]
fn resolve_fails_without_response() {
    assert!(matches!(resolve(None), Err(FeedError::ResolutionFailed)));
}

#[test]
fn resolve_fails_without_public_key() {
    assert!(matches!(resolve(lookup(None, &["r1"])), Err(FeedError::ResolutionFailed)));
}

#[test]
fn resolve_fails_without_relays() {
    assert!(matches!(resolve(lookup(Some("K"), &[])), Err(FeedError::ResolutionFailed)));
}

#[test]
fn aggregate_distinct_ids_keep_length_and_order() {
    let events = vec![
        ev("e1", "K", 3, "one"),
        ev("e2", "K", 1, "two"),
        ev("e3", "K", 2, "three"),
    ];
    let items = aggregate(&events);
    assert_eq!(items.len(), 3);
    assert_eq!(items[0].guid, "e1");
    assert_eq!(items[1].guid, "e2");
    assert_eq!(items[2].guid, "e3");
    assert_eq!(items[0].content, "one");
    assert_eq!(items[2].content, "three");
}

#[test]
fn aggregate_first_occurrence_wins() {
    // Two relays delivered the same id with differing payloads: the first
    // arrival is the one kept.
    let events = vec![
        ev("e1", "K", 1, "first"),
        ev("e1", "K", 1, "second"),
        ev("e2", "K", 2, "bye"),
        ev("e1", "K", 1, "third"),
    ];
    let items = aggregate(&events);
    assert_eq!(items.len(), 2);
    assert_eq!(items[0].guid, "e1");
    assert_eq!(items[0].content, "first");
    assert_eq!(items[1].guid, "e2");
    assert_eq!(items[1].content, "bye");
}

#[test]
fn aggregate_of_empty_is_empty() {
    let items = aggregate(&Vec::new());
    assert!(items.is_empty());
}

#[test]
fn aggregate_replay_collapses() {
    let events = vec![
        ev("e1", "K", 1, "hi"),
        ev("e2", "K", 2, "bye"),
        ev("e1", "K", 1, "hi"),
    ];
    let mut replayed = events.clone();
    replayed.extend(events.clone());
    let once = aggregate(&events);
    let twice = aggregate(&replayed);
    assert_eq!(once.len(), twice.len());
    for (a, b) in once.iter().zip(twice.iter()) {
        assert_eq!(a.guid, b.guid);
        assert_eq!(a.content, b.content);
    }
}

#[test]
fn render_empty_feed_is_well_formed_envelope_with_zero_items() {
    let meta = ChannelMeta::default();
    let doc = feed_page(&Vec::new(), &meta);
    assert!(doc.starts_with("<?xml version=\"1.0\" encoding=\"utf-8\"?>"));
    assert!(doc.contains("<rss version=\"2.0\""));
    assert!(doc.contains("<channel>"));
    assert!(doc.contains("<title>Channel Title</title>"));
    assert!(doc.contains("<link>http://example.com</link>"));
    assert!(doc.contains("<description>An RSS feed.</description>"));
    assert!(doc.ends_with("</rss>"));
    assert_eq!(doc.matches("<item>").count(), 0);
}

#[test]
fn feed_for_two_relays_with_duplicate_event() {
    // "alice@example.com" resolved to two relays; r1 delivered e1, r2
    // delivered e1 again and e2. The feed holds exactly e1 and e2.
    let id = resolve(lookup(Some("K"), &["r1", "r2"])).unwrap();
    let mut c = Collector::begin(&id);
    c.record_connection(true);
    c.record_connection(true);
    c.record_event(ev("e1", "K", 1, "hi"));
    c.record_event(ev("e1", "K", 1, "hi"));
    c.record_event(ev("e2", "K", 2, "bye"));
    c.budget_expired();
    let events = c.finish().unwrap();
    assert_eq!(events.len(), 3);

    let items = aggregate(&events);
    assert_eq!(items.len(), 2);
    assert_eq!(items[0].guid, "e1");
    assert_eq!(items[0].content, "hi");
    assert_eq!(items[1].guid, "e2");
    assert_eq!(items[1].content, "bye");

    let doc = render(&items, &ChannelMeta::default());
    assert_eq!(doc.matches("<item>").count(), 2);
    assert!(doc.contains("<guid>e1</guid>"));
    assert!(doc.contains("<guid>e2</guid>"));
    assert!(doc.contains("hi"));
    assert!(doc.contains("bye"));
}

#[test]
fn all_relays_unreachable_is_no_reachable_relay() {
    let id = resolve(lookup(Some("K"), &["r1", "r2"])).unwrap();
    let mut c = Collector::begin(&id);
    c.record_connection(false);
    c.record_connection(false);
    c.budget_expired();
    assert!(matches!(c.finish(), Err(FeedError::NoReachableRelay)));
}

#[test]
fn silent_relay_yields_empty_success_once_budget_expires() {
    // One relay reachable, none of its events arrive before the budget
    // elapses: the window closes and the request succeeds with an empty
    // collection.
    let id = resolve(lookup(Some("K"), &["r1"])).unwrap();
    let mut c = Collector::begin(&id);
    c.record_connection(true);
    assert!(c.window_open());
    c.budget_expired();
    assert!(!c.window_open());
    let events = c.finish().unwrap();
    assert!(events.is_empty());
}

#[test]
fn partial_relay_failure_is_tolerated() {
    let id = resolve(lookup(Some("K"), &["r1", "r2", "r3"])).unwrap();
    let mut c = Collector::begin(&id);
    c.record_connection(true);
    c.record_connection(false);
    c.record_connection(true);
    assert!(c.partial_failure());
    c.record_event(ev("e9", "K", 5, "still here"));
    c.budget_expired();
    let events = c.finish().unwrap();
    assert_eq!(events.len(), 1);
    assert_eq!(events[0].id, "e9");
}

#[test]
fn filter_carries_the_identity_key_and_the_floor() {
    let id = Identity { public_key: "K".to_string(), relay_addresses: vec!["r1".to_string()] };
    let config = Config::default();
    assert_eq!(config.collection_budget_secs, 10);
    assert_eq!(config.since_floor, 0);
    let f = make_filter(&id, &config);
    assert_eq!(f.authors, vec!["K".to_string()]);
    assert_eq!(f.since, 0);
}

#[test]
fn rendered_items_carry_guid_and_escaped_content() {
    let events = vec![ev("e<1>", "K", 1, "a < b & c")];
    let items = aggregate(&events);
    let doc = render(&items, &ChannelMeta::default());
    // The serializer must escape, not reject, content that needs it.
    assert_eq!(doc.matches("<item>").count(), 1);
    assert!(doc.contains("a < b & c") || doc.contains("a &lt; b &amp; c"));
    assert!(!doc.contains("<guid>e<1></guid>"));
}

#[test]
fn feed_response_renders_a_complete_document_on_success() {
    let events = vec![ev("e1", "K", 1, "hi")];
    let doc = feed_response(Ok(events), &ChannelMeta::default()).unwrap();
    assert!(doc.ends_with("</rss>"));
    assert_eq!(doc.matches("<item>").count(), 1);
    assert!(doc.contains("<guid>e1</guid>"));
}

#[test]
fn feed_response_produces_no_body_on_failure() {
    let r = feed_response(Err(FeedError::NoReachableRelay), &ChannelMeta::default());
    assert!(matches!(r, Err(FeedError::NoReachableRelay)));
}
