//! Data model of the feed pipeline: identities, subscription filters,
//! raw relay events, feed items, channel metadata and the error taxonomy.
use vstd::prelude::*;

verus! {

/// A resolved identity: the public key published for an identifier and the
/// relay addresses the identifier's domain published for it.
///
/// A successful resolution always carries at least one relay address; an
/// empty relay list is a resolution failure, not a degenerate success.
pub struct Identity {
    pub public_key: String,
    pub relay_addresses: Vec<String>,
}

/// What a discovery lookup handed back for one identifier, reduced to plain
/// values: the published public key, if the response carried one, and the
/// published relay list with its order preserved.
pub struct DiscoveryResponse {
    pub public_key: Option<String>,
    pub relays: Vec<String>,
}

/// The query sent to every relay of one request: the authors whose events
/// are wanted and the lower-bound timestamp of eligible events.
pub struct SubscriptionFilter {
    pub authors: Vec<String>,
    pub since: u64,
}

/// An event as received from a relay: a content-derived unique identifier,
/// its author's public key, its timestamp and its text payload.
#[derive(Clone)]
pub struct RawEvent {
    pub id: String,
    pub author_public_key: String,
    pub created_at: u64,
    pub content: String,
}

/// Mathematical model of a [`RawEvent`].
#[verifier::ext_equal]
pub struct RawEventView {
    pub id: Seq<char>,
    pub author_public_key: Seq<char>,
    pub created_at: int,
    pub content: Seq<char>,
}

impl View for RawEvent {
    type V = RawEventView;

    open spec fn view(&self) -> RawEventView {
        RawEventView {
            id: self.id@,
            author_public_key: self.author_public_key@,
            created_at: self.created_at as int,
            content: self.content@,
        }
    }
}

/// One entry of the rendered feed, derived one-to-one from a de-duplicated
/// [`RawEvent`]: the guid is the event id, the content is the event payload.
pub struct FeedItem {
    pub guid: String,
    pub content: String,
}

/// Mathematical model of a [`FeedItem`].
#[verifier::ext_equal]
pub struct FeedItemView {
    pub guid: Seq<char>,
    pub content: Seq<char>,
}

impl View for FeedItem {
    type V = FeedItemView;

    open spec fn view(&self) -> FeedItemView {
        FeedItemView { guid: self.guid@, content: self.content@ }
    }
}

/// Static channel metadata of the rendered feed document.
pub struct ChannelMeta {
    pub title: String,
    pub link: String,
    pub description: String,
}

impl Default for ChannelMeta {
    /// The fixed channel metadata the feed is rendered under.
    fn default() -> (c: ChannelMeta)
        ensures
            c.title@ == "Channel Title"@,
            c.link@ == "http://example.com"@,
            c.description@ == "An RSS feed."@,
    {
        ChannelMeta {
            title: String::from_str("Channel Title"),
            link: String::from_str("http://example.com"),
            description: String::from_str("An RSS feed."),
        }
    }
}

/// Configuration of the pipeline: how long one collection window lasts and
/// how far back the subscription filter reaches.
pub struct Config {
    pub collection_budget_secs: u64,
    pub since_floor: u64,
}

impl Default for Config {
    /// Ten seconds of collection and an unbounded history window.
    fn default() -> (c: Config)
        ensures
            c.collection_budget_secs == 10,
            c.since_floor == 0,
    {
        Config { collection_budget_secs: 10, since_floor: 0 }
    }
}

/// The failures a caller of the pipeline can see. Per-relay failures that
/// leave at least one relay reachable are not here: they are non-fatal.
#[derive(Clone, Copy, Debug, PartialEq, Eq, Structural)]
pub enum FeedError {
    /// The identifier could not be resolved to an identity: the lookup
    /// errored, or the response lacked a public key or any relay address.
    ResolutionFailed,
    /// Every relay connection of the request failed.
    NoReachableRelay,
}

/// The model of a sequence of raw events.
pub open spec fn events_view(s: Seq<RawEvent>) -> Seq<RawEventView> {
    s.map_values(|e: RawEvent| e@)
}

/// The model of a sequence of feed items.
pub open spec fn items_view(s: Seq<FeedItem>) -> Seq<FeedItemView> {
    s.map_values(|it: FeedItem| it@)
}

/// The model of a sequence of strings.
pub open spec fn strings_view(s: Seq<String>) -> Seq<Seq<char>> {
    s.map_values(|x: String| x@)
}

} // verus!
