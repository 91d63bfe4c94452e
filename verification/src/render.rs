//! Feed rendering: turn the ordered item sequence and the static channel
//! metadata into a serialized RSS document. The XML serialization itself
//! is the rss crate's; the item loop and the shape of what is handed to it
//! are verified.
use vstd::prelude::*;

use crate::aggregate::aggregate;
use crate::aggregate::aggregate_spec;
use crate::model::{ChannelMeta, FeedError, FeedItemView, FeedItem, RawEvent, events_view, items_view};

verus! {

/// Declares rss::Item so values of it can pass through verified code;
/// what such a value holds is opaque here and spoken of only through
/// [`item_model`].
#[verifier::external_type_specification]
#[verifier::external_body]
pub struct ExRssItem(rss::Item);

/// The guid and content an rss item carries.
pub uninterp spec fn item_model(i: rss::Item) -> FeedItemView;

/// The models of a sequence of rss items.
pub open spec fn items_model(s: Seq<rss::Item>) -> Seq<FeedItemView> {
    s.map_values(|i: rss::Item| item_model(i))
}

/// Relies on rss::Guid::set_value and rss::ItemBuilder: the built item
/// carries exactly the given guid value and content text.
#[verifier::external_body]
fn build_item(guid: &String, content: &String) -> (r: rss::Item)
    ensures
        item_model(r) == (FeedItemView { guid: guid@, content: content@ }),
{
    let mut g = rss::Guid::default();
    g.set_value(guid.clone());
    rss::ItemBuilder::default().content(content.clone()).guid(g).build()
}

/// The serialized RSS document of a channel with the given metadata and
/// items: a fixed function of those values alone.
pub uninterp spec fn rss_doc(
    title: Seq<char>,
    link: Seq<char>,
    description: Seq<char>,
    items: Seq<FeedItemView>,
) -> Seq<char>;

/// Relies on rss::ChannelBuilder, rss::Channel::set_items and the Display
/// impl of rss::Channel: the XML text written for a channel depends on its
/// metadata and items alone.
#[verifier::external_body]
fn channel_xml(title: &String, link: &String, description: &String, items: Vec<rss::Item>) -> (r:
    String)
    ensures
        r@ == rss_doc(title@, link@, description@, items_model(items@)),
{
    let mut channel = rss::ChannelBuilder::default()
        .title(title.clone())
        .link(link.clone())
        .description(description.clone())
        .build();
    channel.set_items(items);
    channel.to_string()
}

/// Serialize the given items, in the order given, under the given channel
/// metadata. Well-formed output for every input, the empty sequence
/// included, is the rss crate's guarantee; what is proved here is that the
/// document is built from exactly these items, each with its guid and
/// content carried over unchanged.
pub fn render(items: &Vec<FeedItem>, meta: &ChannelMeta) -> (r: String)
    ensures
        r@ == rss_doc(meta.title@, meta.link@, meta.description@, items_view(items@)),
{
    let mut rss_items: Vec<rss::Item> = Vec::new();
    let mut i: usize = 0;
    while i < items.len()
        invariant
            i <= items.len(),
            rss_items@.len() == i,
            items_model(rss_items@) == items_view(items@).take(i as int),
        decreases items.len() - i,
    {
        let ghost prev = rss_items@;
        let it = build_item(&items[i].guid, &items[i].content);
        rss_items.push(it);
        proof {
            assert(rss_items@ == prev.push(it));
            assert(item_model(it) == items_view(items@)[i as int]);
            assert forall|k: int| 0 <= k < rss_items@.len() implies items_model(rss_items@)[k]
                == items_view(items@).take(i as int + 1)[k] by {
                assert(items_model(rss_items@)[k] == item_model(rss_items@[k]));
                if k < i as int {
                    assert(rss_items@[k] == prev[k]);
                    assert(items_model(prev)[k] == item_model(prev[k]));
                }
            }
            assert(items_model(rss_items@) =~= items_view(items@).take(i as int + 1));
        }
        i += 1;
    }
    proof {
        assert(items_view(items@).take(items@.len() as int) =~= items_view(items@));
    }
    channel_xml(&meta.title, &meta.link, &meta.description, rss_items)
}

/// What the request handler answers with once collection has ended: a
/// complete feed document for a successful (possibly empty) collection, or
/// the collection's single failure with no document at all — never a
/// partially written one.
pub fn feed_response(collected: Result<Vec<RawEvent>, FeedError>, meta: &ChannelMeta) -> (r:
    Result<String, FeedError>)
    ensures
        r is Ok <==> collected is Ok,
        collected is Ok ==> r->Ok_0@ == rss_doc(
            meta.title@,
            meta.link@,
            meta.description@,
            aggregate_spec(events_view(collected->Ok_0@)),
        ),
        collected is Err ==> r == Result::<String, FeedError>::Err(collected->Err_0),
{
    match collected {
        Ok(events) => Ok(feed_page(&events, meta)),
        Err(e) => Err(e),
    }
}

/// The compute core of one feed request once events are in hand: aggregate
/// the collected events (first-occurrence-wins de-duplication) and render
/// the surviving items as an RSS document.
pub fn feed_page(events: &Vec<RawEvent>, meta: &ChannelMeta) -> (r: String)
    ensures
        r@ == rss_doc(
            meta.title@,
            meta.link@,
            meta.description@,
            aggregate_spec(events_view(events@)),
        ),
{
    let items = aggregate(events);
    render(&items, meta)
}

} // verus!
