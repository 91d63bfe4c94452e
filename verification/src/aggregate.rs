//! Event aggregation: merge the events received from all relays into an
//! ordered sequence of feed items, de-duplicating by event id with the
//! first occurrence winning.
use vstd::prelude::*;

use crate::model::{FeedItem, FeedItemView, RawEvent, RawEventView, events_view, items_view};

verus! {

/// Whether some event of `s` carries the id `id`.
pub open spec fn has_id(s: Seq<RawEventView>, id: Seq<char>) -> bool {
    exists|i: int| 0 <= i < s.len() && s[i].id == id
}

/// Whether some item of `items` carries the guid `guid`.
pub open spec fn has_guid(items: Seq<FeedItemView>, guid: Seq<char>) -> bool {
    exists|i: int| 0 <= i < items.len() && items[i].guid == guid
}

/// The one feed item derived from one raw event: guid from the event id,
/// content carried over unchanged.
pub open spec fn item_of(e: RawEventView) -> FeedItemView {
    FeedItemView { guid: e.id, content: e.content }
}

/// No two events of `s` share an id.
pub open spec fn distinct_ids(s: Seq<RawEventView>) -> bool {
    forall|i: int, j: int| 0 <= i < j < s.len() ==> s[i].id != s[j].id
}

/// `j` indexes the first event of `s` that carries `s[j].id`.
pub open spec fn first_occurrence(s: Seq<RawEventView>, j: int) -> bool {
    &&& 0 <= j < s.len()
    &&& forall|k: int| 0 <= k < j ==> s[k].id != s[j].id
}

/// What aggregation returns: one item per distinct event id, in order of
/// each id's first occurrence, built from that first occurrence.
pub open spec fn aggregate_spec(s: Seq<RawEventView>) -> Seq<FeedItemView>
    decreases s.len(),
{
    if s.len() == 0 {
        Seq::empty()
    } else if has_id(s.drop_last(), s.last().id) {
        aggregate_spec(s.drop_last())
    } else {
        aggregate_spec(s.drop_last()).push(item_of(s.last()))
    }
}

/// The guids of the aggregated items are exactly the ids of the input
/// events: aggregation drops duplicates and nothing else.
pub proof fn lemma_aggregate_ids(s: Seq<RawEventView>)
    ensures
        forall|id: Seq<char>|
            #![trigger has_id(s, id)]
            #![trigger has_guid(aggregate_spec(s), id)]
            has_id(s, id) <==> has_guid(aggregate_spec(s), id),
    decreases s.len(),
{
    if s.len() > 0 {
        let p = s.drop_last();
        let e = s.last();
        lemma_aggregate_ids(p);
        assert forall|id: Seq<char>| has_id(s, id) implies has_guid(
            aggregate_spec(s),
            id,
        ) by {
            let i = choose|i: int| 0 <= i < s.len() && s[i].id == id;
            if i < p.len() {
                assert(p[i].id == id);
                assert(has_id(p, id));
                assert(has_guid(aggregate_spec(p), id));
                let j = choose|j: int|
                    0 <= j < aggregate_spec(p).len() && aggregate_spec(p)[j].guid == id;
                assert(aggregate_spec(s)[j].guid == id);
                assert(has_guid(aggregate_spec(s), id));
            } else {
                assert(e.id == id);
                if has_id(p, e.id) {
                    assert(has_guid(aggregate_spec(p), id));
                    let j = choose|j: int|
                        0 <= j < aggregate_spec(p).len() && aggregate_spec(p)[j].guid == id;
                    assert(aggregate_spec(s)[j].guid == id);
                    assert(has_guid(aggregate_spec(s), id));
                } else {
                    let j = aggregate_spec(s).len() - 1;
                    assert(aggregate_spec(s)[j].guid == id);
                    assert(has_guid(aggregate_spec(s), id));
                }
            }
        }
        assert forall|id: Seq<char>| has_guid(aggregate_spec(s), id) implies has_id(s, id) by {
            let j = choose|j: int|
                0 <= j < aggregate_spec(s).len() && aggregate_spec(s)[j].guid == id;
            if has_id(p, e.id) || j < aggregate_spec(p).len() {
                assert(aggregate_spec(p)[j].guid == id);
                assert(has_guid(aggregate_spec(p), id));
                assert(has_id(p, id));
                let i = choose|i: int| 0 <= i < p.len() && p[i].id == id;
                assert(s[i].id == id);
                assert(has_id(s, id));
            } else {
                assert(aggregate_spec(s)[j] == item_of(e));
                assert(s[s.len() - 1].id == id);
                assert(has_id(s, id));
            }
        }
    }
}

/// Aggregation never grows the input, and keeps its full length exactly
/// when the input's ids are pairwise distinct.
pub proof fn lemma_aggregate_len(s: Seq<RawEventView>)
    ensures
        aggregate_spec(s).len() <= s.len(),
        aggregate_spec(s).len() == s.len() <==> distinct_ids(s),
    decreases s.len(),
{
    if s.len() > 0 {
        let p = s.drop_last();
        let e = s.last();
        lemma_aggregate_len(p);
        if has_id(p, e.id) {
            let i = choose|i: int| 0 <= i < p.len() && p[i].id == e.id;
            assert(s[i].id == s[s.len() - 1].id);
            assert(!distinct_ids(s));
        } else {
            if distinct_ids(p) {
                assert forall|i: int, j: int| 0 <= i < j < s.len() implies s[i].id != s[j].id by {
                    if j < s.len() - 1 {
                        assert(p[i].id != p[j].id);
                    } else {
                        assert(s[i] == p[i]);
                        if s[i].id == e.id {
                            assert(has_id(p, e.id));
                        }
                    }
                }
                assert(distinct_ids(s));
            } else {
                let (i, j) = choose|i: int, j: int| 0 <= i < j < p.len() && p[i].id == p[j].id;
                assert(s[i].id == s[j].id);
                assert(!distinct_ids(s));
            }
        }
    }
}

/// Whether `it` is the item built from the first event of `s` that
/// carries `it`'s guid.
pub open spec fn from_first_occurrence(s: Seq<RawEventView>, it: FeedItemView) -> bool {
    exists|j: int| #[trigger] first_occurrence(s, j) && it == item_of(s[j])
}

/// Stable first-occurrence-wins: every aggregated item is built from the
/// first input event that carries its guid.
pub proof fn lemma_aggregate_first_wins(s: Seq<RawEventView>)
    ensures
        forall|i: int|
            0 <= i < aggregate_spec(s).len() ==> from_first_occurrence(
                s,
                #[trigger] aggregate_spec(s)[i],
            ),
    decreases s.len(),
{
    if s.len() > 0 {
        let p = s.drop_last();
        let e = s.last();
        lemma_aggregate_first_wins(p);
        assert forall|i: int| 0 <= i < aggregate_spec(s).len() implies from_first_occurrence(
            s,
            #[trigger] aggregate_spec(s)[i],
        ) by {
            if has_id(p, e.id) || i < aggregate_spec(p).len() {
                assert(0 <= i < aggregate_spec(p).len());
                assert(from_first_occurrence(p, aggregate_spec(p)[i]));
                let j = choose|j: int|
                    #[trigger] first_occurrence(p, j) && aggregate_spec(p)[i] == item_of(p[j]);
                assert(forall|k: int| 0 <= k < j ==> s[k] == p[k]);
                assert(first_occurrence(s, j));
                assert(aggregate_spec(s)[i] == item_of(s[j]));
            } else {
                let j = s.len() - 1;
                assert(aggregate_spec(s)[i] == item_of(e));
                assert forall|k: int| 0 <= k < j implies s[k].id != s[j].id by {
                    assert(s[k] == p[k]);
                    if s[k].id == e.id {
                        assert(has_id(p, e.id));
                    }
                }
                assert(first_occurrence(s, j));
            }
        }
    }
}

proof fn lemma_has_id_extend(s: Seq<RawEventView>, t: Seq<RawEventView>, id: Seq<char>)
    requires
        has_id(s, id),
    ensures
        has_id(s + t, id),
{
    let i = choose|i: int| 0 <= i < s.len() && s[i].id == id;
    assert((s + t)[i].id == id);
}

/// Appending events whose ids all already occur in `s` leaves the
/// aggregated output unchanged.
pub proof fn lemma_aggregate_append_known(s: Seq<RawEventView>, t: Seq<RawEventView>)
    requires
        forall|k: int| 0 <= k < t.len() ==> has_id(s, #[trigger] t[k].id),
    ensures
        aggregate_spec(s + t) == aggregate_spec(s),
    decreases t.len(),
{
    if t.len() == 0 {
        assert(s + t =~= s);
    } else {
        let t0 = t.drop_last();
        assert((s + t).drop_last() =~= s + t0);
        assert((s + t).last() == t.last());
        lemma_has_id_extend(s, t0, t.last().id);
        assert(forall|k: int| 0 <= k < t0.len() ==> t0[k] == t[k]);
        lemma_aggregate_append_known(s, t0);
    }
}

/// Replay collapses: aggregating a full duplicate replay of the event
/// sequence yields exactly the aggregation of the sequence itself.
pub proof fn lemma_aggregate_replay(s: Seq<RawEventView>)
    ensures
        aggregate_spec(s + s) == aggregate_spec(s),
{
    assert forall|k: int| 0 <= k < s.len() implies has_id(s, #[trigger] s[k].id) by {
        assert(0 <= k < s.len() && s[k].id == s[k].id);
    }
    lemma_aggregate_append_known(s, s);
}

/// Whether `items` already holds an item whose guid is `id`.
fn contains_guid(items: &Vec<FeedItem>, id: &String) -> (b: bool)
    ensures
        b == has_guid(items_view(items@), id@),
{
    let mut j: usize = 0;
    while j < items.len()
        invariant
            j <= items.len(),
            forall|k: int| 0 <= k < j ==> items@[k]@.guid != id@,
        decreases items.len() - j,
    {
        if items[j].guid == *id {
            assert(items_view(items@)[j as int].guid == id@);
            return true;
        }
        j += 1;
    }
    proof {
        if has_guid(items_view(items@), id@) {
            let k = choose|k: int|
                0 <= k < items_view(items@).len() && items_view(items@)[k].guid == id@;
            assert(items@[k]@.guid == id@);
        }
    }
    false
}

/// Merge the events of one collection window into feed items: drop every
/// event whose id was already seen (first occurrence wins), map each
/// survivor to the item with its id as guid and its payload as content,
/// and keep arrival order. Pure and total: no input is rejected.
pub fn aggregate(events: &Vec<RawEvent>) -> (items: Vec<FeedItem>)
    ensures
        items_view(items@) == aggregate_spec(events_view(events@)),
        items@.len() <= events@.len(),
{
    let mut items: Vec<FeedItem> = Vec::new();
    let mut i: usize = 0;
    while i < events.len()
        invariant
            i <= events.len(),
            items_view(items@) == aggregate_spec(events_view(events@).take(i as int)),
            items@.len() <= i,
        decreases events.len() - i,
    {
        let ghost pre = events_view(events@).take(i as int);
        let e = &events[i];
        proof {
            assert(events_view(events@).take(i as int + 1).drop_last() =~= pre);
            assert(events_view(events@).take(i as int + 1).last() == e@);
            lemma_aggregate_ids(pre);
        }
        if !contains_guid(&items, &e.id) {
            let item = FeedItem { guid: e.id.clone(), content: e.content.clone() };
            items.push(item);
            proof {
                assert(items_view(items@) =~= aggregate_spec(
                    events_view(events@).take(i as int + 1),
                ));
            }
        } else {
            proof {
                assert(items_view(items@) =~= aggregate_spec(
                    events_view(events@).take(i as int + 1),
                ));
            }
        }
        i += 1;
    }
    proof {
        assert(events_view(events@).take(events@.len() as int) =~= events_view(events@));
    }
    items
}

} // verus!
