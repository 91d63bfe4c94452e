//! The relay pool's collection window: one subscription filter fanned out
//! to every relay of the resolved identity, per-relay connection outcomes
//! tolerated independently, events accumulated until the time budget
//! elapses. The network work itself suspends outside the library; every
//! decision about what the window accepts and what it hands out is here.
use vstd::prelude::*;

use crate::model::{Config, FeedError, Identity, RawEvent, SubscriptionFilter, strings_view};

verus! {

/// Build the one subscription filter of a request: the resolved identity's
/// public key as the sole author and the configured floor as the lower
/// timestamp bound. The filter is fixed before any relay is queried and is
/// handed unchanged to every relay, so the fan-out query is consistent.
pub fn make_filter(identity: &Identity, config: &Config) -> (f: SubscriptionFilter)
    ensures
        strings_view(f.authors@) == seq![identity.public_key@],
        f.since == config.since_floor,
{
    let mut authors: Vec<String> = Vec::new();
    authors.push(identity.public_key.clone());
    proof {
        assert(strings_view(authors@) =~= seq![identity.public_key@]);
    }
    SubscriptionFilter { authors, since: config.since_floor }
}

/// The state of one collection window: how many relays the request fanned
/// out to, how many connection attempts succeeded and failed, the events
/// accumulated so far, and whether the time budget has elapsed.
pub struct Collector {
    pub total_relays: usize,
    pub connected: usize,
    pub failed: usize,
    pub events: Vec<RawEvent>,
    pub budget_elapsed: bool,
}

impl Collector {
    /// The connection outcomes recorded so far never exceed the relays of
    /// the request.
    pub open spec fn wf(self) -> bool {
        self.connected + self.failed <= self.total_relays
    }

    /// Every relay of the request has its connection outcome recorded.
    pub open spec fn all_connections_recorded(self) -> bool {
        self.connected + self.failed == self.total_relays
    }

    /// Open a collection window for the relays of one resolved identity:
    /// nothing connected, nothing failed, nothing collected, budget not
    /// yet elapsed.
    pub fn begin(identity: &Identity) -> (c: Collector)
        ensures
            c.total_relays == identity.relay_addresses@.len(),
            c.connected == 0,
            c.failed == 0,
            c.events@ == Seq::<RawEvent>::empty(),
            !c.budget_elapsed,
            c.wf(),
    {
        Collector {
            total_relays: identity.relay_addresses.len(),
            connected: 0,
            failed: 0,
            events: Vec::new(),
            budget_elapsed: false,
        }
    }

    /// Record one relay's connection outcome. A failure on one relay is
    /// recorded and tolerated: it never aborts collection from the rest.
    pub fn record_connection(&mut self, ok: bool)
        requires
            old(self).wf(),
            old(self).connected + old(self).failed < old(self).total_relays,
        ensures
            final(self).total_relays == old(self).total_relays,
            final(self).connected == old(self).connected + if ok { 1int } else { 0int },
            final(self).failed == old(self).failed + if ok { 0int } else { 1int },
            final(self).events@ == old(self).events@,
            final(self).budget_elapsed == old(self).budget_elapsed,
            final(self).wf(),
    {
        if ok {
            self.connected = self.connected + 1;
        } else {
            self.failed = self.failed + 1;
        }
    }

    /// Record one event delivered by a connected relay while the window is
    /// open. Duplicates across relays are expected and kept at this layer;
    /// de-duplication is the aggregator's.
    pub fn record_event(&mut self, e: RawEvent)
        requires
            old(self).connected > 0,
            !old(self).budget_elapsed,
        ensures
            final(self).events@ == old(self).events@.push(e),
            final(self).total_relays == old(self).total_relays,
            final(self).connected == old(self).connected,
            final(self).failed == old(self).failed,
            final(self).budget_elapsed == old(self).budget_elapsed,
    {
        self.events.push(e);
    }

    /// The time budget elapsed: the window closes. This needs nothing of
    /// the window's state — it is the sole stopping condition and applies
    /// whatever the relays did or failed to do, so a hanging relay can
    /// never hold the window open past the budget.
    pub fn budget_expired(&mut self)
        ensures
            final(self).budget_elapsed,
            final(self).total_relays == old(self).total_relays,
            final(self).connected == old(self).connected,
            final(self).failed == old(self).failed,
            final(self).events@ == old(self).events@,
    {
        self.budget_elapsed = true;
    }

    /// Whether the window still accepts work; the loop that drives the
    /// relays stops the moment this turns false.
    pub fn window_open(&self) -> (b: bool)
        ensures
            b == !self.budget_elapsed,
    {
        !self.budget_elapsed
    }

    /// Whether some, but not all, relay connections failed: non-fatal,
    /// collection proceeded with the remaining relays.
    pub fn partial_failure(&self) -> (b: bool)
        ensures
            b == (0 < self.failed && self.failed < self.total_relays),
    {
        0 < self.failed && self.failed < self.total_relays
    }

    /// Close the window and hand out the collected events. This fails, with
    /// `NoReachableRelay`, exactly when every relay connection of the
    /// request failed; zero events from at least one reachable relay is a
    /// success with an empty result, not an error.
    pub fn finish(self) -> (r: Result<Vec<RawEvent>, FeedError>)
        requires
            self.wf(),
            self.all_connections_recorded(),
            self.budget_elapsed,
        ensures
            r is Ok <==> self.connected > 0,
            self.connected > 0 ==> r == Result::<Vec<RawEvent>, FeedError>::Ok(self.events),
            self.connected == 0 ==> r == Result::<Vec<RawEvent>, FeedError>::Err(
                FeedError::NoReachableRelay,
            ),
    {
        if self.connected > 0 {
            Ok(self.events)
        } else {
            Err(FeedError::NoReachableRelay)
        }
    }
}

} // verus!
