//! Identity resolution: turn what a discovery lookup published for an
//! identifier into a resolved identity, or a resolution failure. The
//! network lookup itself is I/O at the edge and stays outside the library;
//! its outcome arrives here as plain values.
use vstd::prelude::*;

use crate::model::{DiscoveryResponse, FeedError, Identity, strings_view};

verus! {

/// Whether a lookup outcome resolves: the lookup answered at all, the
/// answer carried a public key, and at least one relay address was
/// published. An empty relay list is a resolution failure, not a
/// degenerate success.
pub open spec fn resolves(lookup: Option<DiscoveryResponse>) -> bool {
    match lookup {
        Some(r) => r.public_key is Some && r.relays@.len() > 0,
        None => false,
    }
}

/// Map a discovery lookup's outcome to an identity. On success the
/// identity carries exactly the published key and the published relay
/// list, order preserved; every malformed or failed outcome is
/// `ResolutionFailed`, never retried here.
pub fn resolve(lookup: Option<DiscoveryResponse>) -> (r: Result<Identity, FeedError>)
    ensures
        r is Ok <==> resolves(lookup),
        resolves(lookup) ==> {
            &&& r->Ok_0.public_key@ == lookup->Some_0.public_key->Some_0@
            &&& strings_view(r->Ok_0.relay_addresses@) == strings_view(lookup->Some_0.relays@)
            &&& r->Ok_0.relay_addresses@.len() > 0
        },
        !resolves(lookup) ==> r == Result::<Identity, FeedError>::Err(FeedError::ResolutionFailed),
{
    match lookup {
        None => Err(FeedError::ResolutionFailed),
        Some(resp) => match resp.public_key {
            None => Err(FeedError::ResolutionFailed),
            Some(key) => {
                if resp.relays.len() == 0 {
                    Err(FeedError::ResolutionFailed)
                } else {
                    Ok(Identity { public_key: key, relay_addresses: resp.relays })
                }
            },
        },
    }
}

} // verus!
