//! The asset-pair registry: which token contract backs which asset id.
//!
//! One entry per asset id; registering again under the same id
//! overwrites the pair. Viewed as a map from asset id to contract
//! reference, registration is insertion and lookup is application.

use vstd::prelude::*;

use crate::types::Address;
use crate::types::AssetId;

verus! {

/// An association of one asset id with the contract reference that
/// backs it.
#[derive(Clone, Copy, Debug, PartialEq, Eq, Structural)]
pub struct AssetPair {
    pub asset_id: AssetId,
    pub contract_ref: Address,
}

/// The pair registry. Entries are kept in registration order; the
/// last entry for an id is the one in force.
pub struct Registry {
    entries: Vec<AssetPair>,
}

/// The contract reference that the latest entry for `id` carries, if
/// any entry does.
spec fn latest_for(entries: Seq<AssetPair>, id: AssetId) -> Option<Address>
    decreases entries.len(),
{
    if entries.len() == 0 {
        None
    } else if entries.last().asset_id == id {
        Some(entries.last().contract_ref)
    } else {
        latest_for(entries.drop_last(), id)
    }
}

impl Registry {
    /// The registry as a map from asset id to the contract reference
    /// in force for it.
    pub closed spec fn view(&self) -> Map<AssetId, Address> {
        Map::new(
            |id: AssetId| latest_for(self.entries@, id) is Some,
            |id: AssetId| latest_for(self.entries@, id)->Some_0,
        )
    }

    /// Creates an empty registry.
    pub fn new() -> (r: Registry)
        ensures
            r@ == Map::<AssetId, Address>::empty(),
    {
        let r = Registry { entries: Vec::new() };
        proof {
            assert(r@ =~= Map::<AssetId, Address>::empty());
        }
        r
    }

    /// Inserts or overwrites the pair for `asset_id`.
    pub fn register(&mut self, asset_id: AssetId, contract_ref: Address)
        ensures
            final(self)@ == old(self)@.insert(asset_id, contract_ref),
    {
        self.entries.push(AssetPair { asset_id, contract_ref });
        proof {
            let post = self.entries@;
            assert(post.drop_last() =~= old(self).entries@);
            assert(self@ =~= old(self)@.insert(asset_id, contract_ref));
        }
    }

    /// Returns the contract reference in force for `asset_id`, or
    /// `None` when no pair was ever registered for it.
    pub fn lookup(&self, asset_id: AssetId) -> (r: Option<Address>)
        ensures
            self@.contains_key(asset_id) ==> r == Some(self@[asset_id]),
            !self@.contains_key(asset_id) ==> r is None,
    {
        let n: usize = self.entries.len();
        let mut i: usize = n;
        proof {
            assert(self.entries@.take(n as int) =~= self.entries@);
        }
        while i > 0
            invariant
                0 <= i <= n,
                n == self.entries@.len(),
                latest_for(self.entries@, asset_id) == latest_for(
                    self.entries@.take(i as int),
                    asset_id,
                ),
            decreases i,
        {
            i = i - 1;
            let entry = self.entries[i];
            proof {
                let pre = self.entries@.take(i as int + 1);
                assert(pre.drop_last() =~= self.entries@.take(i as int));
                assert(pre.last() == self.entries@[i as int]);
            }
            if entry.asset_id == asset_id {
                return Some(entry.contract_ref);
            }
        }
        proof {
            assert(self.entries@.take(0) =~= Seq::<AssetPair>::empty());
        }
        None
    }
}

/// The last registration wins: after a pair is registered and then
/// registered again under the same asset id, the pair in force is
/// exactly the one registered last, whatever was there before.
pub proof fn lemma_last_registration_wins(
    pairs: Map<AssetId, Address>,
    asset_id: AssetId,
    first: Address,
    second: Address,
)
    ensures
        pairs.insert(asset_id, first).insert(asset_id, second).contains_key(asset_id),
        pairs.insert(asset_id, first).insert(asset_id, second)[asset_id] == second,
{
}

} // verus!
