//! The stakes, each under the identifier it was given.
use std::collections::HashMap;
use vstd::prelude::*;
use crate::ndp::types::{StakingItem, stake_copy};

verus! {

broadcast use vstd::std_specs::hash::group_hash_axioms;

/// Identifier of a stake.
pub type StakingID = u64;

/// The stakes and the last identifier handed out.
pub struct Staking {
    pub staking_id: StakingID,
    pub staking_data: HashMap<StakingID, StakingItem>,
    pub pending_list: Vec<StakingItem>,
}

impl Default for Staking {
    fn default() -> (res: Self)
        ensures
            res.staking_id == 0,
            res.staking_data@ == Map::<StakingID, StakingItem>::empty(),
            res.pending_list@ == Seq::<StakingItem>::empty(),
    {
        Staking { staking_id: 0, staking_data: HashMap::new(), pending_list: Vec::new() }
    }
}

impl Clone for Staking {
    fn clone(&self) -> (res: Self)
        ensures
            res.staking_id == self.staking_id,
            res.staking_data@.dom() == self.staking_data@.dom(),
            forall|k: StakingID| #[trigger] res.staking_data@.contains_key(k) ==> stake_copy(
                res.staking_data@[k],
                self.staking_data@[k],
            ),
            res.pending_list@.len() == self.pending_list@.len(),
            forall|i: int|
                0 <= i < self.pending_list@.len() ==> stake_copy(
                    #[trigger] res.pending_list@[i],
                    self.pending_list@[i],
                ),
    {
        let mut map: HashMap<StakingID, StakingItem> = HashMap::new();
        for k in it: self.staking_data.keys()
            invariant
                forall|j: int| 0 <= j < it.index() ==> #[trigger] map@.contains_key(*it.seq()[j]),
                forall|key: StakingID| #[trigger] map@.contains_key(key) ==> self.staking_data@.contains_key(key)
                    && stake_copy(map@[key], self.staking_data@[key]),
                it.seq().unref().to_set() == self.staking_data@.dom(),
            ensures
                forall|key: StakingID| #[trigger] self.staking_data@.contains_key(key) ==> map@.contains_key(key),
        {
            if let Some(item) = self.staking_data.get(k) {
                map.insert(*k, item.clone());
            }
        }
        assert(map@.dom() =~= self.staking_data@.dom());
        let mut pending: Vec<StakingItem> = Vec::new();
        let mut i: usize = 0;
        while i < self.pending_list.len()
            invariant
                i <= self.pending_list@.len(),
                pending@.len() == i,
                forall|j: int| 0 <= j < i ==> stake_copy(#[trigger] pending@[j], self.pending_list@[j]),
            decreases self.pending_list@.len() - i,
        {
            pending.push(self.pending_list[i].clone());
            i = i + 1;
        }
        Staking { staking_id: self.staking_id, staking_data: map, pending_list: pending }
    }
}

impl Staking {
    /// Every stored identifier is one that was handed out.
    pub open spec fn ids_issued(self) -> bool {
        forall|k: StakingID| #[trigger] self.staking_data@.contains_key(k) ==> 1 <= k <= self.staking_id
    }

    /// Stores `item`, started at `now`, under the next identifier.
    pub fn add(&mut self, item: StakingItem, now: u64) -> (res: Result<(), String>)
        requires
            old(self).staking_id < u64::MAX,
        ensures
            res is Ok,
            final(self).staking_id == old(self).staking_id + 1,
            final(self).staking_data@ == old(self).staking_data@.insert(
                final(self).staking_id,
                (StakingItem { start_time: Some(now), ..item }),
            ),
            final(self).pending_list@ == old(self).pending_list@,
    {
        let mut item = item;
        item.start_time = Some(now);
        self.staking_id = self.staking_id + 1;
        self.staking_data.insert(self.staking_id, item);
        Ok(())
    }
}

} // verus!

verus! {

/// A new record never takes the place of another: its identifier was not in
/// use, and every record keeps an identifier that was handed out.
pub proof fn lemma_add_fresh(before: Staking, after: Staking, item: StakingItem, now: u64)
    requires
        before.ids_issued(),
        after.staking_id == before.staking_id + 1,
        after.staking_data@ == before.staking_data@.insert(after.staking_id, (StakingItem { start_time: Some(now), ..item })),
    ensures
        !before.staking_data@.contains_key(after.staking_id),
        after.ids_issued(),
        after.staking_data@.len() == before.staking_data@.len() + 1,
{
    assert(before.staking_data@.dom().finite());
}

} // verus!
