//! The sites, each under the identifier it was given.
use std::collections::HashMap;
use vstd::prelude::*;
use crate::ndp::types::{SiteItem, site_copy};

verus! {

broadcast use vstd::std_specs::hash::group_hash_axioms;

/// Identifier of a site.
pub type SiteKeyType = u64;

/// The sites and the last identifier handed out.
pub struct SiteDataList {
    pub site_id: SiteKeyType,
    pub site_data: HashMap<SiteKeyType, SiteItem>,
    pub pending_list: Vec<SiteItem>,
}

impl Default for SiteDataList {
    fn default() -> (res: Self)
        ensures
            res.site_id == 0,
            res.site_data@ == Map::<SiteKeyType, SiteItem>::empty(),
            res.pending_list@ == Seq::<SiteItem>::empty(),
    {
        SiteDataList { site_id: 0, site_data: HashMap::new(), pending_list: Vec::new() }
    }
}

impl Clone for SiteDataList {
    fn clone(&self) -> (res: Self)
        ensures
            res.site_id == self.site_id,
            res.site_data@.dom() == self.site_data@.dom(),
            forall|k: SiteKeyType| #[trigger] res.site_data@.contains_key(k) ==> site_copy(
                res.site_data@[k],
                self.site_data@[k],
            ),
            res.pending_list@.len() == self.pending_list@.len(),
            forall|i: int|
                0 <= i < self.pending_list@.len() ==> site_copy(
                    #[trigger] res.pending_list@[i],
                    self.pending_list@[i],
                ),
    {
        let mut map: HashMap<SiteKeyType, SiteItem> = HashMap::new();
        for k in it: self.site_data.keys()
            invariant
                forall|j: int| 0 <= j < it.index() ==> #[trigger] map@.contains_key(*it.seq()[j]),
                forall|key: SiteKeyType| #[trigger] map@.contains_key(key) ==> self.site_data@.contains_key(key)
                    && site_copy(map@[key], self.site_data@[key]),
                it.seq().unref().to_set() == self.site_data@.dom(),
            ensures
                forall|key: SiteKeyType| #[trigger] self.site_data@.contains_key(key) ==> map@.contains_key(key),
        {
            if let Some(item) = self.site_data.get(k) {
                map.insert(*k, item.clone());
            }
        }
        assert(map@.dom() =~= self.site_data@.dom());
        let mut pending: Vec<SiteItem> = Vec::new();
        let mut i: usize = 0;
        while i < self.pending_list.len()
            invariant
                i <= self.pending_list@.len(),
                pending@.len() == i,
                forall|j: int| 0 <= j < i ==> site_copy(#[trigger] pending@[j], self.pending_list@[j]),
            decreases self.pending_list@.len() - i,
        {
            pending.push(self.pending_list[i].clone());
            i = i + 1;
        }
        SiteDataList { site_id: self.site_id, site_data: map, pending_list: pending }
    }
}

impl SiteDataList {
    /// Every stored identifier is one that was handed out.
    pub open spec fn ids_issued(self) -> bool {
        forall|k: SiteKeyType| #[trigger] self.site_data@.contains_key(k) ==> 1 <= k <= self.site_id
    }

    /// Stores `item`, started at `now`, under the next identifier.
    pub fn add_func(&mut self, item: SiteItem, now: u64) -> (res: Result<(), String>)
        requires
            old(self).site_id < u64::MAX,
        ensures
            res is Ok,
            final(self).site_id == old(self).site_id + 1,
            final(self).site_data@ == old(self).site_data@.insert(
                final(self).site_id,
                (SiteItem { site_start_time: Some(now), ..item }),
            ),
            final(self).pending_list@ == old(self).pending_list@,
    {
        let mut item = item;
        item.site_start_time = Some(now);
        self.site_id = self.site_id + 1;
        self.site_data.insert(self.site_id, item);
        Ok(())
    }
}

} // verus!

verus! {

/// A new record never takes the place of another: its identifier was not in
/// use, and every record keeps an identifier that was handed out.
pub proof fn lemma_add_fresh(before: SiteDataList, after: SiteDataList, item: SiteItem, now: u64)
    requires
        before.ids_issued(),
        after.site_id == before.site_id + 1,
        after.site_data@ == before.site_data@.insert(after.site_id, (SiteItem { site_start_time: Some(now), ..item })),
    ensures
        !before.site_data@.contains_key(after.site_id),
        after.ids_issued(),
        after.site_data@.len() == before.site_data@.len() + 1,
{
    assert(before.site_data@.dom().finite());
}

} // verus!
