//! The manager's registry: the podcast canisters of each user, the canisters
//! that still run an old version, and the sub-accounts where users pay.
use vstd::prelude::*;
use crate::principal::{
    Principal, principal_seq, copy_principals, contains_principal, without_principal, lemma_without, without_seq,
};
use crate::principal_map::PrincipalMap;
use crate::manager::ic_wallet::{
    Subaccount, default_subaccount, get_account, account_identifier, lower_hex,
};

verus! {

/// The number of the next payment sub-account after `n`: one more, and one
/// again after the largest number.
pub open spec fn next_sub_account_num(n: u128) -> u128 {
    if n == u128::MAX {
        1
    } else {
        (n + 1) as u128
    }
}

/// Byte `i` of the sub-account numbered `num`: sixteen zero bytes, then the
/// number's sixteen bytes, most significant first.
pub open spec fn sub_account_byte(num: u128, i: int) -> u8 {
    if i < 16 {
        0u8
    } else {
        ((num >> (((31 - i) * 8) as u32)) & 0xff) as u8
    }
}

/// The bytes of the sub-account numbered `num`.
pub open spec fn sub_account_bytes(num: u128) -> Seq<u8> {
    Seq::new(32, |i: int| sub_account_byte(num, i))
}

/// The lists of `order`'s keys in `lists`, one after the other.
pub open spec fn lists_in_order(
    order: Seq<Seq<u8>>,
    lists: Map<Seq<u8>, Seq<Seq<u8>>>,
) -> Seq<Seq<u8>>
    decreases order.len(),
{
    if order.len() == 0 {
        Seq::empty()
    } else {
        lists_in_order(order.drop_last(), lists) + lists[order.last()]
    }
}

/// The manager's state.
pub struct ManagerService {
    /// Each user's podcast canisters, in the order they were made.
    pub canister_list: PrincipalMap<Vec<Principal>>,
    /// Canisters that still run the version before the last upgrade notice.
    pub old_version_list: Vec<Principal>,
    /// The sub-account where each user is to pay.
    pub advance_payment: PrincipalMap<Subaccount>,
    /// The number of the last sub-account handed out.
    pub sub_account_num: u128,
}

impl Default for ManagerService {
    fn default() -> (res: Self)
        ensures
            res.canister_lists() == Map::<Seq<u8>, Seq<Seq<u8>>>::empty(),
            res.canister_list.order() == Seq::<Seq<u8>>::empty(),
            res.old_version_list@ == Seq::<Principal>::empty(),
            res.advance_payment@ == Map::<Seq<u8>, Subaccount>::empty(),
            res.sub_account_num == 0,
    {
        let res = ManagerService {
            canister_list: PrincipalMap::new(),
            old_version_list: Vec::new(),
            advance_payment: PrincipalMap::new(),
            sub_account_num: 0,
        };
        assert(res.canister_lists() =~= Map::<Seq<u8>, Seq<Seq<u8>>>::empty());
        res
    }
}

impl Clone for ManagerService {
    fn clone(&self) -> (res: Self)
        ensures
            res.canister_lists() == self.canister_lists(),
            res.canister_list.order() == self.canister_list.order(),
            res.old_versions() == self.old_versions(),
            res.advance_payment@ == self.advance_payment@,
            res.advance_payment.order() == self.advance_payment.order(),
            res.sub_account_num == self.sub_account_num,
    {
        let mut lists: PrincipalMap<Vec<Principal>> = PrincipalMap::new();
        let n = self.canister_list.len();
        self.canister_list.keys_distinct();
        proof {
            self.canister_list.lemma_order();
        }
        let mut i: usize = 0;
        while i < n
            invariant
                n == self.canister_list.order().len(),
                i <= n,
                self.canister_list.order().no_duplicates(),
                forall|k: Seq<u8>| #[trigger] self.canister_list@.contains_key(k) <==> self.canister_list.order().contains(k),
                lists.order() == self.canister_list.order().take(i as int),
                forall|k: Seq<u8>| #[trigger] lists@.contains_key(k) ==> self.canister_list@.contains_key(k)
                    && principal_seq(lists@[k]@) == principal_seq(self.canister_list@[k]@),
            decreases n - i,
        {
            let key = self.canister_list.key_at(i).duplicate();
            let value = copy_principals(self.canister_list.value_at(i));
            proof {
                lists.lemma_order();
                let order = self.canister_list.order();
                if lists.order().contains(key@) {
                    let j = choose|j: int| 0 <= j < lists.order().len() && lists.order()[j] == key@;
                    assert(order[j] == order[i as int]);
                }
            }
            lists.insert(key, value);
            assert(lists.order() =~= self.canister_list.order().take(i + 1));
            i = i + 1;
        }
        proof {
            lists.lemma_order();
            assert(self.canister_list.order().take(n as int) =~= self.canister_list.order());
            assert(lists@.dom() =~= self.canister_list@.dom());
        }
        let mut payments: PrincipalMap<Subaccount> = PrincipalMap::new();
        let m = self.advance_payment.len();
        self.advance_payment.keys_distinct();
        proof {
            self.advance_payment.lemma_order();
        }
        let mut i: usize = 0;
        while i < m
            invariant
                m == self.advance_payment.order().len(),
                i <= m,
                self.advance_payment.order().no_duplicates(),
                forall|k: Seq<u8>| #[trigger] self.advance_payment@.contains_key(k) <==> self.advance_payment.order().contains(k),
                payments.order() == self.advance_payment.order().take(i as int),
                forall|k: Seq<u8>| #[trigger] payments@.contains_key(k) ==> self.advance_payment@.contains_key(k)
                    && payments@[k] == self.advance_payment@[k],
            decreases m - i,
        {
            let key = self.advance_payment.key_at(i).duplicate();
            let value = *self.advance_payment.value_at(i);
            proof {
                payments.lemma_order();
                let order = self.advance_payment.order();
                if payments.order().contains(key@) {
                    let j = choose|j: int| 0 <= j < payments.order().len() && payments.order()[j] == key@;
                    assert(order[j] == order[i as int]);
                }
            }
            payments.insert(key, value);
            assert(payments.order() =~= self.advance_payment.order().take(i + 1));
            i = i + 1;
        }
        proof {
            payments.lemma_order();
            assert(self.advance_payment.order().take(m as int) =~= self.advance_payment.order());
            assert(payments@ =~= self.advance_payment@);
        }
        let res = ManagerService {
            canister_list: lists,
            old_version_list: copy_principals(&self.old_version_list),
            advance_payment: payments,
            sub_account_num: self.sub_account_num,
        };
        assert(res.canister_lists() =~= self.canister_lists());
        res
    }
}

impl ManagerService {
    /// Each user's canisters, as bytes.
    pub open spec fn canister_lists(self) -> Map<Seq<u8>, Seq<Seq<u8>>> {
        self.canister_list@.map_values(|v: Vec<Principal>| principal_seq(v@))
    }

    /// The canisters of `caller`, as bytes; none where `caller` has none.
    pub open spec fn canisters_of(self, caller: Seq<u8>) -> Seq<Seq<u8>> {
        if self.canister_lists().contains_key(caller) {
            self.canister_lists()[caller]
        } else {
            Seq::empty()
        }
    }

    /// The canisters that await an upgrade, as bytes.
    pub open spec fn old_versions(self) -> Seq<Seq<u8>> {
        principal_seq(self.old_version_list@)
    }

    /// Records `canister` as the newest canister of `caller`.
    pub fn add_canister(&mut self, caller: Principal, canister: Principal)
        ensures
            final(self).canister_lists() == old(self).canister_lists().insert(
                caller@,
                old(self).canisters_of(caller@).push(canister@),
            ),
            old(self).canister_lists().contains_key(caller@) ==> final(self).canister_list.order()
                == old(self).canister_list.order(),
            !old(self).canister_lists().contains_key(caller@)
                ==> final(self).canister_list.order() == old(self).canister_list.order().push(
                caller@,
            ),
            final(self).old_version_list@ == old(self).old_version_list@,
            final(self).advance_payment@ == old(self).advance_payment@,
            final(self).sub_account_num == old(self).sub_account_num,
    {
        let ghost c = canister@;
        let list = match self.canister_list.get(&caller) {
            Some(existing) => {
                let mut list = copy_principals(existing);
                list.push(canister);
                assert(principal_seq(list@) =~= old(self).canisters_of(caller@).push(c));
                list
            },
            None => {
                let mut list: Vec<Principal> = Vec::new();
                list.push(canister);
                assert(principal_seq(list@) =~= old(self).canisters_of(caller@).push(c));
                list
            },
        };
        let ghost k = caller@;
        let ghost new_list = list;
        self.canister_list.insert(caller, list);
        assert(self.canister_lists() =~= old(self).canister_lists().insert(
            k,
            principal_seq(new_list@),
        ));
    }

    /// The canisters of `caller`, oldest first; none where `caller` has none.
    pub fn get_podcast_canister(&self, caller: Principal) -> (res: Vec<Principal>)
        ensures
            principal_seq(res@) == self.canisters_of(caller@),
    {
        match self.canister_list.get(&caller) {
            Some(list) => copy_principals(list),
            None => {
                let res: Vec<Principal> = Vec::new();
                assert(principal_seq(res@) =~= Seq::<Seq<u8>>::empty());
                res
            },
        }
    }

    /// The canisters that await an upgrade.
    pub fn get_old_version_podcast_canister(&self) -> (res: Vec<Principal>)
        ensures
            principal_seq(res@) == self.old_versions(),
    {
        copy_principals(&self.old_version_list)
    }

    /// Marks every canister of every user as awaiting an upgrade: their lists,
    /// user by user in the order of the registry, go after those already
    /// marked.
    pub fn upgrade_podcast(&mut self)
        ensures
            final(self).old_versions() == old(self).old_versions() + lists_in_order(
                old(self).canister_list.order(),
                old(self).canister_lists(),
            ),
            final(self).canister_lists() == old(self).canister_lists(),
            final(self).canister_list.order() == old(self).canister_list.order(),
            final(self).advance_payment@ == old(self).advance_payment@,
            final(self).sub_account_num == old(self).sub_account_num,
    {
        let n = self.canister_list.len();
        let mut i: usize = 0;
        while i < n
            invariant
                n == self.canister_list.order().len(),
                i <= n,
                self.canister_list == old(self).canister_list,
                self.advance_payment == old(self).advance_payment,
                self.sub_account_num == old(self).sub_account_num,
                self.old_versions() =~= old(self).old_versions() + lists_in_order(
                    self.canister_list.order().take(i as int),
                    self.canister_lists(),
                ),
            decreases n - i,
        {
            let mut copy = copy_principals(self.canister_list.value_at(i));
            let ghost before = self.old_version_list@;
            let ghost added = copy@;
            self.old_version_list.append(&mut copy);
            proof {
                let order = self.canister_list.order();
                assert(order.take(i + 1).drop_last() =~= order.take(i as int));
                assert(order.take(i + 1).last() == order[i as int]);
                assert(principal_seq(before + added) =~= principal_seq(before) + principal_seq(
                    added,
                ));
            }
            i = i + 1;
        }
        assert(self.canister_list.order().take(n as int) =~= self.canister_list.order());
    }

    /// Whether `canister_id` awaits an upgrade.
    pub fn need_upgrade(&self, canister_id: Principal) -> (res: bool)
        ensures
            res == self.old_versions().contains(canister_id@),
    {
        contains_principal(&self.old_version_list, &canister_id)
    }

    /// Marks `canister_id` as upgraded: it no longer awaits an upgrade, and
    /// the others keep their order.
    pub fn upgrade_canister(&mut self, canister_id: Principal)
        ensures
            final(self).old_versions() == without_seq(old(self).old_versions(), canister_id@),
            final(self).canister_lists() == old(self).canister_lists(),
            final(self).canister_list.order() == old(self).canister_list.order(),
            final(self).advance_payment@ == old(self).advance_payment@,
            final(self).sub_account_num == old(self).sub_account_num,
    {
        self.old_version_list = without_principal(&self.old_version_list, &canister_id);
    }

    /// Whether `canister` is one of the canisters of `caller`.
    pub fn owner_canister(&self, caller: Principal, canister: Principal) -> (res: bool)
        ensures
            res == self.canisters_of(caller@).contains(canister@),
    {
        match self.canister_list.get(&caller) {
            Some(list) => contains_principal(list, &canister),
            None => false,
        }
    }

    /// Steps the sub-account number on and returns it.
    fn get_new_sub_account_num(&mut self) -> (res: u128)
        ensures
            res == next_sub_account_num(old(self).sub_account_num),
            old(self).sub_account_num < u128::MAX ==> res == old(self).sub_account_num + 1,
            old(self).sub_account_num == u128::MAX ==> res == 1,
            final(self).sub_account_num == res,
            final(self).canister_list == old(self).canister_list,
            final(self).old_version_list == old(self).old_version_list,
            final(self).advance_payment == old(self).advance_payment,
    {
        if self.sub_account_num == u128::MAX {
            self.sub_account_num = 1;
            return 1;
        }
        self.sub_account_num = self.sub_account_num + 1;
        self.sub_account_num
    }

    /// Hands out the next sub-account: the one numbered by the next number.
    fn get_transaction_sub_account(&mut self) -> (res: Subaccount)
        ensures
            final(self).sub_account_num == next_sub_account_num(old(self).sub_account_num),
            res@ == sub_account_bytes(final(self).sub_account_num),
            final(self).canister_list == old(self).canister_list,
            final(self).old_version_list == old(self).old_version_list,
            final(self).advance_payment == old(self).advance_payment,
    {
        let num = self.get_new_sub_account_num();
        let mut sub = default_subaccount();
        let mut index: usize = 0;
        while index < 16
            invariant
                index <= 16,
                sub@.len() == 32,
                forall|j: int| 0 <= j < 32 - index ==> sub@[j] == 0u8,
                forall|j: int| 32 - index <= j < 32 ==> sub@[j] == sub_account_byte(num, j),
            decreases 16 - index,
        {
            let item = ((num >> ((index as u32) * 8)) & 0xff) as u8;
            sub.0[31 - index] = item;
            proof {
                let j = 31 - index as int;
                assert(((31 - j) * 8) as u32 == (index as u32) * 8);
            }
            index = index + 1;
        }
        assert(sub@ =~= sub_account_bytes(num));
        sub
    }

    /// Gives `caller` a fresh sub-account of `canister` to pay into, and
    /// returns the hexadecimal text of that ledger account.
    pub fn advance_payment_addr(&mut self, canister: Principal, caller: Principal) -> (res:
        String)
        ensures
            final(self).sub_account_num == next_sub_account_num(old(self).sub_account_num),
            old(self).sub_account_num < u128::MAX ==> final(self).sub_account_num == old(
                self,
            ).sub_account_num + 1,
            old(self).sub_account_num == u128::MAX ==> final(self).sub_account_num == 1,
            final(self).advance_payment@.contains_key(caller@),
            final(self).advance_payment@.remove(caller@) == old(self).advance_payment@.remove(
                caller@,
            ),
            final(self).advance_payment@[caller@]@ == sub_account_bytes(final(self).sub_account_num),
            res@ == lower_hex(
                account_identifier(canister@, sub_account_bytes(final(self).sub_account_num)),
            ),
            final(self).canister_list == old(self).canister_list,
            final(self).old_version_list == old(self).old_version_list,
    {
        let sub = self.get_transaction_sub_account();
        self.advance_payment.insert(caller, sub);
        get_account(canister, sub)
    }

    /// The sub-account where `caller` is to pay, if any.
    pub fn get_sub_account(&self, caller: Principal) -> (res: Option<Subaccount>)
        ensures
            match res {
                Some(sub) => self.advance_payment@.contains_key(caller@) && sub
                    == self.advance_payment@[caller@],
                None => !self.advance_payment@.contains_key(caller@),
            },
    {
        match self.advance_payment.get(&caller) {
            Some(sub) => Some(*sub),
            None => None,
        }
    }

    /// Forgets the sub-account of `caller`.
    pub fn del_sub_account(&mut self, caller: Principal)
        ensures
            final(self).advance_payment@ == old(self).advance_payment@.remove(caller@),
            final(self).canister_list == old(self).canister_list,
            final(self).old_version_list == old(self).old_version_list,
            final(self).sub_account_num == old(self).sub_account_num,
    {
        self.advance_payment.remove(&caller);
    }
}

} // verus!

verus! {

proof fn lemma_listed_in_order(order: Seq<Seq<u8>>, lists: Map<Seq<u8>, Seq<Seq<u8>>>, k: int, c: Seq<u8>)
    requires
        0 <= k < order.len(),
        lists[order[k]].contains(c),
    ensures
        lists_in_order(order, lists).contains(c),
    decreases order.len(),
{
    let rest = lists_in_order(order.drop_last(), lists);
    let last = lists[order.last()];
    if k == order.len() - 1 {
        let j = choose|j: int| 0 <= j < last.len() && last[j] == c;
        assert((rest + last)[rest.len() + j] == c);
    } else {
        lemma_listed_in_order(order.drop_last(), lists, k, c);
        let j = choose|j: int| 0 <= j < rest.len() && rest[j] == c;
        assert((rest + last)[j] == c);
    }
}

/// After an upgrade notice, every canister of every user awaits an upgrade,
/// and so does every canister that awaited one before.
pub proof fn lemma_notice_marks_every_canister(
    before: ManagerService,
    after: ManagerService,
    user: Seq<u8>,
    canister: Seq<u8>,
)
    requires
        after.old_versions() == before.old_versions() + lists_in_order(
            before.canister_list.order(),
            before.canister_lists(),
        ),
        before.canisters_of(user).contains(canister) || before.old_versions().contains(canister),
    ensures
        after.old_versions().contains(canister),
{
    let old_list = before.old_versions();
    let added = lists_in_order(before.canister_list.order(), before.canister_lists());
    if before.old_versions().contains(canister) {
        let j = choose|j: int| 0 <= j < old_list.len() && old_list[j] == canister;
        assert((old_list + added)[j] == canister);
    } else {
        before.canister_list.lemma_order();
        assert(before.canister_list@.contains_key(user));
        let order = before.canister_list.order();
        let k = choose|k: int| 0 <= k < order.len() && order[k] == user;
        lemma_listed_in_order(order, before.canister_lists(), k, canister);
        let j = choose|j: int| 0 <= j < added.len() && added[j] == canister;
        assert((old_list + added)[old_list.len() + j] == canister);
    }
}

/// After a canister is marked as upgraded it no longer awaits an upgrade,
/// and every other canister that awaited one still does.
pub proof fn lemma_upgraded_canister_leaves_list(
    before: ManagerService,
    after: ManagerService,
    upgraded: Seq<u8>,
    other: Seq<u8>,
)
    requires
        after.old_versions() == without_seq(before.old_versions(), upgraded),
    ensures
        !after.old_versions().contains(upgraded),
        other != upgraded ==> (after.old_versions().contains(other) <==> before.old_versions().contains(other)),
{
    lemma_without(before.old_versions(), upgraded, other);
}

/// A canister added for a user is that user's newest canister, and the
/// user owns it; the canisters of every other user stay as they were.
pub proof fn lemma_added_canister_is_owned(
    before: ManagerService,
    after: ManagerService,
    caller: Seq<u8>,
    canister: Seq<u8>,
    other: Seq<u8>,
)
    requires
        after.canister_lists() == before.canister_lists().insert(
            caller,
            before.canisters_of(caller).push(canister),
        ),
    ensures
        after.canisters_of(caller) == before.canisters_of(caller).push(canister),
        after.canisters_of(caller).contains(canister),
        other != caller ==> after.canisters_of(other) == before.canisters_of(other),
{
    let l = before.canisters_of(caller).push(canister);
    assert(l[l.len() - 1] == canister);
}

proof fn lemma_bytes_determine_number(a: u128, b: u128)
    requires
        ((a >> 0u32) & 0xff) as u8 == ((b >> 0u32) & 0xff) as u8,
        ((a >> 8u32) & 0xff) as u8 == ((b >> 8u32) & 0xff) as u8,
        ((a >> 16u32) & 0xff) as u8 == ((b >> 16u32) & 0xff) as u8,
        ((a >> 24u32) & 0xff) as u8 == ((b >> 24u32) & 0xff) as u8,
        ((a >> 32u32) & 0xff) as u8 == ((b >> 32u32) & 0xff) as u8,
        ((a >> 40u32) & 0xff) as u8 == ((b >> 40u32) & 0xff) as u8,
        ((a >> 48u32) & 0xff) as u8 == ((b >> 48u32) & 0xff) as u8,
        ((a >> 56u32) & 0xff) as u8 == ((b >> 56u32) & 0xff) as u8,
        ((a >> 64u32) & 0xff) as u8 == ((b >> 64u32) & 0xff) as u8,
        ((a >> 72u32) & 0xff) as u8 == ((b >> 72u32) & 0xff) as u8,
        ((a >> 80u32) & 0xff) as u8 == ((b >> 80u32) & 0xff) as u8,
        ((a >> 88u32) & 0xff) as u8 == ((b >> 88u32) & 0xff) as u8,
        ((a >> 96u32) & 0xff) as u8 == ((b >> 96u32) & 0xff) as u8,
        ((a >> 104u32) & 0xff) as u8 == ((b >> 104u32) & 0xff) as u8,
        ((a >> 112u32) & 0xff) as u8 == ((b >> 112u32) & 0xff) as u8,
        ((a >> 120u32) & 0xff) as u8 == ((b >> 120u32) & 0xff) as u8,
    ensures
        a == b,
{
    assert(a == b) by (bit_vector)
        requires
            ((a >> 0u32) & 0xff) as u8 == ((b >> 0u32) & 0xff) as u8,
            ((a >> 8u32) & 0xff) as u8 == ((b >> 8u32) & 0xff) as u8,
            ((a >> 16u32) & 0xff) as u8 == ((b >> 16u32) & 0xff) as u8,
            ((a >> 24u32) & 0xff) as u8 == ((b >> 24u32) & 0xff) as u8,
            ((a >> 32u32) & 0xff) as u8 == ((b >> 32u32) & 0xff) as u8,
            ((a >> 40u32) & 0xff) as u8 == ((b >> 40u32) & 0xff) as u8,
            ((a >> 48u32) & 0xff) as u8 == ((b >> 48u32) & 0xff) as u8,
            ((a >> 56u32) & 0xff) as u8 == ((b >> 56u32) & 0xff) as u8,
            ((a >> 64u32) & 0xff) as u8 == ((b >> 64u32) & 0xff) as u8,
            ((a >> 72u32) & 0xff) as u8 == ((b >> 72u32) & 0xff) as u8,
            ((a >> 80u32) & 0xff) as u8 == ((b >> 80u32) & 0xff) as u8,
            ((a >> 88u32) & 0xff) as u8 == ((b >> 88u32) & 0xff) as u8,
            ((a >> 96u32) & 0xff) as u8 == ((b >> 96u32) & 0xff) as u8,
            ((a >> 104u32) & 0xff) as u8 == ((b >> 104u32) & 0xff) as u8,
            ((a >> 112u32) & 0xff) as u8 == ((b >> 112u32) & 0xff) as u8,
            ((a >> 120u32) & 0xff) as u8 == ((b >> 120u32) & 0xff) as u8,
    ;
}

/// Different sub-account numbers give different sub-accounts.
pub proof fn lemma_sub_accounts_distinct(a: u128, b: u128)
    requires
        a != b,
    ensures
        sub_account_bytes(a) != sub_account_bytes(b),
{
    if sub_account_bytes(a) == sub_account_bytes(b) {
        assert forall|i: int| 16 <= i < 32 implies sub_account_byte(a, i) == sub_account_byte(
            b,
            i,
        ) by {
            assert(sub_account_bytes(a)[i] == sub_account_bytes(b)[i]);
        }
        assert(sub_account_byte(a, 31) == sub_account_byte(b, 31));
        assert(sub_account_byte(a, 30) == sub_account_byte(b, 30));
        assert(sub_account_byte(a, 29) == sub_account_byte(b, 29));
        assert(sub_account_byte(a, 28) == sub_account_byte(b, 28));
        assert(sub_account_byte(a, 27) == sub_account_byte(b, 27));
        assert(sub_account_byte(a, 26) == sub_account_byte(b, 26));
        assert(sub_account_byte(a, 25) == sub_account_byte(b, 25));
        assert(sub_account_byte(a, 24) == sub_account_byte(b, 24));
        assert(sub_account_byte(a, 23) == sub_account_byte(b, 23));
        assert(sub_account_byte(a, 22) == sub_account_byte(b, 22));
        assert(sub_account_byte(a, 21) == sub_account_byte(b, 21));
        assert(sub_account_byte(a, 20) == sub_account_byte(b, 20));
        assert(sub_account_byte(a, 19) == sub_account_byte(b, 19));
        assert(sub_account_byte(a, 18) == sub_account_byte(b, 18));
        assert(sub_account_byte(a, 17) == sub_account_byte(b, 17));
        assert(sub_account_byte(a, 16) == sub_account_byte(b, 16));
        lemma_bytes_determine_number(a, b);
    }
}

/// The account whose balance is checked before a user's podcast canister is
/// made is the one whose text the user was given as payment address: the
/// account of the manager canister under the sub-account recorded for the
/// user.
pub proof fn lemma_payment_address_is_checked_account(
    after_addr: ManagerService,
    manager_canister: Seq<u8>,
    caller: Seq<u8>,
    address: Seq<char>,
    checked_account: Seq<u8>,
)
    requires
        after_addr.advance_payment@.contains_key(caller),
        after_addr.advance_payment@[caller]@ == sub_account_bytes(after_addr.sub_account_num),
        address == lower_hex(
            account_identifier(manager_canister, sub_account_bytes(after_addr.sub_account_num)),
        ),
        checked_account == account_identifier(manager_canister, after_addr.advance_payment@[caller]@),
    ensures
        address == lower_hex(checked_account),
{
}

/// Two payment addresses handed out one after the other are different
/// sub-accounts, and no sub-account number handed out is zero.
pub proof fn lemma_consecutive_sub_accounts_differ(n: u128)
    ensures
        next_sub_account_num(n) != 0,
        sub_account_bytes(next_sub_account_num(n)) != sub_account_bytes(
            next_sub_account_num(next_sub_account_num(n)),
        ),
{
    lemma_sub_accounts_distinct(next_sub_account_num(n), next_sub_account_num(next_sub_account_num(n)));
}

} // verus!

verus! {

/// The sub-account number after `k` payment addresses handed out from the
/// number `n`.
pub open spec fn sub_account_num_after(n: u128, k: nat) -> u128
    decreases k,
{
    if k == 0 {
        n
    } else {
        next_sub_account_num(sub_account_num_after(n, (k - 1) as nat))
    }
}

/// The next sub-account number is one more, but after the largest number,
/// which is followed by 1.
pub proof fn lemma_next_number(n: u128)
    ensures
        n < u128::MAX ==> next_sub_account_num(n) == n + 1,
        n == u128::MAX ==> next_sub_account_num(n) == 1,
{
}

/// Before the counter reaches its largest value, handing out `k` payment
/// addresses from the number `n` counts up to `n + k`: from a fresh manager,
/// the k-th address uses sub-account number k.
pub proof fn lemma_sub_account_numbers_count_up(n: u128, k: nat)
    requires
        n + k <= u128::MAX,
    ensures
        sub_account_num_after(n, k) == n + k,
    decreases k,
{
    if k > 0 {
        lemma_sub_account_numbers_count_up(n, (k - 1) as nat);
    }
}

/// Before the counter reaches its largest value, no two payment addresses
/// handed out share a sub-account.
pub proof fn lemma_payment_sub_accounts_never_repeat(n: u128, i: nat, j: nat)
    requires
        i < j,
        n + j <= u128::MAX,
    ensures
        sub_account_bytes(sub_account_num_after(n, i)) != sub_account_bytes(
            sub_account_num_after(n, j),
        ),
{
    lemma_sub_account_numbers_count_up(n, i);
    lemma_sub_account_numbers_count_up(n, j);
    lemma_sub_accounts_distinct(sub_account_num_after(n, i), sub_account_num_after(n, j));
}

} // verus!

verus! {

/// The number whose big-endian bytes are `bytes`.
pub open spec fn big_endian_value(bytes: Seq<u8>) -> nat
    decreases bytes.len(),
{
    if bytes.len() == 0 {
        0
    } else {
        big_endian_value(bytes.drop_last()) * 256 + bytes.last() as nat
    }
}

proof fn lemma_shift_step(n: u128, s: u32)
    requires
        s <= 120,
    ensures
        (n >> s) as int == ((n >> ((s + 8) as u32)) as int) * 256 + (((n >> s) & 0xff) as u8) as int,
{
    assert(((n >> s) as int) == ((n >> ((s + 8) as u32)) as int) * 256 + (((n >> s) & 0xff) as u8) as int)
        by (bit_vector)
        requires
            s <= 120,
    ;
}

proof fn lemma_prefix_value(n: u128, m: nat)
    requires
        m <= 16,
    ensures
        big_endian_value(sub_account_bytes(n).subrange(16, 16 + m as int)) as int == (n >> ((
        (16 - m) * 8) as u32)) as int,
    decreases m,
{
    let bytes = sub_account_bytes(n);
    if m == 0 {
        assert(bytes.subrange(16, 16) =~= Seq::<u8>::empty());
        assert((n >> 128u32) == 0u128) by (bit_vector);
    } else {
        lemma_prefix_value(n, (m - 1) as nat);
        let pre = bytes.subrange(16, 16 + m as int);
        assert(pre.drop_last() =~= bytes.subrange(16, 16 + m - 1));
        let s = ((16 - m) * 8) as u32;
        assert(((16 - (m - 1)) * 8) as u32 == s + 8);
        assert(pre.last() == sub_account_byte(n, 15 + m as int));
        assert(((31 - (15 + m)) * 8) as u32 == s);
        lemma_shift_step(n, s);
    }
}

/// A payment sub-account is sixteen zero bytes followed by its number in
/// sixteen big-endian bytes: reading those bytes back gives the number.
pub proof fn lemma_sub_account_layout(n: u128)
    ensures
        sub_account_bytes(n).len() == 32,
        forall|i: int| 0 <= i < 16 ==> #[trigger] sub_account_bytes(n)[i] == 0,
        big_endian_value(sub_account_bytes(n).subrange(16, 32)) == n,
{
    lemma_prefix_value(n, 16);
    assert((n >> 0u32) == n) by (bit_vector);
}

} // verus!

verus! {

proof fn lemma_in_order_comes_from_a_list(
    order: Seq<Seq<u8>>,
    lists: Map<Seq<u8>, Seq<Seq<u8>>>,
    c: Seq<u8>,
)
    requires
        lists_in_order(order, lists).contains(c),
    ensures
        exists|k: int| 0 <= k < order.len() && #[trigger] lists[order[k]].contains(c),
    decreases order.len(),
{
    if order.len() > 0 {
        let rest = lists_in_order(order.drop_last(), lists);
        let last = lists[order.last()];
        let all = rest + last;
        let j = choose|j: int| 0 <= j < all.len() && all[j] == c;
        if j < rest.len() {
            assert(rest[j] == c);
            lemma_in_order_comes_from_a_list(order.drop_last(), lists, c);
            let k = choose|k: int| 0 <= k < order.drop_last().len() && #[trigger] lists[order.drop_last()[k]].contains(c);
            assert(order[k] == order.drop_last()[k]);
        } else {
            assert(last[j - rest.len()] == c);
            assert(lists[order[order.len() - 1]].contains(c));
        }
    }
}

/// An upgrade notice marks nothing but canisters of users and those already
/// marked.
pub proof fn lemma_notice_marks_only_listed_canisters(
    before: ManagerService,
    after: ManagerService,
    canister: Seq<u8>,
)
    requires
        after.old_versions() == before.old_versions() + lists_in_order(
            before.canister_list.order(),
            before.canister_lists(),
        ),
        after.old_versions().contains(canister),
    ensures
        before.old_versions().contains(canister) || exists|user: Seq<u8>|
            #[trigger] before.canisters_of(user).contains(canister),
{
    let old_list = before.old_versions();
    let added = lists_in_order(before.canister_list.order(), before.canister_lists());
    let all = old_list + added;
    let j = choose|j: int| 0 <= j < all.len() && all[j] == canister;
    if j < old_list.len() {
        assert(old_list[j] == canister);
    } else {
        assert(added[j - old_list.len()] == canister);
        lemma_in_order_comes_from_a_list(before.canister_list.order(), before.canister_lists(), canister);
        let order = before.canister_list.order();
        let k = choose|k: int| 0 <= k < order.len() && #[trigger] before.canister_lists()[order[k]].contains(canister);
        before.canister_list.lemma_order();
        assert(before.canister_list@.contains_key(order[k]));
        assert(before.canisters_of(order[k]).contains(canister));
    }
}

} // verus!
