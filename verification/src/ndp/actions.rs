//! What the NDP canister decides when a caller stakes or registers a site.
use vstd::prelude::*;
use crate::principal::Principal;
use crate::ndp::types::{StakingItem, SiteItem, TokenType};
use crate::ndp::staking::Staking;
use crate::ndp::sitedata::SiteDataList;

verus! {

/// Smallest amount that can be staked, in the token's smallest unit.
pub const MIN_STAKING_AMOUNT: u64 = 100_000_000_000;

/// The amount of a stake of `token`.
pub open spec fn stake_amount(token: TokenType) -> u64 {
    match token {
        TokenType::NDP(amount) => amount,
    }
}

/// The amount of `arg` to take from the caller, or why it cannot be staked.
pub fn check_staking_amount(arg: &StakingItem) -> (res: Result<u64, String>)
    ensures
        match arg.token {
            TokenType::NDP(amount) => if amount < MIN_STAKING_AMOUNT {
                res matches Err(e) && e@ == "Minimum quantity is 100000000000"@
            } else {
                res == Ok::<u64, String>(amount)
            },
        },
{
    match arg.token {
        TokenType::NDP(amount) => {
            if amount < MIN_STAKING_AMOUNT {
                return Err("Minimum quantity is 100000000000".to_owned());
            }
            Ok(amount)
        },
    }
}

/// Records the stake `arg` of `caller`, started at `now`, once the transfer
/// of its amount has had the outcome `transfer`. A stake below the minimum is
/// refused with the minimum's message (no transfer is asked for it); a failed
/// transfer is answered with its error. Neither records anything.
pub fn add_staking(
    staking: &mut Staking,
    arg: StakingItem,
    caller: Principal,
    transfer: Result<(), String>,
    now: u64,
) -> (res: Result<(), String>)
    requires
        transfer is Ok && stake_amount(arg.token) >= MIN_STAKING_AMOUNT ==> old(staking).staking_id
            < u64::MAX,
    ensures
        stake_amount(arg.token) < MIN_STAKING_AMOUNT ==> (res matches Err(e) && e@
            == "Minimum quantity is 100000000000"@) && *final(staking) == *old(staking),
        stake_amount(arg.token) >= MIN_STAKING_AMOUNT ==> match transfer {
            Ok(_) => {
                &&& res is Ok
                &&& final(staking).staking_id == old(staking).staking_id + 1
                &&& final(staking).staking_data@ == old(staking).staking_data@.insert(
                    final(staking).staking_id,
                    (StakingItem { principal: Some(caller), start_time: Some(now), ..arg }),
                )
                &&& final(staking).pending_list@ == old(staking).pending_list@
            },
            Err(e) => res == Err::<(), String>(e) && *final(staking) == *old(staking),
        },
{
    let mut arg = arg;
    arg.principal = Some(caller);
    check_staking_amount(&arg)?;
    match transfer {
        Err(e) => Err(e),
        Ok(_) => staking.add(arg, now),
    }
}

/// Records the site `arg` of `caller`, started at `now`.
pub fn add_site_data(list: &mut SiteDataList, arg: SiteItem, caller: Principal, now: u64) -> (res:
    Result<(), String>)
    requires
        old(list).site_id < u64::MAX,
    ensures
        res is Ok,
        final(list).site_id == old(list).site_id + 1,
        final(list).site_data@ == old(list).site_data@.insert(
            final(list).site_id,
            (SiteItem { principal: Some(caller), site_start_time: Some(now), ..arg }),
        ),
        final(list).pending_list@ == old(list).pending_list@,
{
    let mut arg = arg;
    arg.principal = Some(caller);
    list.add_func(arg, now)
}

} // verus!
