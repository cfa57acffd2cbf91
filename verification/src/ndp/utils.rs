//! Taking NDP tokens from a caller: check the caller's balance with the token
//! canister, then have the token canister move the amount to the staking
//! canister. The calls are the caller's of these functions; these functions
//! decide what to ask and what the answers mean.
use vstd::prelude::*;
use crate::principal::{Principal, principal_text_bytes};

verus! {

/// Text of the NDP token canister's principal.
pub const NDP_TOKEN_CANISTER_ID_TEXT: &'static str = "vgqnj-miaaa-aaaal-qaapa-cai";

/// Text of the NDP staking canister's principal.
pub const NDP_STAKING_CANISTER_ID_TEXT: &'static str = "eijhz-biaaa-aaaah-abs6q-cai";

/// The number whose base-2^64 digits, least significant first, are `digits`.
pub open spec fn nat_value(digits: Seq<u64>) -> nat
    decreases digits.len(),
{
    if digits.len() == 0 {
        0
    } else {
        digits[0] as nat + 0x1_0000_0000_0000_0000 * nat_value(digits.skip(1))
    }
}

proof fn lemma_all_zero(digits: Seq<u64>)
    requires
        forall|i: int| 0 <= i < digits.len() ==> digits[i] == 0,
    ensures
        nat_value(digits) == 0,
    decreases digits.len(),
{
    if digits.len() > 0 {
        lemma_all_zero(digits.skip(1));
    }
}

proof fn lemma_some_nonzero(digits: Seq<u64>, i: int)
    requires
        0 <= i < digits.len(),
        digits[i] != 0,
    ensures
        nat_value(digits) >= 1,
    decreases digits.len(),
{
    if i > 0 {
        lemma_some_nonzero(digits.skip(1), i - 1);
    }
}

/// Whether the number with base-2^64 digits `digits` is at least `amount`.
pub fn covers(digits: &Vec<u64>, amount: u64) -> (res: bool)
    ensures
        res == (nat_value(digits@) >= amount),
{
    let n = digits.len();
    if n == 0 {
        return amount == 0;
    }
    let mut i: usize = 1;
    while i < n
        invariant
            n == digits@.len(),
            1 <= i <= n,
            forall|j: int| 1 <= j < i ==> digits@[j] == 0,
        decreases n - i,
    {
        if digits[i] != 0 {
            proof {
                lemma_some_nonzero(digits@.skip(1), i - 1);
            }
            return true;
        }
        i = i + 1;
    }
    proof {
        lemma_all_zero(digits@.skip(1));
    }
    digits[0] >= amount
}

/// What a reply to the balance query means: the caller's error where the
/// query failed, "Insufficient balance!" where the balance is below
/// `amount`, else the balance.
pub fn check_ndp_balance(reply: Result<Vec<u64>, String>, amount: u64) -> (res: Result<
    Vec<u64>,
    String,
>)
    ensures
        match reply {
            Err(e) => res == Err::<Vec<u64>, String>(e),
            Ok(balance) => if nat_value(balance@) < amount {
                res matches Err(e) && e@ == "Insufficient balance!"@
            } else {
                res == Ok::<Vec<u64>, String>(balance)
            },
        },
{
    match reply {
        Err(e) => Err(e),
        Ok(balance) => {
            if !covers(&balance, amount) {
                return Err("Insufficient balance!".to_owned());
            }
            Ok(balance)
        },
    }
}

/// What to do next in taking NDP tokens from a caller.
pub enum NdpTransferAction {
    /// Ask the token canister `token` for the balance of `owner`.
    QueryBalance { token: Principal, owner: Principal },
    /// Ask the token canister `token` to move `amount` from `from` to `to`.
    TransferFrom { token: Principal, from: Principal, to: Principal, amount: u64 },
    /// Stop with this outcome: the balance moved, or why not.
    Finish(Result<Vec<u64>, String>),
    /// Stop the canister: one of its own principal texts does not parse.
    Trap,
}

/// The first step: the balance query for `caller`.
pub fn transfer_ndp_start(caller: Principal) -> (res: NdpTransferAction)
    ensures
        match principal_text_bytes(NDP_TOKEN_CANISTER_ID_TEXT@) {
            None => res is Trap,
            Some(t) => (res matches NdpTransferAction::QueryBalance { token, owner } && token@ == t
                && owner@ == caller@),
        },
{
    match Principal::from_text(NDP_TOKEN_CANISTER_ID_TEXT) {
        None => NdpTransferAction::Trap,
        Some(token) => NdpTransferAction::QueryBalance { token, owner: caller },
    }
}

/// The step after the balance query answered `reply`: stop where the
/// balance does not cover `amount`, else ask for the transfer of `amount`
/// from `caller` to the staking canister.
pub fn transfer_ndp_after_balance(
    caller: Principal,
    amount: u64,
    reply: Result<Vec<u64>, String>,
) -> (res: NdpTransferAction)
    ensures
        match reply {
            Err(e) => (res matches NdpTransferAction::Finish(r) && r == Err::<Vec<u64>, String>(e)),
            Ok(balance) => if nat_value(balance@) < amount {
                (res matches NdpTransferAction::Finish(r) && r matches Err(m) && m@
                    == "Insufficient balance!"@)
            } else {
                match (
                    principal_text_bytes(NDP_STAKING_CANISTER_ID_TEXT@),
                    principal_text_bytes(NDP_TOKEN_CANISTER_ID_TEXT@),
                ) {
                    (Some(s), Some(t)) => (res matches NdpTransferAction::TransferFrom {
                        token,
                        from,
                        to,
                        amount: a,
                    } && token@ == t && from@ == caller@ && to@ == s && a == amount),
                    _ => res is Trap,
                }
            },
        },
        match check_result(reply, amount) {
            Err(e) => (res matches NdpTransferAction::Finish(r) && r matches Err(m) && m@ == e),
            Ok(_) => match (
                principal_text_bytes(NDP_STAKING_CANISTER_ID_TEXT@),
                principal_text_bytes(NDP_TOKEN_CANISTER_ID_TEXT@),
            ) {
                (Some(s), Some(t)) => (res matches NdpTransferAction::TransferFrom {
                    token,
                    from,
                    to,
                    amount: a,
                } && token@ == t && from@ == caller@ && to@ == s && a == amount),
                _ => res is Trap,
            },
        },
{
    let checked = check_ndp_balance(reply, amount);
    match checked {
        Err(e) => NdpTransferAction::Finish(Err(e)),
        Ok(_) => {
            let staking = match Principal::from_text(NDP_STAKING_CANISTER_ID_TEXT) {
                Some(p) => p,
                None => {
                    return NdpTransferAction::Trap;
                },
            };
            match Principal::from_text(NDP_TOKEN_CANISTER_ID_TEXT) {
                Some(token) => NdpTransferAction::TransferFrom {
                    token,
                    from: caller,
                    to: staking,
                    amount,
                },
                None => NdpTransferAction::Trap,
            }
        },
    }
}

/// What `check_ndp_balance` makes of a reply, in its error case with the
/// message, else with nothing.
pub open spec fn check_result(reply: Result<Vec<u64>, String>, amount: u64) -> Result<(), Seq<char>> {
    match reply {
        Err(e) => Err(e@),
        Ok(balance) => if nat_value(balance@) < amount {
            Err("Insufficient balance!"@)
        } else {
            Ok(())
        },
    }
}

/// The outcome of the transfer from what the token canister answered: its
/// error where the call failed, "transfer failed!" where the canister
/// refused, else the new balance it reports.
pub fn transfer_ndp_after_transfer(reply: Result<Result<Vec<u64>, ()>, String>) -> (res: Result<
    Vec<u64>,
    String,
>)
    ensures
        match reply {
            Err(e) => res == Err::<Vec<u64>, String>(e),
            Ok(Ok(n)) => res == Ok::<Vec<u64>, String>(n),
            Ok(Err(_)) => (res matches Err(e) && e@ == "transfer failed!"@),
        },
{
    match reply {
        Err(e) => Err(e),
        Ok(Ok(n)) => Ok(n),
        Ok(Err(_)) => Err("transfer failed!".to_owned()),
    }
}

} // verus!

verus! {

/// The balance check refuses exactly when the balance is below the amount:
/// every balance of at least the amount passes, whatever else it is.
pub proof fn lemma_check_result_is_balance_test(reply: Result<Vec<u64>, String>, amount: u64)
    ensures
        match reply {
            Err(e) => check_result(reply, amount) == Err::<(), Seq<char>>(e@),
            Ok(balance) => (check_result(reply, amount) is Ok) <==> nat_value(balance@) >= amount,
        },
{
}

} // verus!

verus! {

/// 2^(64·k): the weight of the base-2^64 digit at position `k`.
pub open spec fn digit_weight(k: nat) -> nat
    decreases k,
{
    if k == 0 {
        1
    } else {
        0x1_0000_0000_0000_0000 * digit_weight((k - 1) as nat)
    }
}

/// Digits are least significant first: a digit added at the end counts at
/// the weight of its position, and the empty list stands for zero.
pub proof fn lemma_nat_value_push(digits: Seq<u64>, d: u64)
    ensures
        nat_value(Seq::<u64>::empty()) == 0,
        nat_value(digits.push(d)) == nat_value(digits) + d * digit_weight(digits.len()),
    decreases digits.len(),
{
    let w: int = 0x1_0000_0000_0000_0000;
    if digits.len() > 0 {
        let rest = digits.skip(1);
        lemma_nat_value_push(rest, d);
        assert(digits.push(d).skip(1) =~= rest.push(d));
        let a: int = nat_value(rest) as int;
        let wk: int = digit_weight(rest.len()) as int;
        let dd: int = d as int;
        assert(nat_value(rest.push(d)) as int == a + dd * wk);
        assert(nat_value(digits.push(d)) as int == digits[0] as int + w * (a + dd * wk));
        assert(nat_value(digits) as int == digits[0] as int + w * a);
        assert(digit_weight(digits.len()) as int == w * wk);
        assert(w * (a + dd * wk) == w * a + dd * (w * wk)) by (nonlinear_arith);
        assert(nat_value(digits.push(d)) as int == nat_value(digits) as int + dd * (digit_weight(
            digits.len(),
        ) as int));
    } else {
        assert(digits.push(d).skip(1) =~= Seq::<u64>::empty());
        assert(nat_value(digits.push(d).skip(1)) == 0);
        assert(nat_value(digits.push(d)) == d as nat);
        assert(digits.len() == 0);
        assert(digit_weight(0) == 1);
        assert(nat_value(digits) == 0);
    }
}

} // verus!
