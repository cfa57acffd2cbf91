//! What the manager canister decides around its calls to the ledger and to
//! the management canister. The calls themselves are made by the caller of
//! these functions, which hands each reply back to the next step.
use vstd::prelude::*;
use crate::principal::{Principal, principal_seq, principal_text_bytes, without_seq};
use crate::manager::manager::ManagerService;
use crate::manager::ic_wallet::{Subaccount, account_id, account_identifier, default_subaccount};

verus! {

/// What a user pays for a podcast canister, in e8s.
pub const PAYMENT_BALANCE: u64 = 50000000;

/// The ledger's fee for a transfer, in e8s.
pub const LEDGER_FEE_E8S: u64 = 10_000;

/// What the manager keeps of a payment after the ledger's fee, in e8s.
pub const PAYMENT_AFTER_FEE: u64 = 49990000;

/// Cycles given to a new podcast canister.
pub const NEW_CANISTER_CYCLES: u128 = 1_000_000_000_000;

/// Text of the principal whose default account receives the payments.
pub const MANGER_CANISTER: &'static str =
    "c526v-pnjpe-x57vs-xe3qb-idgh7-xre3a-jdzef-l654c-5sg4x-5iigp-xae";

/// Why a call was rejected.
#[derive(Clone, Copy, Debug, PartialEq, Eq, Structural)]
pub enum RejectionCode {
    NoError,
    SysFatal,
    SysTransient,
    DestinationInvalid,
    CanisterReject,
    CanisterError,
    Unknown,
}

/// A rejected call: the code and the message.
pub struct CallError {
    pub code: RejectionCode,
    pub message: String,
}

/// Whether `e` has code `code` and message `message`.
pub open spec fn is_call_error(e: CallError, code: RejectionCode, message: Seq<char>) -> bool {
    e.code == code && e.message@ == message
}

/// `Ok` where `canister_id` is one of `caller`'s canisters, else the error
/// "canister is not exist" with code `Unknown`; asked before stopping or
/// starting a canister for its owner.
pub fn check_canister_owner(service: &ManagerService, caller: Principal, canister_id: Principal) -> (res:
    Result<(), CallError>)
    ensures
        res is Ok <==> service.canisters_of(caller@).contains(canister_id@),
        res matches Err(e) ==> is_call_error(e, RejectionCode::Unknown, "canister is not exist"@),
{
    if !service.owner_canister(caller, canister_id) {
        return Err(CallError { code: RejectionCode::Unknown, message: "canister is not exist".to_owned() });
    }
    Ok(())
}

/// How code goes onto a canister.
#[derive(Clone, Copy, Debug, PartialEq, Eq, Structural)]
pub enum InstallMode {
    Install,
    Reinstall,
    Upgrade,
}

/// A request to install code on a canister.
pub struct InstallCode {
    pub mode: InstallMode,
    pub canister_id: Principal,
    pub wasm_module: Vec<u8>,
    pub arg: Vec<u8>,
}

/// Whether `req` installs `wasm` on `canister` in `mode`, with no argument.
pub open spec fn installs(req: InstallCode, mode: InstallMode, canister: Seq<u8>, wasm: Seq<u8>) -> bool {
    &&& req.mode == mode
    &&& req.canister_id@ == canister
    &&& req.wasm_module@ == wasm
    &&& req.arg@ == Seq::<u8>::empty()
}

fn install_request(mode: InstallMode, canister_id: Principal, wasm: &[u8]) -> (res: InstallCode)
    ensures
        installs(res, mode, canister_id@, wasm@),
{
    InstallCode {
        mode,
        canister_id,
        wasm_module: vstd::slice::slice_to_vec(wasm),
        arg: Vec::new(),
    }
}

/// The calls of an upgrade of a podcast canister.
#[derive(Clone, Copy, Debug, PartialEq, Eq, Structural)]
pub enum UpgradeStage {
    Stop,
    Install,
    Start,
}

/// What to do next in an upgrade.
pub enum UpgradeAction {
    /// Stop this canister.
    StopCanister(Principal),
    /// Make this install request.
    InstallCode(InstallCode),
    /// Start this canister.
    StartCanister(Principal),
    /// Stop with this outcome.
    Finish(Result<(), CallError>),
}

/// The first call of an upgrade of `canister_id`: stop it.
pub fn upgrade_podcast_start(canister_id: Principal) -> (res: UpgradeAction)
    ensures
        res matches UpgradeAction::StopCanister(c) && c@ == canister_id@,
{
    UpgradeAction::StopCanister(canister_id)
}

/// The step after the call `stage` answered `reply` while upgrading
/// `canister_id` to the code `wasm`: a rejection ends the upgrade with it;
/// stopping is followed by installing `wasm` in upgrade mode with no
/// argument, installing by starting; once started, the canister no longer
/// awaits an upgrade.
pub fn upgrade_podcast_step(
    service: &mut ManagerService,
    canister_id: Principal,
    wasm: &[u8],
    stage: UpgradeStage,
    reply: Result<(), CallError>,
) -> (res: UpgradeAction)
    ensures
        match reply {
            Err(e) => (res matches UpgradeAction::Finish(r) && r == Err::<(), CallError>(e))
                && *final(service) == *old(service),
            Ok(_) => match stage {
                UpgradeStage::Stop => (res matches UpgradeAction::InstallCode(req) && installs(
                    req,
                    InstallMode::Upgrade,
                    canister_id@,
                    wasm@,
                )) && *final(service) == *old(service),
                UpgradeStage::Install => (res matches UpgradeAction::StartCanister(c) && c@
                    == canister_id@) && *final(service) == *old(service),
                UpgradeStage::Start => {
                    &&& res matches UpgradeAction::Finish(r) && r is Ok
                    &&& final(service).old_versions() == without_seq(
                        old(service).old_versions(),
                        canister_id@,
                    )
                    &&& final(service).canister_lists() == old(service).canister_lists()
                    &&& final(service).canister_list.order() == old(service).canister_list.order()
                    &&& final(service).advance_payment@ == old(service).advance_payment@
                    &&& final(service).sub_account_num == old(service).sub_account_num
                },
            },
        },
{
    match reply {
        Err(e) => UpgradeAction::Finish(Err(e)),
        Ok(_) => match stage {
            UpgradeStage::Stop => UpgradeAction::InstallCode(
                install_request(InstallMode::Upgrade, canister_id, wasm),
            ),
            UpgradeStage::Install => UpgradeAction::StartCanister(canister_id),
            UpgradeStage::Start => {
                service.upgrade_canister(canister_id);
                UpgradeAction::Finish(Ok(()))
            },
        },
    }
}

/// The settings of a new canister; `None` leaves a setting at its default.
pub struct CanisterSettings {
    pub controllers: Option<Vec<Principal>>,
    pub compute_allocation: Option<u128>,
    pub memory_allocation: Option<u128>,
    pub freezing_threshold: Option<u128>,
}

/// What to do next in making a podcast canister for a user who paid.
pub enum CreateAction {
    /// Ask the ledger for the balance of this account.
    QueryBalance { account: [u8; 32] },
    /// Ask the ledger to move `amount_e8s`, paying `fee_e8s`, with memo
    /// `memo` and creation time `created_at_time`, from the manager's
    /// sub-account `from_subaccount` to the account `to`.
    Transfer {
        amount_e8s: u64,
        fee_e8s: u64,
        memo: u64,
        from_subaccount: Subaccount,
        to: [u8; 32],
        created_at_time: Option<u64>,
    },
    /// Ask for a new canister with these settings and cycles.
    CreateCanister { settings: CanisterSettings, cycles: u128 },
    /// Make this install request.
    InstallCode(InstallCode),
    /// Stop with this outcome.
    Finish(Result<(), CallError>),
    /// Stop the canister with this message, followed by the failed reply.
    Trap(String),
}

/// Whether `a` answers a payment that was not found.
pub open spec fn payment_not_detected(a: CreateAction) -> bool {
    a matches CreateAction::Finish(r) && r matches Err(e) && is_call_error(
        e,
        RejectionCode::CanisterReject,
        "Payment was not detected"@,
    )
}

/// The first step for `caller`, on the manager canister `manager_canister`:
/// without a payment sub-account the payment was not detected; with one,
/// ask for the balance of that sub-account of the manager.
pub fn create_podcast_canister_start(
    service: &ManagerService,
    manager_canister: Principal,
    caller: Principal,
) -> (res: (CreateAction, Option<Subaccount>))
    ensures
        !service.advance_payment@.contains_key(caller@) ==> payment_not_detected(res.0)
            && res.1 is None,
        service.advance_payment@.contains_key(caller@) ==> res.1 == Some(
            service.advance_payment@[caller@],
        ),
        service.advance_payment@.contains_key(caller@) ==> (res.0 matches CreateAction::QueryBalance {
            account,
        } && account@ == account_identifier(manager_canister@, service.advance_payment@[caller@]@)),
{
    match service.get_sub_account(caller) {
        None => (
            CreateAction::Finish(
                Err(
                    CallError {
                        code: RejectionCode::CanisterReject,
                        message: "Payment was not detected".to_owned(),
                    },
                ),
            ),
            None,
        ),
        Some(sub) => {
            let account = account_id(&manager_canister, &sub);
            (CreateAction::QueryBalance { account }, Some(sub))
        },
    }
}

/// The step after the balance query for `caller`'s sub-account `sub`
/// answered `balance`: a failed query means the payment was not detected; a
/// balance of exactly the price forgets the sub-account; then the payment,
/// less the ledger's fee, moves to the default account of the receiving
/// principal, with memo 0 and no creation time.
pub fn create_podcast_canister_on_balance(
    service: &mut ManagerService,
    caller: Principal,
    sub: Subaccount,
    balance: Result<u64, CallError>,
) -> (res: CreateAction)
    ensures
        match balance {
            Err(_) => payment_not_detected(res) && *final(service) == *old(service),
            Ok(e8s) => {
                &&& e8s == PAYMENT_BALANCE ==> final(service).advance_payment@ == old(
                    service,
                ).advance_payment@.remove(caller@)
                &&& e8s != PAYMENT_BALANCE ==> final(service).advance_payment@ == old(
                    service,
                ).advance_payment@
                &&& final(service).canister_list == old(service).canister_list
                &&& final(service).old_version_list == old(service).old_version_list
                &&& final(service).sub_account_num == old(service).sub_account_num
                &&& match principal_text_bytes(MANGER_CANISTER@) {
                    None => res is Trap,
                    Some(receiver) => (res matches CreateAction::Transfer {
                        amount_e8s,
                        fee_e8s,
                        memo,
                        from_subaccount,
                        to,
                        created_at_time,
                    } && amount_e8s == PAYMENT_AFTER_FEE && fee_e8s == LEDGER_FEE_E8S && memo == 0
                        && from_subaccount == sub && created_at_time is None && to@
                        == account_identifier(receiver, Seq::new(32, |i: int| 0u8))),
                }
            },
        },
{
    match balance {
        Ok(e8s) => {
            if e8s == PAYMENT_BALANCE {
                service.del_sub_account(caller);
            }
        },
        Err(_) => {
            return CreateAction::Finish(
                Err(
                    CallError {
                        code: RejectionCode::CanisterReject,
                        message: "Payment was not detected".to_owned(),
                    },
                ),
            );
        },
    }
    match Principal::from_text(MANGER_CANISTER) {
        None => CreateAction::Trap("manager principal text does not parse".to_owned()),
        Some(receiver) => {
            let to = account_id(&receiver, &default_subaccount());
            CreateAction::Transfer {
                amount_e8s: PAYMENT_BALANCE - LEDGER_FEE_E8S,
                fee_e8s: LEDGER_FEE_E8S,
                memo: 0,
                from_subaccount: sub,
                to,
                created_at_time: None,
            }
        },
    }
}

/// Whether `settings` name exactly `controllers` and leave the rest at
/// their defaults.
pub open spec fn settings_with_controllers(settings: CanisterSettings, controllers: Seq<Seq<u8>>) -> bool {
    &&& settings.controllers matches Some(c) && principal_seq(c@) == controllers
    &&& settings.compute_allocation is None
    &&& settings.memory_allocation is None
    &&& settings.freezing_threshold is None
}

/// The step after the transfer answered `reply` (the call's rejection, or
/// the ledger's refusal, or the block height): a rejection or a refusal stops
/// the canister; else ask for a canister controlled by the manager and by
/// `caller`, other settings at their defaults.
pub fn create_podcast_canister_on_transfer(
    manager_canister: Principal,
    caller: Principal,
    reply: Result<Result<u64, ()>, CallError>,
) -> (res: CreateAction)
    ensures
        match reply {
            Err(_) => (res matches CreateAction::Trap(m) && m@ == "call to ledger failed"@),
            Ok(Err(_)) => (res matches CreateAction::Trap(m) && m@ == "transfer failed"@),
            Ok(Ok(_)) => (res matches CreateAction::CreateCanister { settings, cycles }
                && settings_with_controllers(settings, seq![manager_canister@, caller@]) && cycles
                == NEW_CANISTER_CYCLES),
        },
{
    match reply {
        Err(_) => CreateAction::Trap("call to ledger failed".to_owned()),
        Ok(Err(_)) => CreateAction::Trap("transfer failed".to_owned()),
        Ok(Ok(_)) => {
            let ghost m = manager_canister@;
            let ghost c = caller@;
            let mut controllers: Vec<Principal> = Vec::new();
            controllers.push(manager_canister);
            controllers.push(caller);
            assert(principal_seq(controllers@) =~= seq![m, c]);
            CreateAction::CreateCanister {
                settings: CanisterSettings {
                    controllers: Some(controllers),
                    compute_allocation: None,
                    memory_allocation: None,
                    freezing_threshold: None,
                },
                cycles: NEW_CANISTER_CYCLES,
            }
        },
    }
}

/// The step after the canister creation answered `reply`: a rejection ends
/// with it; a new canister becomes `caller`'s newest and gets the podcast
/// code `wasm`, installed fresh with no argument.
pub fn create_podcast_canister_on_create(
    service: &mut ManagerService,
    caller: Principal,
    wasm: &[u8],
    reply: Result<Principal, CallError>,
) -> (res: CreateAction)
    ensures
        match reply {
            Err(e) => (res matches CreateAction::Finish(r) && r == Err::<(), CallError>(e))
                && *final(service) == *old(service),
            Ok(id) => {
                &&& (res matches CreateAction::InstallCode(req) && installs(
                    req,
                    InstallMode::Install,
                    id@,
                    wasm@,
                ))
                &&& final(service).canister_lists() == old(service).canister_lists().insert(
                    caller@,
                    old(service).canisters_of(caller@).push(id@),
                )
                &&& final(service).old_version_list@ == old(service).old_version_list@
                &&& final(service).advance_payment@ == old(service).advance_payment@
                &&& final(service).sub_account_num == old(service).sub_account_num
            },
        },
{
    match reply {
        Err(e) => CreateAction::Finish(Err(e)),
        Ok(id) => {
            let installed = id.duplicate();
            service.add_canister(caller, id);
            CreateAction::InstallCode(install_request(InstallMode::Install, installed, wasm))
        },
    }
}

/// The last step: the install's reply is the outcome; the new canister stays
/// registered whatever it is.
pub fn create_podcast_canister_on_install(reply: Result<(), CallError>) -> (res: CreateAction)
    ensures
        res matches CreateAction::Finish(r) && r == reply,
{
    CreateAction::Finish(reply)
}

} // verus!
