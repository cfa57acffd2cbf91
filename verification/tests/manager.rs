use podcast_dapp::manager::canister::{
    check_canister_owner, create_podcast_canister_on_balance, create_podcast_canister_on_create,
    create_podcast_canister_on_install, create_podcast_canister_on_transfer,
    create_podcast_canister_start, upgrade_podcast_start, upgrade_podcast_step, CallError,
    CreateAction, InstallMode, RejectionCode, UpgradeAction, UpgradeStage, LEDGER_FEE_E8S,
    PAYMENT_AFTER_FEE, PAYMENT_BALANCE,
};
use podcast_dapp::manager::ic_wallet::{account_id, default_subaccount, get_account, Subaccount};
use podcast_dapp::manager::manager::ManagerService;
use podcast_dapp::manager::owner::OwnerService;
use podcast_dapp::principal::Principal;

fn p(bytes: &[u8]) -> Principal {
    Principal::from_slice(bytes)
}

fn bytes_of(list: &[Principal]) -> Vec<Vec<u8>> {
    list.iter().map(|q| q.as_slice().to_vec()).collect()
}

fn rejected(message: &str) -> CallError {
    CallError { code: RejectionCode::CanisterError, message: message.to_owned() }
}

#[test]
fn add_canister_appends_to_callers_list() {
    let mut m = ManagerService::default();
    m.add_canister(p(&[1]), p(&[10]));
    m.add_canister(p(&[2]), p(&[20]));
    m.add_canister(p(&[1]), p(&[11]));
    assert_eq!(bytes_of(&m.get_podcast_canister(p(&[1]))), vec![vec![10u8], vec![11u8]]);
    assert_eq!(bytes_of(&m.get_podcast_canister(p(&[2]))), vec![vec![20u8]]);
    assert!(m.get_podcast_canister(p(&[3])).is_empty());
    assert!(m.owner_canister(p(&[1]), p(&[11])));
    assert!(!m.owner_canister(p(&[2]), p(&[11])));
    assert!(!m.owner_canister(p(&[3]), p(&[11])));
}

#[test]
fn upgrade_notice_marks_every_canister() {
    let mut m = ManagerService::default();
    m.add_canister(p(&[1]), p(&[10]));
    m.add_canister(p(&[2]), p(&[20]));
    m.add_canister(p(&[1]), p(&[11]));
    assert!(!m.need_upgrade(p(&[10])));
    m.upgrade_podcast();
    assert_eq!(
        bytes_of(&m.get_old_version_podcast_canister()),
        vec![vec![10u8], vec![11u8], vec![20u8]]
    );
    assert!(m.need_upgrade(p(&[10])));
    assert!(m.need_upgrade(p(&[20])));
    m.upgrade_canister(p(&[11]));
    assert!(!m.need_upgrade(p(&[11])));
    assert!(m.need_upgrade(p(&[10])));
    assert_eq!(bytes_of(&m.get_old_version_podcast_canister()), vec![vec![10u8], vec![20u8]]);
}

#[test]
fn upgrade_notice_twice_lists_canisters_twice() {
    let mut m = ManagerService::default();
    m.add_canister(p(&[1]), p(&[10]));
    m.upgrade_podcast();
    m.upgrade_podcast();
    assert_eq!(bytes_of(&m.get_old_version_podcast_canister()), vec![vec![10u8], vec![10u8]]);
    m.upgrade_canister(p(&[10]));
    assert!(m.get_old_version_podcast_canister().is_empty());
}

#[test]
fn payment_addresses_number_sub_accounts() {
    let mut m = ManagerService::default();
    let manager = p(&[9, 9]);
    let text = m.advance_payment_addr(manager.clone(), p(&[1]));
    assert_eq!(m.sub_account_num, 1);
    let sub = m.get_sub_account(p(&[1])).unwrap();
    let mut expected = [0u8; 32];
    expected[31] = 1;
    assert_eq!(sub.0, expected);
    assert_eq!(text, get_account(manager.clone(), sub));
    m.advance_payment_addr(manager.clone(), p(&[2]));
    let sub2 = m.get_sub_account(p(&[2])).unwrap();
    expected[31] = 2;
    assert_eq!(sub2.0, expected);
    // A second address for the same caller replaces the first.
    m.advance_payment_addr(manager, p(&[1]));
    expected[31] = 3;
    assert_eq!(m.get_sub_account(p(&[1])).unwrap().0, expected);
    m.del_sub_account(p(&[1]));
    assert!(m.get_sub_account(p(&[1])).is_none());
    assert!(m.get_sub_account(p(&[2])).is_some());
}

#[test]
fn sub_account_number_is_big_endian_and_wraps() {
    let mut m = ManagerService::default();
    m.sub_account_num = 0x0102_0304_0506_0708_090a_0b0c_0d0e_0eff;
    m.advance_payment_addr(p(&[9]), p(&[1]));
    let mut expected = [0u8; 32];
    expected[16..].copy_from_slice(&0x0102_0304_0506_0708_090a_0b0c_0d0e_0f00u128.to_be_bytes());
    assert_eq!(m.get_sub_account(p(&[1])).unwrap().0, expected);
    m.sub_account_num = u128::MAX;
    m.advance_payment_addr(p(&[9]), p(&[1]));
    assert_eq!(m.sub_account_num, 1);
    let mut one = [0u8; 32];
    one[31] = 1;
    assert_eq!(m.get_sub_account(p(&[1])).unwrap().0, one);
}

#[test]
fn owner_check_before_stop_or_start() {
    let mut m = ManagerService::default();
    m.add_canister(p(&[1]), p(&[10]));
    assert!(check_canister_owner(&m, p(&[1]), p(&[10])).is_ok());
    let e = check_canister_owner(&m, p(&[2]), p(&[10])).unwrap_err();
    assert_eq!(e.code, RejectionCode::Unknown);
    assert_eq!(e.message, "canister is not exist");
}

const CODE: &[u8] = &[0, 97, 115, 109];

#[test]
fn upgrade_steps() {
    let mut m = ManagerService::default();
    m.add_canister(p(&[1]), p(&[10]));
    m.upgrade_podcast();
    match upgrade_podcast_start(p(&[10])) {
        UpgradeAction::StopCanister(c) => assert!(c.same(&p(&[10]))),
        _ => panic!("an upgrade begins by stopping"),
    }
    match upgrade_podcast_step(&mut m, p(&[10]), CODE, UpgradeStage::Stop, Ok(())) {
        UpgradeAction::InstallCode(req) => {
            assert_eq!(req.mode, InstallMode::Upgrade);
            assert!(req.canister_id.same(&p(&[10])));
            assert_eq!(req.wasm_module, CODE.to_vec());
            assert!(req.arg.is_empty());
        }
        _ => panic!("install expected"),
    }
    match upgrade_podcast_step(&mut m, p(&[10]), CODE, UpgradeStage::Install, Ok(())) {
        UpgradeAction::StartCanister(c) => assert!(c.same(&p(&[10]))),
        _ => panic!("start expected"),
    }
    assert!(m.need_upgrade(p(&[10])));
    let a = upgrade_podcast_step(&mut m, p(&[10]), CODE, UpgradeStage::Install, Err(rejected("no")));
    match a {
        UpgradeAction::Finish(Err(e)) => assert_eq!(e.message, "no"),
        _ => panic!("a rejected install ends the upgrade"),
    }
    assert!(m.need_upgrade(p(&[10])));
    let a = upgrade_podcast_step(&mut m, p(&[10]), CODE, UpgradeStage::Start, Ok(()));
    assert!(matches!(a, UpgradeAction::Finish(Ok(()))));
    assert!(!m.need_upgrade(p(&[10])));
}

#[test]
fn create_without_payment_is_rejected() {
    let m = ManagerService::default();
    let (a, sub) = create_podcast_canister_start(&m, p(&[9]), p(&[1]));
    assert!(sub.is_none());
    match a {
        CreateAction::Finish(Err(e)) => {
            assert_eq!(e.code, RejectionCode::CanisterReject);
            assert_eq!(e.message, "Payment was not detected");
        }
        _ => panic!("no payment sub-account"),
    }
}

#[test]
fn create_with_payment_runs_through() {
    let mut m = ManagerService::default();
    let manager = p(&[9]);
    m.advance_payment_addr(manager.clone(), p(&[1]));
    let (a, sub) = create_podcast_canister_start(&m, manager.clone(), p(&[1]));
    let sub = sub.unwrap();
    match a {
        CreateAction::QueryBalance { account } => {
            assert_eq!(account, account_id(&manager, &sub))
        }
        _ => panic!("balance query expected"),
    }
    let a = create_podcast_canister_on_balance(&mut m, p(&[1]), sub, Ok(PAYMENT_BALANCE));
    assert!(m.get_sub_account(p(&[1])).is_none());
    let receiver = Principal::from_text("c526v-pnjpe-x57vs-xe3qb-idgh7-xre3a-jdzef-l654c-5sg4x-5iigp-xae").unwrap();
    match a {
        CreateAction::Transfer { amount_e8s, fee_e8s, memo, from_subaccount, to, created_at_time } => {
            assert_eq!(amount_e8s, PAYMENT_AFTER_FEE);
            assert_eq!(amount_e8s, 50000000 - 10_000);
            assert_eq!(fee_e8s, LEDGER_FEE_E8S);
            assert_eq!(fee_e8s, 10_000);
            assert_eq!(created_at_time, None);
            assert_eq!(memo, 0);
            assert_eq!(from_subaccount.0, sub.0);
            assert_eq!(to, account_id(&receiver, &default_subaccount()));
        }
        _ => panic!("transfer expected"),
    }
    let a = create_podcast_canister_on_transfer(manager.clone(), p(&[1]), Ok(Ok(7)));
    match a {
        CreateAction::CreateCanister { settings, cycles } => {
            assert_eq!(bytes_of(&settings.controllers.unwrap()), vec![vec![9u8], vec![1u8]]);
            assert!(settings.compute_allocation.is_none());
            assert!(settings.memory_allocation.is_none());
            assert!(settings.freezing_threshold.is_none());
            assert_eq!(cycles, 1_000_000_000_000);
        }
        _ => panic!("canister creation expected"),
    }
    let a = create_podcast_canister_on_create(&mut m, p(&[1]), CODE, Ok(p(&[42])));
    match a {
        CreateAction::InstallCode(req) => {
            assert_eq!(req.mode, InstallMode::Install);
            assert!(req.canister_id.same(&p(&[42])));
            assert_eq!(req.wasm_module, CODE.to_vec());
            assert!(req.arg.is_empty());
        }
        _ => panic!("install expected"),
    }
    assert_eq!(bytes_of(&m.get_podcast_canister(p(&[1]))), vec![vec![42u8]]);
    match create_podcast_canister_on_install(Err(rejected("bad module"))) {
        CreateAction::Finish(Err(e)) => assert_eq!(e.message, "bad module"),
        _ => panic!("the install reply is the outcome"),
    }
    assert!(matches!(create_podcast_canister_on_install(Ok(())), CreateAction::Finish(Ok(()))));
    assert_eq!(bytes_of(&m.get_podcast_canister(p(&[1]))), vec![vec![42u8]]);
}

#[test]
fn create_with_other_balance_keeps_sub_account_but_transfers() {
    let mut m = ManagerService::default();
    m.advance_payment_addr(p(&[9]), p(&[1]));
    let sub = m.get_sub_account(p(&[1])).unwrap();
    let a = create_podcast_canister_on_balance(&mut m, p(&[1]), sub, Ok(PAYMENT_BALANCE - 1));
    assert!(m.get_sub_account(p(&[1])).is_some());
    assert!(matches!(a, CreateAction::Transfer { .. }));
    let a = create_podcast_canister_on_balance(&mut m, p(&[1]), sub, Err(rejected("down")));
    match a {
        CreateAction::Finish(Err(e)) => assert_eq!(e.message, "Payment was not detected"),
        _ => panic!("a failed balance query means no payment"),
    }
    assert!(m.get_sub_account(p(&[1])).is_some());
}

#[test]
fn create_failures_after_payment() {
    let mut m = ManagerService::default();
    match create_podcast_canister_on_transfer(p(&[9]), p(&[1]), Err(rejected("x"))) {
        CreateAction::Trap(msg) => assert_eq!(msg, "call to ledger failed"),
        _ => panic!("trap expected"),
    }
    match create_podcast_canister_on_transfer(p(&[9]), p(&[1]), Ok(Err(()))) {
        CreateAction::Trap(msg) => assert_eq!(msg, "transfer failed"),
        _ => panic!("trap expected"),
    }
    match create_podcast_canister_on_create(&mut m, p(&[1]), CODE, Err(rejected("full"))) {
        CreateAction::Finish(Err(e)) => assert_eq!(e.message, "full"),
        _ => panic!("rejection expected"),
    }
    assert!(m.get_podcast_canister(p(&[1])).is_empty());
}

#[test]
fn manager_admin() {
    let mut o = OwnerService::default();
    assert!(o.get_admin().is_none());
    assert_eq!(o.is_admin(p(&[1])), Err("no auth".to_owned()));
    o.init_admin(p(&[1]));
    assert_eq!(o.is_admin(p(&[1])), Ok(()));
    o.change_admin(p(&[2]));
    assert_eq!(o.is_admin(p(&[1])), Err("no auth".to_owned()));
    assert_eq!(o.is_admin(p(&[2])), Ok(()));
    assert_eq!(o.get_admin().unwrap().as_slice(), &[2u8]);
}

#[test]
fn manager_clone_keeps_everything() {
    let mut m = ManagerService::default();
    m.add_canister(p(&[1]), p(&[10]));
    m.add_canister(p(&[2]), p(&[20]));
    m.upgrade_podcast();
    m.advance_payment_addr(p(&[9]), p(&[1]));
    let c = m.clone();
    assert_eq!(bytes_of(&c.get_podcast_canister(p(&[2]))), vec![vec![20u8]]);
    assert_eq!(bytes_of(&c.get_old_version_podcast_canister()), vec![vec![10u8], vec![20u8]]);
    assert_eq!(c.get_sub_account(p(&[1])).unwrap().0, m.get_sub_account(p(&[1])).unwrap().0);
    assert_eq!(c.sub_account_num, 1);
    assert!(c.canister_list.key_at(0).same(&p(&[1])));
}
