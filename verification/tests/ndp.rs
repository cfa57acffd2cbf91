use podcast_dapp::ndp::actions::{add_site_data, add_staking, check_staking_amount, MIN_STAKING_AMOUNT};
use podcast_dapp::ndp::metadata::{init, Metadata};
use podcast_dapp::ndp::sitedata::SiteDataList;
use podcast_dapp::ndp::siteinfo::SiteInfoDataList;
use podcast_dapp::ndp::staking::Staking;
use podcast_dapp::ndp::types::{SiteInfoItem, SiteItem, StakingItem, TokenType};
use podcast_dapp::ndp::utils::{
    check_ndp_balance, covers, transfer_ndp_after_balance, transfer_ndp_after_transfer,
    transfer_ndp_start, NdpTransferAction,
};
use podcast_dapp::principal::Principal;

fn p(bytes: &[u8]) -> Principal {
    Principal::from_slice(bytes)
}

fn stake(amount: u64) -> StakingItem {
    StakingItem { principal: None, start_time: None, duration: 6, token: TokenType::NDP(amount) }
}

fn site(name: &str) -> SiteItem {
    SiteItem {
        principal: None,
        site_name: name.to_owned(),
        site_start_time: None,
        site_url: "https://example.org".to_owned(),
    }
}

fn site_info(name: &str) -> SiteInfoItem {
    SiteInfoItem {
        principal: None,
        site_name: name.to_owned(),
        site_start_time: None,
        site_title: String::new(),
        site_sub_title: String::new(),
        site_cover_img: String::new(),
        site_url: String::new(),
        site_host: String::new(),
        site_guests: String::new(),
        site_commant: String::new(),
        site_season: String::new(),
        site_ep: String::new(),
        site_avi_url: String::new(),
        site_show_notes: String::new(),
        site_view: String::new(),
        site_status: String::new(),
    }
}

#[test]
fn staking_amount_has_a_minimum() {
    assert_eq!(MIN_STAKING_AMOUNT, 1000_0000_0000);
    assert_eq!(
        check_staking_amount(&stake(MIN_STAKING_AMOUNT - 1)),
        Err("Minimum quantity is 100000000000".to_owned())
    );
    assert_eq!(check_staking_amount(&stake(MIN_STAKING_AMOUNT)), Ok(MIN_STAKING_AMOUNT));
    assert_eq!(check_staking_amount(&stake(u64::MAX)), Ok(u64::MAX));
}

#[test]
fn staking_add_numbers_and_stamps() {
    let mut s = Staking::default();
    assert_eq!(s.add(stake(5), 77), Ok(()));
    assert_eq!(s.add(stake(6), 78), Ok(()));
    assert_eq!(s.staking_id, 2);
    let first = &s.staking_data[&1];
    assert_eq!(first.start_time, Some(77));
    assert_eq!(first.token, TokenType::NDP(5));
    assert_eq!(s.staking_data[&2].start_time, Some(78));
    assert!(s.pending_list.is_empty());
}

#[test]
fn add_staking_after_transfer() {
    let mut s = Staking::default();
    let r = add_staking(&mut s, stake(MIN_STAKING_AMOUNT), p(&[1]), Err("Insufficient balance!".to_owned()), 9);
    assert_eq!(r, Err("Insufficient balance!".to_owned()));
    assert_eq!(s.staking_id, 0);
    assert!(s.staking_data.is_empty());
    let r = add_staking(&mut s, stake(MIN_STAKING_AMOUNT), p(&[1]), Ok(()), 9);
    assert_eq!(r, Ok(()));
    let item = &s.staking_data[&1];
    assert!(item.principal.as_ref().unwrap().same(&p(&[1])));
    assert_eq!(item.start_time, Some(9));
    assert_eq!(item.duration, 6);
}

#[test]
fn add_staking_refuses_small_stakes() {
    let mut s = Staking::default();
    let r = add_staking(&mut s, stake(1), p(&[1]), Ok(()), 9);
    assert_eq!(r, Err("Minimum quantity is 100000000000".to_owned()));
    let r = add_staking(&mut s, stake(MIN_STAKING_AMOUNT - 1), p(&[1]), Err("down".to_owned()), 9);
    assert_eq!(r, Err("Minimum quantity is 100000000000".to_owned()));
    assert_eq!(s.staking_id, 0);
    assert!(s.staking_data.is_empty());
}

#[test]
fn add_staking_failed_transfer_with_full_counter() {
    let mut s = Staking::default();
    s.staking_id = u64::MAX;
    let r = add_staking(&mut s, stake(MIN_STAKING_AMOUNT), p(&[1]), Err("gone".to_owned()), 9);
    assert_eq!(r, Err("gone".to_owned()));
    assert_eq!(s.staking_id, u64::MAX);
}

#[test]
fn sites_are_numbered_and_stamped() {
    let mut l = SiteDataList::default();
    assert_eq!(add_site_data(&mut l, site("a"), p(&[3]), 10), Ok(()));
    assert_eq!(l.add_func(site("b"), 11), Ok(()));
    assert_eq!(l.site_id, 2);
    assert_eq!(l.site_data[&1].site_name, "a");
    assert!(l.site_data[&1].principal.as_ref().unwrap().same(&p(&[3])));
    assert_eq!(l.site_data[&1].site_start_time, Some(10));
    assert!(l.site_data[&2].principal.is_none());
    let mut i = SiteInfoDataList::default();
    assert_eq!(i.add_func(site_info("x"), 12), Ok(()));
    assert_eq!(i.site_id, 1);
    assert_eq!(i.site_info_data[&1].site_start_time, Some(12));
}

#[test]
fn balance_digits_cover_amounts() {
    assert!(covers(&vec![], 0));
    assert!(!covers(&vec![], 1));
    assert!(covers(&vec![5], 5));
    assert!(!covers(&vec![4], 5));
    assert!(covers(&vec![0, 1], u64::MAX));
    assert!(!covers(&vec![3, 0, 0], 4));
    assert!(covers(&vec![3, 0, 2], u64::MAX));
}

#[test]
fn ndp_balance_check() {
    assert_eq!(check_ndp_balance(Err("down".to_owned()), 5), Err("down".to_owned()));
    assert_eq!(check_ndp_balance(Ok(vec![4]), 5), Err("Insufficient balance!".to_owned()));
    assert_eq!(check_ndp_balance(Ok(vec![5]), 5), Ok(vec![5]));
}

#[test]
fn ndp_transfer_steps() {
    let token = Principal::from_text("vgqnj-miaaa-aaaal-qaapa-cai").unwrap();
    let staking = Principal::from_text("eijhz-biaaa-aaaah-abs6q-cai").unwrap();
    match transfer_ndp_start(p(&[1])) {
        NdpTransferAction::QueryBalance { token: t, owner } => {
            assert!(t.same(&token));
            assert!(owner.same(&p(&[1])));
        }
        _ => panic!("balance query expected"),
    }
    match transfer_ndp_after_balance(p(&[1]), 10, Ok(vec![9])) {
        NdpTransferAction::Finish(Err(e)) => assert_eq!(e, "Insufficient balance!"),
        _ => panic!("refusal expected"),
    }
    match transfer_ndp_after_balance(p(&[1]), 10, Ok(vec![10])) {
        NdpTransferAction::TransferFrom { token: t, from, to, amount } => {
            assert!(t.same(&token));
            assert!(from.same(&p(&[1])));
            assert!(to.same(&staking));
            assert_eq!(amount, 10);
        }
        _ => panic!("transfer expected"),
    }
    assert_eq!(transfer_ndp_after_transfer(Ok(Ok(vec![3]))), Ok(vec![3]));
    assert_eq!(transfer_ndp_after_transfer(Ok(Err(()))), Err("transfer failed!".to_owned()));
    assert_eq!(transfer_ndp_after_transfer(Err("gone".to_owned())), Err("gone".to_owned()));
}

#[test]
fn metadata_init_keeps_owner_and_canister_text() {
    let mut m = Metadata::default();
    assert!(m.owner.is_none());
    let ledger = Principal::from_text("ryjl3-tyaaa-aaaaa-aaaba-cai").unwrap();
    init(&mut m, p(&[1]), ledger);
    assert!(m.owner.as_ref().unwrap().same(&p(&[1])));
    assert_eq!(m.canister_id, "ryjl3-tyaaa-aaaaa-aaaba-cai");
    assert_eq!(m.clone().canister_id, "ryjl3-tyaaa-aaaaa-aaaba-cai");
}

#[test]
fn ndp_clones_and_defaults() {
    let mut s = Staking::default();
    s.add(stake(5), 1).unwrap();
    s.pending_list.push(stake(7));
    let c = s.clone();
    assert_eq!(c.staking_id, 1);
    assert_eq!(c.staking_data[&1].token, TokenType::NDP(5));
    assert_eq!(c.pending_list.len(), 1);
    assert_eq!(c.pending_list[0].token, TokenType::NDP(7));
    let d = SiteItem::default();
    assert!(d.principal.is_none() && d.site_name.is_empty());
    let i = SiteInfoItem::default();
    assert!(i.site_status.is_empty());
    let mut l = SiteDataList::default();
    l.add_func(site("a"), 3).unwrap();
    assert_eq!(l.clone().site_data[&1].site_name, "a");
    let mut li = SiteInfoDataList::default();
    li.add_func(site_info("b"), 3).unwrap();
    assert_eq!(li.clone().site_info_data[&1].site_name, "b");
}
