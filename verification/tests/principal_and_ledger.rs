use podcast_dapp::manager::ic_wallet::{account_id, default_subaccount, get_account, to_lower_hex, Subaccount};
use podcast_dapp::principal::{contains_principal, copy_principals, without_principal, Principal};

fn p(bytes: &[u8]) -> Principal {
    Principal::from_slice(bytes)
}

#[test]
fn principal_from_text_reads_known_principals() {
    let management = Principal::from_text("aaaaa-aa").unwrap();
    assert_eq!(management.as_slice(), &[] as &[u8]);
    let anonymous = Principal::from_text("2vxsx-fae").unwrap();
    assert_eq!(anonymous.as_slice(), &[4u8]);
    let ledger = Principal::from_text("ryjl3-tyaaa-aaaaa-aaaba-cai").unwrap();
    assert_eq!(ledger.as_slice(), &[0u8, 0, 0, 0, 0, 0, 0, 2, 1, 1]);
}

#[test]
fn principal_from_text_refuses_bad_text() {
    assert!(Principal::from_text("not a principal").is_none());
    assert!(Principal::from_text("2vxsx-fae-").is_none());
    assert!(Principal::from_text("").is_none());
}

#[test]
fn principal_from_slice_limits_length() {
    assert!(Principal::try_from_slice(&[7u8; 29]).is_some());
    assert!(Principal::try_from_slice(&[7u8; 30]).is_none());
    assert_eq!(p(&[1, 2, 3]).len(), 3);
}

#[test]
fn principal_same_compares_bytes() {
    assert!(p(&[1, 2]).same(&p(&[1, 2])));
    assert!(!p(&[1, 2]).same(&p(&[1, 3])));
    assert!(!p(&[1, 2]).same(&p(&[1, 2, 0])));
    assert!(p(&[]).same(&p(&[])));
}

#[test]
fn principal_lists() {
    let list = vec![p(&[1]), p(&[2]), p(&[1]), p(&[3])];
    assert!(contains_principal(&list, &p(&[2])));
    assert!(!contains_principal(&list, &p(&[4])));
    let rest = without_principal(&list, &p(&[1]));
    let bytes: Vec<Vec<u8>> = rest.iter().map(|q| q.as_slice().to_vec()).collect();
    assert_eq!(bytes, vec![vec![2u8], vec![3u8]]);
    let copy = copy_principals(&list);
    assert_eq!(copy.len(), 4);
    assert!(copy[3].same(&p(&[3])));
}

#[test]
fn lower_hex_text() {
    assert_eq!(to_lower_hex(&[0x00, 0x0f, 0xa5, 0xff]), "000fa5ff");
    assert_eq!(to_lower_hex(&[]), "");
}

#[test]
fn default_subaccount_is_zero() {
    assert_eq!(default_subaccount().0, [0u8; 32]);
}

#[test]
fn account_id_matches_the_ledger() {
    let owner = p(&[0, 0, 0, 0, 0, 0, 0, 2, 1, 1]);
    let mut sub = [0u8; 32];
    sub[31] = 7;
    let expected = ic_ledger_types::AccountIdentifier::new(
        &candid::Principal::from_slice(&[0, 0, 0, 0, 0, 0, 0, 2, 1, 1]),
        &ic_ledger_types::Subaccount(sub),
    );
    let got = account_id(&owner, &Subaccount(sub));
    assert_eq!(&got[..], expected.as_ref());
    assert_eq!(get_account(owner, Subaccount(sub)), expected.to_string());
}

#[test]
fn account_id_depends_on_owner_and_subaccount() {
    let a = account_id(&p(&[1]), &default_subaccount());
    let b = account_id(&p(&[2]), &default_subaccount());
    let mut sub = [0u8; 32];
    sub[0] = 1;
    let c = account_id(&p(&[1]), &Subaccount(sub));
    assert_ne!(a, b);
    assert_ne!(a, c);
    let text = get_account(p(&[1]), default_subaccount());
    assert_eq!(text.len(), 64);
    assert!(text.chars().all(|ch| ch.is_ascii_hexdigit() && !ch.is_ascii_uppercase()));
}

#[test]
fn account_text_of_a_known_principal() {
    let owner = Principal::from_text("iooej-vlrze-c5tme-tn7qt-vqe7z-7bsj5-ebxlc-hlzgs-lueo3-3yast-pae")
        .unwrap();
    assert_eq!(
        get_account(owner, default_subaccount()),
        "bdc4ee05d42cd0669786899f256c8fd7217fa71177bd1fa7b9534f568680a938"
    );
}

#[test]
fn principal_text_round_trip() {
    let ledger = Principal::from_text("ryjl3-tyaaa-aaaaa-aaaba-cai").unwrap();
    assert_eq!(ledger.to_text(), "ryjl3-tyaaa-aaaaa-aaaba-cai");
    assert_eq!(p(&[]).to_text(), "aaaaa-aa");
    assert_eq!(p(&[4]).to_text(), "2vxsx-fae");
}
