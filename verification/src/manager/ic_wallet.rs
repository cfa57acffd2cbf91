//! Ledger sub-accounts, account identifiers and their text.
use vstd::prelude::*;
use crate::principal::{Principal, MAX_PRINCIPAL_LEN};

verus! {

/// A ledger sub-account: 32 arbitrary bytes.
#[derive(Clone, Copy)]
pub struct Subaccount(pub [u8; 32]);

impl View for Subaccount {
    type V = Seq<u8>;

    open spec fn view(&self) -> Seq<u8> {
        self.0@
    }
}

/// The sub-account made of 32 zero bytes, the one used by default.
pub fn default_subaccount() -> (res: Subaccount)
    ensures
        res@ == Seq::new(32, |i: int| 0u8),
{
    let res = Subaccount([0u8; 32]);
    assert(res@ =~= Seq::new(32, |i: int| 0u8));
    res
}

/// The 32 bytes that the ledger derives from an owner and a sub-account
/// (a CRC-32 of a SHA-224 digest, then the digest).
pub uninterp spec fn account_identifier(owner: Seq<u8>, subaccount: Seq<u8>) -> Seq<u8>;

/// Calls `ic_ledger_types::AccountIdentifier::new` on the principal made of
/// `owner` and on the sub-account, and hands back the identifier's 32 bytes.
/// The contract claims that the bytes are `account_identifier` of the owner's
/// bytes and the sub-account's bytes, so that the same arguments give the
/// same identifier. `candid::Principal::from_slice` panics on more than 29
/// bytes: those are left out.
#[verifier::external_body]
fn ledger_account_identifier(owner: &[u8], subaccount: &Subaccount) -> (res: [u8; 32])
    requires
        owner@.len() <= MAX_PRINCIPAL_LEN,
    ensures
        res@ == account_identifier(owner@, subaccount@),
{
    let owner = candid::Principal::from_slice(owner);
    let id = ic_ledger_types::AccountIdentifier::new(&owner, &ic_ledger_types::Subaccount(subaccount.0));
    let mut res = [0u8; 32];
    res.copy_from_slice(id.as_ref());
    res
}

/// The identifier of the ledger account of `owner` under `subaccount`.
pub fn account_id(owner: &Principal, subaccount: &Subaccount) -> (res: [u8; 32])
    ensures
        res@ == account_identifier(owner@, subaccount@),
{
    ledger_account_identifier(owner.as_slice(), subaccount)
}

/// The lower-case hexadecimal digit of a value below 16.
pub open spec fn hex_digit(n: int) -> char {
    if n < 10 {
        (48 + n) as char
    } else {
        (87 + n) as char
    }
}

/// Lower-case hexadecimal text of a byte string, two digits per byte, high
/// digit first.
pub open spec fn lower_hex(bytes: Seq<u8>) -> Seq<char> {
    Seq::new(
        2 * bytes.len(),
        |i: int|
            if i % 2 == 0 {
                hex_digit((bytes[i / 2] / 16) as int)
            } else {
                hex_digit((bytes[i / 2] % 16) as int)
            },
    )
}

/// The one-character text of the lower-case hexadecimal digit of `n`.
fn hex_text(n: u8) -> (res: &'static str)
    requires
        n < 16,
    ensures
        res@ == seq![hex_digit(n as int)],
{
    if n == 0 {
        proof {
            reveal_strlit("0");
        }
        "0"
    } else if n == 1 {
        proof {
            reveal_strlit("1");
        }
        "1"
    } else if n == 2 {
        proof {
            reveal_strlit("2");
        }
        "2"
    } else if n == 3 {
        proof {
            reveal_strlit("3");
        }
        "3"
    } else if n == 4 {
        proof {
            reveal_strlit("4");
        }
        "4"
    } else if n == 5 {
        proof {
            reveal_strlit("5");
        }
        "5"
    } else if n == 6 {
        proof {
            reveal_strlit("6");
        }
        "6"
    } else if n == 7 {
        proof {
            reveal_strlit("7");
        }
        "7"
    } else if n == 8 {
        proof {
            reveal_strlit("8");
        }
        "8"
    } else if n == 9 {
        proof {
            reveal_strlit("9");
        }
        "9"
    } else if n == 10 {
        proof {
            reveal_strlit("a");
        }
        "a"
    } else if n == 11 {
        proof {
            reveal_strlit("b");
        }
        "b"
    } else if n == 12 {
        proof {
            reveal_strlit("c");
        }
        "c"
    } else if n == 13 {
        proof {
            reveal_strlit("d");
        }
        "d"
    } else if n == 14 {
        proof {
            reveal_strlit("e");
        }
        "e"
    } else {
        proof {
            reveal_strlit("f");
        }
        "f"
    }
}

/// Lower-case hexadecimal text of `bytes`.
pub fn to_lower_hex(bytes: &[u8]) -> (res: String)
    ensures
        res@ == lower_hex(bytes@),
{
    let mut res = String::new();
    let mut i: usize = 0;
    while i < bytes.len()
        invariant
            i <= bytes@.len(),
            res@ =~= lower_hex(bytes@.take(i as int)),
        decreases bytes@.len() - i,
    {
        let b = bytes[i];
        let ghost before = res@;
        res.append(hex_text(b / 16));
        res.append(hex_text(b % 16));
        proof {
            let prev = bytes@.take(i as int);
            let next = bytes@.take(i + 1);
            assert forall|k: int| 0 <= k < 2 * next.len() implies #[trigger] lower_hex(next)[k]
                == res@[k] by {
                if k < 2 * i {
                    assert(next[k / 2] == prev[k / 2]);
                }
            }
        }
        i = i + 1;
    }
    assert(bytes@.take(bytes@.len() as int) =~= bytes@);
    res
}

/// The hexadecimal text of the ledger account of `canister` under `sub`.
pub fn get_account(canister: Principal, sub: Subaccount) -> (res: String)
    ensures
        res@ == lower_hex(account_identifier(canister@, sub@)),
{
    let id = account_id(&canister, &sub);
    to_lower_hex(&id)
}

} // verus!

verus! {

/// Whether `c` is a lower-case hexadecimal digit.
pub open spec fn is_lower_hex_char(c: char) -> bool {
    (48 <= c as int && c as int <= 57) || (97 <= c as int && c as int <= 102)
}

/// The value of a hexadecimal digit.
pub open spec fn hex_char_value(c: char) -> int {
    if c as int <= 57 {
        c as int - 48
    } else {
        c as int - 87
    }
}

/// The hexadecimal text of a byte string is made of lower-case digits, two
/// per byte, and reading each pair back, high digit first, gives the byte.
pub proof fn lemma_lower_hex_decodes(bytes: Seq<u8>)
    ensures
        lower_hex(bytes).len() == 2 * bytes.len(),
        forall|k: int| 0 <= k < lower_hex(bytes).len() ==> is_lower_hex_char(#[trigger] lower_hex(bytes)[k]),
        forall|i: int|
            0 <= i < bytes.len() ==> hex_char_value(#[trigger] lower_hex(bytes)[2 * i]) * 16
                + hex_char_value(lower_hex(bytes)[2 * i + 1]) == bytes[i],
{
    assert forall|k: int| 0 <= k < lower_hex(bytes).len() implies is_lower_hex_char(
        #[trigger] lower_hex(bytes)[k],
    ) by {
        let b = bytes[k / 2];
        let d = if k % 2 == 0 { (b / 16) as int } else { (b % 16) as int };
        assert(0 <= d < 16);
    }
    assert forall|i: int| 0 <= i < bytes.len() implies hex_char_value(
        #[trigger] lower_hex(bytes)[2 * i],
    ) * 16 + hex_char_value(lower_hex(bytes)[2 * i + 1]) == bytes[i] by {
        assert((2 * i) / 2 == i);
        assert((2 * i + 1) / 2 == i);
        assert((2 * i) % 2 == 0);
        assert((2 * i + 1) % 2 == 1);
    }
}

} // verus!
