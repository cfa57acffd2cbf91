//! Principals and ledger sub-accounts held as plain bytes, with the ledger's
//! account identifier.
use vstd::prelude::*;

verus! {

/// Largest number of bytes in a principal.
pub const MAX_PRINCIPAL_LEN: usize = 29;

/// An Internet Computer principal, held as its significant bytes.
pub struct Principal {
    bytes: Vec<u8>,
}

impl View for Principal {
    type V = Seq<u8>;

    closed spec fn view(&self) -> Seq<u8> {
        self.bytes@
    }
}

/// The bytes of the principal that `text` spells in the textual form of
/// principals (CRC-32 and bytes in base 32, in dash-separated groups), or
/// `None` where `text` is not such a spelling.
pub uninterp spec fn principal_text_bytes(text: Seq<char>) -> Option<Seq<u8>>;

/// Calls `candid::Principal::from_text` on `text` and hands back the bytes of
/// the principal. The contract claims that the result is
/// `principal_text_bytes` of the text, and, as the source checks before it
/// succeeds, that a principal so read has at most 29 bytes.
#[verifier::external_body]
fn decode_principal_text(text: &str) -> (res: Option<Vec<u8>>)
    ensures
        match res {
            Some(b) => principal_text_bytes(text@) == Some(b@) && b@.len() <= MAX_PRINCIPAL_LEN,
            None => principal_text_bytes(text@) is None,
        },
{
    match candid::Principal::from_text(text) {
        Ok(p) => Some(p.as_slice().to_vec()),
        Err(_) => None,
    }
}

/// The textual form of the principal with bytes `bytes`: CRC-32 and bytes in
/// lower-case base 32, in dash-separated groups of five.
pub uninterp spec fn principal_text(bytes: Seq<u8>) -> Seq<char>;

/// Calls `candid::Principal::to_text` on the principal made of `bytes`. The
/// contract claims that the text is `principal_text` of the bytes, a
/// function of the bytes alone. `candid::Principal::from_slice` panics on
/// more than 29 bytes: those are left out.
#[verifier::external_body]
fn encode_principal_text(bytes: &[u8]) -> (res: String)
    requires
        bytes@.len() <= MAX_PRINCIPAL_LEN,
    ensures
        res@ == principal_text(bytes@),
{
    candid::Principal::from_slice(bytes).to_text()
}

impl Principal {
    #[verifier::type_invariant]
    closed spec fn well_formed(self) -> bool {
        self.bytes@.len() <= MAX_PRINCIPAL_LEN
    }

    /// The principal made of `bytes`, or `None` where they are too many.
    pub fn try_from_slice(bytes: &[u8]) -> (res: Option<Principal>)
        ensures
            res is Some <==> bytes@.len() <= MAX_PRINCIPAL_LEN,
            res matches Some(p) ==> p@ == bytes@,
    {
        if bytes.len() <= MAX_PRINCIPAL_LEN {
            Some(Principal { bytes: vstd::slice::slice_to_vec(bytes) })
        } else {
            None
        }
    }

    /// The principal that `text` spells, if it spells one.
    pub fn from_text(text: &str) -> (res: Option<Principal>)
        ensures
            match res {
                Some(p) => principal_text_bytes(text@) == Some(p@),
                None => principal_text_bytes(text@) is None,
            },
    {
        match decode_principal_text(text) {
            Some(bytes) => Some(Principal { bytes }),
            None => None,
        }
    }

    /// The textual form of the principal.
    pub fn to_text(&self) -> (res: String)
        ensures
            res@ == principal_text(self@),
    {
        encode_principal_text(self.as_slice())
    }

    /// The principal made of `bytes`.
    pub fn from_slice(bytes: &[u8]) -> (res: Principal)
        requires
            bytes@.len() <= MAX_PRINCIPAL_LEN,
        ensures
            res@ == bytes@,
    {
        Principal { bytes: vstd::slice::slice_to_vec(bytes) }
    }

    /// The significant bytes of the principal.
    pub fn as_slice(&self) -> (res: &[u8])
        ensures
            res@ == self@,
            res@.len() <= MAX_PRINCIPAL_LEN,
    {
        proof {
            use_type_invariant(self);
        }
        self.bytes.as_slice()
    }

    /// Number of significant bytes.
    pub fn len(&self) -> (res: usize)
        ensures
            res == self@.len(),
            res <= MAX_PRINCIPAL_LEN,
    {
        proof {
            use_type_invariant(self);
        }
        self.bytes.len()
    }

    /// Whether both principals hold the same bytes.
    pub fn same(&self, other: &Principal) -> (res: bool)
        ensures
            res == (self@ == other@),
    {
        let n = self.bytes.len();
        if n != other.bytes.len() {
            return false;
        }
        let mut i: usize = 0;
        while i < n
            invariant
                n == self.bytes@.len(),
                n == other.bytes@.len(),
                i <= n,
                forall|j: int| 0 <= j < i ==> self.bytes@[j] == other.bytes@[j],
            decreases n - i,
        {
            if self.bytes[i] != other.bytes[i] {
                return false;
            }
            i = i + 1;
        }
        assert(self.bytes@ =~= other.bytes@);
        true
    }

    /// A copy of the principal.
    pub fn duplicate(&self) -> (res: Principal)
        ensures
            res@ == self@,
    {
        Principal::from_slice(self.as_slice())
    }
}

impl Clone for Principal {
    fn clone(&self) -> (res: Self)
        ensures
            res@ == self@,
    {
        self.duplicate()
    }
}

/// The bytes of an optional principal.
pub open spec fn opt_principal(p: Option<Principal>) -> Option<Seq<u8>> {
    match p {
        Some(q) => Some(q@),
        None => None,
    }
}

/// A copy of an optional principal.
pub fn copy_opt_principal(p: &Option<Principal>) -> (res: Option<Principal>)
    ensures
        opt_principal(res) == opt_principal(*p),
{
    match p {
        Some(q) => Some(q.duplicate()),
        None => None,
    }
}

impl Default for Principal {
    /// The principal with no bytes.
    fn default() -> (res: Self)
        ensures
            res@ == Seq::<u8>::empty(),
    {
        Principal { bytes: Vec::new() }
    }
}

/// The bytes of each principal of a list, in order.
pub open spec fn principal_seq(ps: Seq<Principal>) -> Seq<Seq<u8>> {
    ps.map_values(|p: Principal| p@)
}

/// The list without any element equal to `x`, the others in order.
pub open spec fn without_seq(s: Seq<Seq<u8>>, x: Seq<u8>) -> Seq<Seq<u8>> {
    s.filter(differs_from(x))
}

/// Whether a byte string differs from `x`.
pub open spec fn differs_from(x: Seq<u8>) -> spec_fn(Seq<u8>) -> bool {
    |q: Seq<u8>| q != x
}

/// Taking every `x` out of a list leaves no `x`, and keeps every element
/// other than `x` that the list held.
pub proof fn lemma_without(s: Seq<Seq<u8>>, x: Seq<u8>, other: Seq<u8>)
    ensures
        !without_seq(s, x).contains(x),
        other != x ==> (without_seq(s, x).contains(other) <==> s.contains(other)),
{
    broadcast use vstd::seq_lib::group_filter_ensures;

    let pred = differs_from(x);
    let f = s.filter(pred);
    if f.contains(x) {
        let j = choose|j: int| 0 <= j < f.len() && f[j] == x;
        assert(pred(f[j]));
    }
    if other != x && s.contains(other) {
        let j = choose|j: int| 0 <= j < s.len() && s[j] == other;
        s.lemma_filter_contains(pred, j);
    }
    if other != x && f.contains(other) {
        s.lemma_filter_contains_rev(pred, other);
    }
}

/// A copy of a list of principals.
pub fn copy_principals(ps: &Vec<Principal>) -> (res: Vec<Principal>)
    ensures
        principal_seq(res@) == principal_seq(ps@),
{
    let mut res: Vec<Principal> = Vec::new();
    let mut i: usize = 0;
    while i < ps.len()
        invariant
            i <= ps@.len(),
            principal_seq(res@) =~= principal_seq(ps@.take(i as int)),
        decreases ps@.len() - i,
    {
        res.push(ps[i].duplicate());
        proof {
            assert(principal_seq(ps@.take(i + 1)) =~= principal_seq(ps@.take(i as int)).push(
                ps@[i as int]@,
            ));
        }
        i = i + 1;
    }
    assert(ps@.take(ps@.len() as int) =~= ps@);
    res
}

/// Whether a list of principals holds `p`.
pub fn contains_principal(ps: &Vec<Principal>, p: &Principal) -> (res: bool)
    ensures
        res == principal_seq(ps@).contains(p@),
{
    let mut i: usize = 0;
    while i < ps.len()
        invariant
            i <= ps@.len(),
            forall|j: int| 0 <= j < i ==> ps@[j]@ != p@,
        decreases ps@.len() - i,
    {
        if ps[i].same(p) {
            assert(principal_seq(ps@)[i as int] == p@);
            return true;
        }
        i = i + 1;
    }
    false
}

/// The list of principals without those equal to `p`, the others in order.
pub fn without_principal(ps: &Vec<Principal>, p: &Principal) -> (res: Vec<Principal>)
    ensures
        principal_seq(res@) == without_seq(principal_seq(ps@), p@),
{
    let ghost pred = differs_from(p@);
    let mut res: Vec<Principal> = Vec::new();
    let mut i: usize = 0;
    while i < ps.len()
        invariant
            i <= ps@.len(),
            pred == differs_from(p@),
            principal_seq(res@) =~= principal_seq(ps@.take(i as int)).filter(pred),
        decreases ps@.len() - i,
    {
        proof {
            reveal(Seq::filter);
            assert(principal_seq(ps@.take(i + 1)).drop_last() =~= principal_seq(
                ps@.take(i as int),
            ));
        }
        let ghost before = res@;
        if !ps[i].same(p) {
            res.push(ps[i].duplicate());
            assert(principal_seq(res@) =~= principal_seq(before).push(ps@[i as int]@));
        }
        i = i + 1;
    }
    assert(ps@.take(ps@.len() as int) =~= ps@);
    res
}

} // verus!
