//! Who set up the NDP canister and under which principal it runs.
use vstd::prelude::*;
use crate::principal::{Principal, opt_principal, copy_opt_principal, principal_text};

verus! {

/// The NDP canister's owner and the text of its own principal.
pub struct Metadata {
    pub owner: Option<Principal>,
    pub canister_id: String,
}

impl Default for Metadata {
    fn default() -> (res: Self)
        ensures
            res.owner is None,
            res.canister_id@ == Seq::<char>::empty(),
    {
        Metadata { owner: None, canister_id: String::new() }
    }
}

impl Clone for Metadata {
    fn clone(&self) -> (res: Self)
        ensures
            opt_principal(res.owner) == opt_principal(self.owner),
            res.canister_id == self.canister_id,
    {
        Metadata { owner: copy_opt_principal(&self.owner), canister_id: self.canister_id.clone() }
    }
}

/// Sets up the NDP canister, installed by `caller` and running as
/// `canister`: the installer is the owner, and the canister's principal is
/// kept as text.
pub fn init(metadata: &mut Metadata, caller: Principal, canister: Principal)
    ensures
        opt_principal(final(metadata).owner) == Some(caller@),
        final(metadata).canister_id@ == principal_text(canister@),
{
    metadata.owner = Some(caller);
    metadata.canister_id = canister.to_text();
}

} // verus!
