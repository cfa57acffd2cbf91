//! The podcast canister's owners and administrator.
use vstd::prelude::*;
use crate::principal::{
    Principal, principal_seq, copy_principals, contains_principal, without_principal, lemma_without, without_seq, opt_principal, copy_opt_principal,
};

verus! {

/// Who owns and who administers the podcast canister.
pub struct OwnerService {
    pub owners: Vec<Principal>,
    pub admin: Option<Principal>,
}

impl Default for OwnerService {
    fn default() -> (res: Self)
        ensures
            res.owners@ == Seq::<Principal>::empty(),
            res.admin is None,
    {
        OwnerService { owners: Vec::new(), admin: None }
    }
}

impl Clone for OwnerService {
    fn clone(&self) -> (res: Self)
        ensures
            res.owner_seq() == self.owner_seq(),
            opt_principal(res.admin) == opt_principal(self.admin),
    {
        OwnerService { owners: copy_principals(&self.owners), admin: copy_opt_principal(&self.admin) }
    }
}

impl OwnerService {
    /// The owners, as bytes, in the order they were added.
    pub open spec fn owner_seq(self) -> Seq<Seq<u8>> {
        principal_seq(self.owners@)
    }

    /// Makes `admin` the administrator.
    pub fn init_admin(&mut self, admin: Principal)
        ensures
            opt_principal(final(self).admin) == Some(admin@),
            final(self).owners == old(self).owners,
    {
        self.admin = Some(admin);
    }

    /// Makes `admin` the administrator in place of the one before.
    pub fn change_admin(&mut self, admin: Principal)
        ensures
            opt_principal(final(self).admin) == Some(admin@),
            final(self).owners == old(self).owners,
    {
        self.admin = Some(admin);
    }

    /// The administrator, if any.
    pub fn get_admin(&self) -> (res: Option<Principal>)
        ensures
            opt_principal(res) == opt_principal(self.admin),
    {
        match &self.admin {
            Some(a) => Some(a.duplicate()),
            None => None,
        }
    }

    /// `Ok` where `caller` is the administrator, else the error "no auth".
    pub fn is_admin(&self, caller: Principal) -> (res: Result<(), String>)
        ensures
            res is Ok <==> opt_principal(self.admin) == Some(caller@),
            res matches Err(e) ==> e@ == "no auth"@,
    {
        let allowed = match &self.admin {
            Some(a) => a.same(&caller),
            None => false,
        };
        if allowed {
            Ok(())
        } else {
            Err("no auth".to_owned())
        }
    }

    /// Adds `principal` as the last owner.
    pub fn add_owner(&mut self, principal: Principal)
        ensures
            final(self).owner_seq() == old(self).owner_seq().push(principal@),
            opt_principal(final(self).admin) == opt_principal(old(self).admin),
    {
        let ghost p = principal@;
        self.owners.push(principal);
        assert(self.owner_seq() =~= old(self).owner_seq().push(p));
    }

    /// The owners, in the order they were added.
    pub fn get_owners(&self) -> (res: Vec<Principal>)
        ensures
            principal_seq(res@) == self.owner_seq(),
    {
        copy_principals(&self.owners)
    }

    /// `Ok` where `caller` is an owner, else the error "no auth".
    pub fn is_owner(&self, caller: Principal) -> (res: Result<(), String>)
        ensures
            res is Ok <==> self.owner_seq().contains(caller@),
            res matches Err(e) ==> e@ == "no auth"@,
    {
        if contains_principal(&self.owners, &caller) {
            return Ok(());
        }
        Err("no auth".to_owned())
    }

    /// Removes `person` from the owners; the others keep their order.
    pub fn delete_owner(&mut self, person: Principal)
        ensures
            final(self).owner_seq() == without_seq(old(self).owner_seq(), person@),
            opt_principal(final(self).admin) == opt_principal(old(self).admin),
    {
        self.owners = without_principal(&self.owners, &person);
    }
}

/// Sets up the podcast canister for the principal that installs it: that
/// principal becomes an owner and the administrator.
pub fn init(owner_service: &mut OwnerService, caller: Principal)
    ensures
        final(owner_service).owner_seq() == old(owner_service).owner_seq().push(caller@),
        opt_principal(final(owner_service).admin) == Some(caller@),
{
    let admin = caller.duplicate();
    owner_service.add_owner(caller);
    owner_service.init_admin(admin);
}

} // verus!

verus! {

/// A principal added as owner passes the owner check; a principal deleted
/// from the owners fails it, and deleting one principal leaves the check of
/// every other principal as it was.
pub proof fn lemma_owner_check_follows_owners(
    before: OwnerService,
    added: OwnerService,
    deleted: OwnerService,
    person: Seq<u8>,
    other: Seq<u8>,
)
    requires
        added.owner_seq() == before.owner_seq().push(person),
        deleted.owner_seq() == without_seq(before.owner_seq(), person),
    ensures
        added.owner_seq().contains(person),
        !deleted.owner_seq().contains(person),
        other != person ==> (deleted.owner_seq().contains(other) <==> before.owner_seq().contains(
            other,
        )),
{
    assert(added.owner_seq()[before.owner_seq().len() as int] == person);
    lemma_without(before.owner_seq(), person, other);
}

/// Only the administrator passes the administrator check.
pub proof fn lemma_only_admin_passes(service: OwnerService, admin: Seq<u8>, caller: Seq<u8>)
    requires
        opt_principal(service.admin) == Some(admin),
    ensures
        (opt_principal(service.admin) == Some(caller)) <==> caller == admin,
{
}

} // verus!
