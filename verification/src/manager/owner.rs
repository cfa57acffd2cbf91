//! The manager canister's administrator.
use vstd::prelude::*;
use crate::principal::{Principal, opt_principal};

verus! {

/// Who administers the manager canister, if anyone yet.
pub struct OwnerService {
    pub admin: Option<Principal>,
}

impl Default for OwnerService {
    fn default() -> (res: Self)
        ensures
            res.admin is None,
    {
        OwnerService { admin: None }
    }
}

impl Clone for OwnerService {
    fn clone(&self) -> (res: Self)
        ensures
            opt_principal(res.admin) == opt_principal(self.admin),
    {
        OwnerService { admin: self.get_admin() }
    }
}

impl OwnerService {
    /// Makes `admin` the administrator.
    pub fn init_admin(&mut self, admin: Principal)
        ensures
            opt_principal(final(self).admin) == Some(admin@),
    {
        self.admin = Some(admin);
    }

    /// Makes `admin` the administrator in place of the one before.
    pub fn change_admin(&mut self, admin: Principal)
        ensures
            opt_principal(final(self).admin) == Some(admin@),
    {
        self.admin = Some(admin);
    }

    /// The administrator, if any.
    pub fn get_admin(&self) -> (res: Option<Principal>)
        ensures
            opt_principal(res) == opt_principal(self.admin),
    {
        match &self.admin {
            Some(a) => Some(a.duplicate()),
            None => None,
        }
    }

    /// `Ok` where `caller` is the administrator, else the error "no auth".
    pub fn is_admin(&self, caller: Principal) -> (res: Result<(), String>)
        ensures
            res is Ok <==> opt_principal(self.admin) == Some(caller@),
            res matches Err(e) ==> e@ == "no auth"@,
    {
        let allowed = match &self.admin {
            Some(a) => a.same(&caller),
            None => false,
        };
        if allowed {
            Ok(())
        } else {
            Err("no auth".to_owned())
        }
    }
}

} // verus!
