//! What a caller sends to set the podcast's base information.
use vstd::prelude::*;

verus! {

/// The base information that a caller sets; the times are the canister's.
pub struct SetBaseInfoRes {
    pub name: String,
    pub describe: String,
    pub icon: String,
    pub cover_image: String,
}

impl Clone for SetBaseInfoRes {
    fn clone(&self) -> (res: Self)
        ensures
            res == *self,
    {
        SetBaseInfoRes {
            name: self.name.clone(),
            describe: self.describe.clone(),
            icon: self.icon.clone(),
            cover_image: self.cover_image.clone(),
        }
    }
}

} // verus!
