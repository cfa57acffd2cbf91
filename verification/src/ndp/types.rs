//! What the NDP canister stores.
use vstd::prelude::*;
use crate::principal::{Principal, opt_principal, copy_opt_principal};

verus! {

/// Length of a stake, in months.
pub type StakingMonth = u8;

/// A token and an amount of it, in its smallest unit.
#[derive(Clone, Copy, Debug, PartialEq, Eq, Structural)]
pub enum TokenType {
    NDP(u64),
}

/// A stake.
pub struct StakingItem {
    pub principal: Option<Principal>,
    pub start_time: Option<u64>,
    pub duration: StakingMonth,
    pub token: TokenType,
}

/// A registered site.
pub struct SiteItem {
    pub principal: Option<Principal>,
    pub site_name: String,
    pub site_start_time: Option<u64>,
    pub site_url: String,
}

/// The description of a site's show.
pub struct SiteInfoItem {
    pub principal: Option<Principal>,
    pub site_name: String,
    pub site_start_time: Option<u64>,
    pub site_title: String,
    pub site_sub_title: String,
    pub site_cover_img: String,
    pub site_url: String,
    pub site_host: String,
    pub site_guests: String,
    pub site_commant: String,
    pub site_season: String,
    pub site_ep: String,
    pub site_avi_url: String,
    pub site_show_notes: String,
    pub site_view: String,
    pub site_status: String,
}

/// Whether `a` is a copy of `b`: the same principal bytes, the rest equal.
pub open spec fn stake_copy(a: StakingItem, b: StakingItem) -> bool {
    &&& opt_principal(a.principal) == opt_principal(b.principal)
    &&& (StakingItem { principal: b.principal, ..a }) == b
}

impl Clone for StakingItem {
    fn clone(&self) -> (res: Self)
        ensures
            stake_copy(res, *self),
    {
        StakingItem {
            principal: copy_opt_principal(&self.principal),
            start_time: self.start_time,
            duration: self.duration,
            token: self.token,
        }
    }
}

/// Whether `a` is a copy of `b`: the same principal bytes, the rest equal.
pub open spec fn site_copy(a: SiteItem, b: SiteItem) -> bool {
    &&& opt_principal(a.principal) == opt_principal(b.principal)
    &&& (SiteItem { principal: b.principal, ..a }) == b
}

impl Clone for SiteItem {
    fn clone(&self) -> (res: Self)
        ensures
            site_copy(res, *self),
    {
        SiteItem {
            principal: copy_opt_principal(&self.principal),
            site_name: self.site_name.clone(),
            site_start_time: self.site_start_time,
            site_url: self.site_url.clone(),
        }
    }
}

impl Default for SiteItem {
    /// No principal, empty texts, no start time.
    fn default() -> (res: Self)
        ensures
            res.principal is None,
            res.site_name@ == Seq::<char>::empty(),
            res.site_start_time is None,
            res.site_url@ == Seq::<char>::empty(),
    {
        SiteItem { principal: None, site_name: String::new(), site_start_time: None, site_url: String::new() }
    }
}

/// Whether `a` is a copy of `b`: the same principal bytes, the rest equal.
pub open spec fn site_info_copy(a: SiteInfoItem, b: SiteInfoItem) -> bool {
    &&& opt_principal(a.principal) == opt_principal(b.principal)
    &&& (SiteInfoItem { principal: b.principal, ..a }) == b
}

impl Clone for SiteInfoItem {
    fn clone(&self) -> (res: Self)
        ensures
            site_info_copy(res, *self),
    {
        SiteInfoItem {
            principal: copy_opt_principal(&self.principal),
            site_name: self.site_name.clone(),
            site_start_time: self.site_start_time,
            site_title: self.site_title.clone(),
            site_sub_title: self.site_sub_title.clone(),
            site_cover_img: self.site_cover_img.clone(),
            site_url: self.site_url.clone(),
            site_host: self.site_host.clone(),
            site_guests: self.site_guests.clone(),
            site_commant: self.site_commant.clone(),
            site_season: self.site_season.clone(),
            site_ep: self.site_ep.clone(),
            site_avi_url: self.site_avi_url.clone(),
            site_show_notes: self.site_show_notes.clone(),
            site_view: self.site_view.clone(),
            site_status: self.site_status.clone(),
        }
    }
}

impl Default for SiteInfoItem {
    /// No principal, empty texts, no start time.
    fn default() -> (res: Self)
        ensures
            res.principal is None,
            res.site_name@ == Seq::<char>::empty(),
            res.site_start_time is None,
            res.site_title@ == Seq::<char>::empty(),
            res.site_sub_title@ == Seq::<char>::empty(),
            res.site_cover_img@ == Seq::<char>::empty(),
            res.site_url@ == Seq::<char>::empty(),
            res.site_host@ == Seq::<char>::empty(),
            res.site_guests@ == Seq::<char>::empty(),
            res.site_commant@ == Seq::<char>::empty(),
            res.site_season@ == Seq::<char>::empty(),
            res.site_ep@ == Seq::<char>::empty(),
            res.site_avi_url@ == Seq::<char>::empty(),
            res.site_show_notes@ == Seq::<char>::empty(),
            res.site_view@ == Seq::<char>::empty(),
            res.site_status@ == Seq::<char>::empty(),
    {
        SiteInfoItem {
            principal: None,
            site_name: String::new(),
            site_start_time: None,
            site_title: String::new(),
            site_sub_title: String::new(),
            site_cover_img: String::new(),
            site_url: String::new(),
            site_host: String::new(),
            site_guests: String::new(),
            site_commant: String::new(),
            site_season: String::new(),
            site_ep: String::new(),
            site_avi_url: String::new(),
            site_show_notes: String::new(),
            site_view: String::new(),
            site_status: String::new(),
        }
    }
}

} // verus!
