//! The podcast's base information, its episodes and its social links.
use std::collections::HashMap;
use vstd::prelude::*;
use crate::principal::{Principal, principal_seq, copy_principals};
use crate::podcast::types::SetBaseInfoRes;

verus! {

broadcast use vstd::std_specs::hash::group_hash_axioms;

/// Identifier of an episode.
pub type Id = u64;

/// A copy of a list of strings.
pub fn copy_strings(v: &Vec<String>) -> (res: Vec<String>)
    ensures
        res@ == v@,
{
    let mut res: Vec<String> = Vec::new();
    let mut i: usize = 0;
    while i < v.len()
        invariant
            i <= v@.len(),
            res@ =~= v@.take(i as int),
        decreases v@.len() - i,
    {
        res.push(v[i].clone());
        i = i + 1;
    }
    assert(v@.take(v@.len() as int) =~= v@);
    res
}

/// The texts of a list of strings, in order.
pub open spec fn string_views(v: Seq<String>) -> Seq<Seq<char>> {
    v.map_values(|t: String| t@)
}

/// The podcast's base information.
pub struct Info {
    pub name: String,
    pub describe: String,
    pub icon: String,
    pub cover_image: String,
    pub create_at: u64,
    pub update_at: u64,
}

/// Whether the information is all empty text and zero times.
pub open spec fn info_is_blank(info: Info) -> bool {
    &&& info.name@ == Seq::<char>::empty()
    &&& info.describe@ == Seq::<char>::empty()
    &&& info.icon@ == Seq::<char>::empty()
    &&& info.cover_image@ == Seq::<char>::empty()
    &&& info.create_at == 0
    &&& info.update_at == 0
}

impl Default for Info {
    fn default() -> (res: Self)
        ensures
            info_is_blank(res),
    {
        Info {
            name: String::new(),
            describe: String::new(),
            icon: String::new(),
            cover_image: String::new(),
            create_at: 0,
            update_at: 0,
        }
    }
}

impl Clone for Info {
    fn clone(&self) -> (res: Self)
        ensures
            res == *self,
    {
        self.duplicate()
    }
}

impl Info {
    /// A copy of the information.
    pub fn duplicate(&self) -> (res: Info)
        ensures
            res == *self,
    {
        Info {
            name: self.name.clone(),
            describe: self.describe.clone(),
            icon: self.icon.clone(),
            cover_image: self.cover_image.clone(),
            create_at: self.create_at,
            update_at: self.update_at,
        }
    }
}

/// The category of an episode.
#[derive(Clone, Copy, Debug, PartialEq, Eq, Structural)]
pub enum Categories {
    Default,
}

impl Default for Categories {
    fn default() -> (res: Self)
        ensures
            res == Categories::Default,
    {
        Categories::Default
    }
}

/// The language of an episode.
#[derive(Clone, Copy, Debug, PartialEq, Eq, Structural)]
pub enum Language {
    English,
    Chinese,
    Japanese,
    Korean,
    Arabic,
}

impl Default for Language {
    fn default() -> (res: Self)
        ensures
            res == Language::English,
    {
        Language::English
    }
}

/// Where the podcast can be found elsewhere.
pub struct SocialLink {
    pub blog: String,
    pub email: String,
    pub telegram: String,
    pub twitter: String,
    pub github: String,
    pub instagram: String,
    pub openchat: String,
    pub distrikt: String,
    pub dscvr: String,
    pub dmail: String,
}

impl Default for SocialLink {
    fn default() -> (res: Self)
        ensures
            res.blog@ == Seq::<char>::empty(),
            res.email@ == Seq::<char>::empty(),
            res.telegram@ == Seq::<char>::empty(),
            res.twitter@ == Seq::<char>::empty(),
            res.github@ == Seq::<char>::empty(),
            res.instagram@ == Seq::<char>::empty(),
            res.openchat@ == Seq::<char>::empty(),
            res.distrikt@ == Seq::<char>::empty(),
            res.dscvr@ == Seq::<char>::empty(),
            res.dmail@ == Seq::<char>::empty(),
    {
        SocialLink {
            blog: String::new(),
            email: String::new(),
            telegram: String::new(),
            twitter: String::new(),
            github: String::new(),
            instagram: String::new(),
            openchat: String::new(),
            distrikt: String::new(),
            dscvr: String::new(),
            dmail: String::new(),
        }
    }
}

impl Clone for SocialLink {
    fn clone(&self) -> (res: Self)
        ensures
            res == *self,
    {
        self.duplicate()
    }
}

impl SocialLink {
    /// A copy of the links.
    pub fn duplicate(&self) -> (res: SocialLink)
        ensures
            res == *self,
    {
        SocialLink {
            blog: self.blog.clone(),
            email: self.email.clone(),
            telegram: self.telegram.clone(),
            twitter: self.twitter.clone(),
            github: self.github.clone(),
            instagram: self.instagram.clone(),
            openchat: self.openchat.clone(),
            distrikt: self.distrikt.clone(),
            dscvr: self.dscvr.clone(),
            dmail: self.dmail.clone(),
        }
    }
}

/// An episode.
pub struct PodcastIterm {
    pub title: String,
    pub sub_title: String,
    pub describe: String,
    pub show_note: String,
    pub cover_image: String,
    pub link: String,
    pub hosts: Principal,
    pub guests: Vec<Principal>,
    pub categories: Categories,
    pub language: Language,
    pub tag: Vec<String>,
    pub status: bool,
    pub create_at: u64,
    pub update_at: u64,
}

/// An episode as plain values.
pub struct PodcastItemView {
    pub title: Seq<char>,
    pub sub_title: Seq<char>,
    pub describe: Seq<char>,
    pub show_note: Seq<char>,
    pub cover_image: Seq<char>,
    pub link: Seq<char>,
    pub hosts: Seq<u8>,
    pub guests: Seq<Seq<u8>>,
    pub categories: Categories,
    pub language: Language,
    pub tag: Seq<Seq<char>>,
    pub status: bool,
    pub create_at: u64,
    pub update_at: u64,
}

impl View for PodcastIterm {
    type V = PodcastItemView;

    open spec fn view(&self) -> PodcastItemView {
        PodcastItemView {
            title: self.title@,
            sub_title: self.sub_title@,
            describe: self.describe@,
            show_note: self.show_note@,
            cover_image: self.cover_image@,
            link: self.link@,
            hosts: self.hosts@,
            guests: principal_seq(self.guests@),
            categories: self.categories,
            language: self.language,
            tag: string_views(self.tag@),
            status: self.status,
            create_at: self.create_at,
            update_at: self.update_at,
        }
    }
}

impl PodcastIterm {
    /// A copy of the episode.
    pub fn duplicate(&self) -> (res: PodcastIterm)
        ensures
            res@ == self@,
    {
        let tag = copy_strings(&self.tag);
        let res = PodcastIterm {
            title: self.title.clone(),
            sub_title: self.sub_title.clone(),
            describe: self.describe.clone(),
            show_note: self.show_note.clone(),
            cover_image: self.cover_image.clone(),
            link: self.link.clone(),
            hosts: self.hosts.duplicate(),
            guests: copy_principals(&self.guests),
            categories: self.categories,
            language: self.language,
            tag: tag,
            status: self.status,
            create_at: self.create_at,
            update_at: self.update_at,
        };
        assert(string_views(res.tag@) =~= string_views(self.tag@));
        res
    }
}

impl Clone for PodcastIterm {
    fn clone(&self) -> (res: Self)
        ensures
            res@ == self@,
    {
        self.duplicate()
    }
}

impl Default for PodcastIterm {
    /// An episode of empty texts and lists, hosted by the principal with no
    /// bytes, in the default category and language, off, at time zero.
    fn default() -> (res: Self)
        ensures
            res@ == (PodcastItemView {
                title: Seq::empty(),
                sub_title: Seq::empty(),
                describe: Seq::empty(),
                show_note: Seq::empty(),
                cover_image: Seq::empty(),
                link: Seq::empty(),
                hosts: Seq::empty(),
                guests: Seq::empty(),
                categories: Categories::Default,
                language: Language::English,
                tag: Seq::empty(),
                status: false,
                create_at: 0,
                update_at: 0,
            }),
    {
        let res = PodcastIterm {
            title: String::new(),
            sub_title: String::new(),
            describe: String::new(),
            show_note: String::new(),
            cover_image: String::new(),
            link: String::new(),
            hosts: Principal::default(),
            guests: Vec::new(),
            categories: Categories::default(),
            language: Language::default(),
            tag: Vec::new(),
            status: false,
            create_at: 0,
            update_at: 0,
        };
        assert(principal_seq(res.guests@) =~= Seq::<Seq<u8>>::empty());
        assert(string_views(res.tag@) =~= Seq::<Seq<char>>::empty());
        res
    }
}

/// The episode that an update makes of `podcast`: its fields, but the
/// creation time of the episode it replaces and the time of the update.
pub open spec fn updated_item(podcast: PodcastIterm, create_at: u64, now: u64) -> PodcastIterm {
    PodcastIterm { create_at: create_at, update_at: now, ..podcast }
}

/// The podcast canister's state.
pub struct PodcastService {
    pub info: Info,
    /// The last identifier handed out.
    pub id: Id,
    /// The episodes, by identifier.
    pub list: HashMap<Id, PodcastIterm>,
    pub tag: Vec<String>,
    pub social_link: SocialLink,
}

impl Default for PodcastService {
    fn default() -> (res: Self)
        ensures
            res.is_fresh(),
            info_is_blank(res.info),
            res.info.name@ == Seq::<char>::empty(),
            res.info.describe@ == Seq::<char>::empty(),
            res.info.icon@ == Seq::<char>::empty(),
            res.info.cover_image@ == Seq::<char>::empty(),
            res.info.create_at == 0,
            res.info.update_at == 0,
            res.id == 0,
            res.list@ == Map::<Id, PodcastIterm>::empty(),
            res.tag@ == Seq::<String>::empty(),
            res.social_link.blog@ == Seq::<char>::empty(),
            res.social_link.email@ == Seq::<char>::empty(),
            res.social_link.telegram@ == Seq::<char>::empty(),
            res.social_link.twitter@ == Seq::<char>::empty(),
            res.social_link.github@ == Seq::<char>::empty(),
            res.social_link.instagram@ == Seq::<char>::empty(),
            res.social_link.openchat@ == Seq::<char>::empty(),
            res.social_link.distrikt@ == Seq::<char>::empty(),
            res.social_link.dscvr@ == Seq::<char>::empty(),
            res.social_link.dmail@ == Seq::<char>::empty(),
    {
        PodcastService {
            info: Info::default(),
            id: 0,
            list: HashMap::new(),
            tag: Vec::new(),
            social_link: SocialLink::default(),
        }
    }
}

impl Clone for PodcastService {
    fn clone(&self) -> (res: Self)
        ensures
            res.info == self.info,
            res.id == self.id,
            res.list@.dom() == self.list@.dom(),
            forall|k: Id| #[trigger] res.list@.contains_key(k) ==> res.list@[k]@ == self.list@[k]@,
            res.tag@ == self.tag@,
            res.social_link == self.social_link,
    {
        PodcastService {
            info: self.info.duplicate(),
            id: self.id,
            list: self.get_podcast_list(),
            tag: copy_strings(&self.tag),
            social_link: self.social_link.duplicate(),
        }
    }
}

impl PodcastService {
    /// Whether this is the state of a podcast canister that was just set up:
    /// blank information, no identifier handed out, no episode, no tag, and
    /// every social link empty.
    pub open spec fn is_fresh(self) -> bool {
        &&& info_is_blank(self.info)
        &&& self.id == 0
        &&& self.list@ == Map::<Id, PodcastIterm>::empty()
        &&& self.tag@ == Seq::<String>::empty()
        &&& self.social_link.blog@ == Seq::<char>::empty()
        &&& self.social_link.email@ == Seq::<char>::empty()
        &&& self.social_link.telegram@ == Seq::<char>::empty()
        &&& self.social_link.twitter@ == Seq::<char>::empty()
        &&& self.social_link.github@ == Seq::<char>::empty()
        &&& self.social_link.instagram@ == Seq::<char>::empty()
        &&& self.social_link.openchat@ == Seq::<char>::empty()
        &&& self.social_link.distrikt@ == Seq::<char>::empty()
        &&& self.social_link.dscvr@ == Seq::<char>::empty()
        &&& self.social_link.dmail@ == Seq::<char>::empty()
    }

    /// Every episode's identifier is one that was handed out.
    pub open spec fn ids_issued(self) -> bool {
        forall|k: Id| #[trigger] self.list@.contains_key(k) ==> 1 <= k <= self.id
    }

    /// Stores `podcast` under the next identifier.
    pub fn create_podcast(&mut self, podcast: PodcastIterm)
        requires
            old(self).id < u64::MAX,
        ensures
            final(self).id == old(self).id + 1,
            final(self).list@ == old(self).list@.insert(final(self).id, podcast),
            final(self).info == old(self).info,
            final(self).tag == old(self).tag,
            final(self).social_link == old(self).social_link,
    {
        let id = self.generate_id();
        self.list.insert(id, podcast);
    }

    /// Replaces the episode under `id`, if there is one, by `podcast` with
    /// the old creation time and `now` as update time. Whatever it did, it
    /// answers the error "id is not exist".
    pub fn update_podcast(&mut self, id: Id, podcast: PodcastIterm, now: u64) -> (res: Result<
        (),
        String,
    >)
        ensures
            old(self).list@.contains_key(id) ==> final(self).list@ == old(self).list@.insert(
                id,
                updated_item(podcast, old(self).list@[id].create_at, now),
            ),
            old(self).list@.contains_key(id) ==> final(self).list@.contains_key(id)
                && final(self).list@[id].title == podcast.title
                && final(self).list@[id].sub_title == podcast.sub_title
                && final(self).list@[id].describe == podcast.describe
                && final(self).list@[id].show_note == podcast.show_note
                && final(self).list@[id].cover_image == podcast.cover_image
                && final(self).list@[id].link == podcast.link
                && final(self).list@[id].hosts == podcast.hosts
                && final(self).list@[id].guests == podcast.guests
                && final(self).list@[id].categories == podcast.categories
                && final(self).list@[id].language == podcast.language
                && final(self).list@[id].tag == podcast.tag
                && final(self).list@[id].status == podcast.status
                && final(self).list@[id].create_at == old(self).list@[id].create_at
                && final(self).list@[id].update_at == now,
            !old(self).list@.contains_key(id) ==> final(self).list@ == old(self).list@,
            (res matches Err(e) && e@ == "id is not exist"@),
            final(self).id == old(self).id,
            final(self).info == old(self).info,
            final(self).tag == old(self).tag,
            final(self).social_link == old(self).social_link,
    {
        let create_at = match self.list.get(&id) {
            Some(item) => Some(item.create_at),
            None => None,
        };
        if let Some(create_at) = create_at {
            self.list.insert(
                id,
                PodcastIterm {
                    title: podcast.title,
                    describe: podcast.describe,
                    sub_title: podcast.sub_title,
                    show_note: podcast.show_note,
                    cover_image: podcast.cover_image,
                    link: podcast.link,
                    hosts: podcast.hosts,
                    guests: podcast.guests,
                    categories: podcast.categories,
                    language: podcast.language,
                    tag: podcast.tag,
                    status: podcast.status,
                    create_at: create_at,
                    update_at: now,
                },
            );
        }
        Err("id is not exist".to_owned())
    }

    /// Sets the base information.
    pub fn create_info(&mut self, info: Info)
        ensures
            final(self).info == info,
            final(self).id == old(self).id,
            final(self).list@ == old(self).list@,
            final(self).tag == old(self).tag,
            final(self).social_link == old(self).social_link,
    {
        self.info = info;
    }

    /// Hands out the next identifier.
    pub fn generate_id(&mut self) -> (res: Id)
        requires
            old(self).id < u64::MAX,
        ensures
            res == old(self).id + 1,
            final(self).id == res,
            final(self).info == old(self).info,
            final(self).list@ == old(self).list@,
            final(self).tag == old(self).tag,
            final(self).social_link == old(self).social_link,
    {
        self.id = self.id + 1;
        self.id
    }

    /// The base information.
    pub fn get_base_info(&self) -> (res: Info)
        ensures
            res == self.info,
    {
        self.info.duplicate()
    }

    /// The social links.
    pub fn get_social_link(&self) -> (res: SocialLink)
        ensures
            res == self.social_link,
    {
        self.social_link.duplicate()
    }

    /// Sets the social links.
    pub fn set_social_link(&mut self, social_link: SocialLink)
        ensures
            final(self).social_link == social_link,
            final(self).info == old(self).info,
            final(self).id == old(self).id,
            final(self).list@ == old(self).list@,
            final(self).tag == old(self).tag,
    {
        self.social_link = social_link;
    }

    /// A copy of all episodes.
    pub fn get_podcast_list(&self) -> (res: HashMap<Id, PodcastIterm>)
        ensures
            res@.dom() == self.list@.dom(),
            forall|k: Id| #[trigger] res@.contains_key(k) ==> res@[k]@ == self.list@[k]@,
    {
        let mut res: HashMap<Id, PodcastIterm> = HashMap::new();
        for k in it: self.list.keys()
            invariant
                forall|j: int| 0 <= j < it.index() ==> #[trigger] res@.contains_key(*it.seq()[j]),
                forall|key: Id| #[trigger] res@.contains_key(key) ==> self.list@.contains_key(key)
                    && res@[key]@ == self.list@[key]@,
                it.seq().unref().to_set() == self.list@.dom(),
            ensures
                forall|key: Id| #[trigger] self.list@.contains_key(key) ==> res@.contains_key(key),
        {
            if let Some(item) = self.list.get(k) {
                res.insert(*k, item.duplicate());
            }
        }
        assert(res@.dom() =~= self.list@.dom());
        res
    }

    /// The episode under `id`, if any.
    pub fn get_podcast(&self, id: Id) -> (res: Option<PodcastIterm>)
        ensures
            res is Some <==> self.list@.contains_key(id),
            res matches Some(item) ==> item@ == self.list@[id]@,
    {
        if let Some(item) = self.list.get(&id) {
            return Some(item.duplicate());
        }
        return None;
    }
}

/// The base information made of `res`, created and updated at `now`.
pub open spec fn new_info(res: SetBaseInfoRes, now: u64) -> Info {
    Info {
        name: res.name,
        icon: res.icon,
        describe: res.describe,
        cover_image: res.cover_image,
        create_at: now,
        update_at: now,
    }
}

/// Sets the podcast's base information from `res`, created and updated at
/// `now`.
pub fn create_base_info(service: &mut PodcastService, res: SetBaseInfoRes, now: u64)
    ensures
        final(service).info == new_info(res, now),
        final(service).info.name == res.name,
        final(service).info.describe == res.describe,
        final(service).info.icon == res.icon,
        final(service).info.cover_image == res.cover_image,
        final(service).info.create_at == now,
        final(service).info.update_at == now,
        final(service).id == old(service).id,
        final(service).list@ == old(service).list@,
        final(service).tag == old(service).tag,
        final(service).social_link == old(service).social_link,
{
    let info = Info {
        name: res.name,
        icon: res.icon,
        describe: res.describe,
        cover_image: res.cover_image,
        create_at: now,
        update_at: now,
    };
    service.create_info(info);
}

/// Sets the podcast's base information from `res`, keeping its creation
/// time, updated at `now`.
pub fn update_base_info(service: &mut PodcastService, res: SetBaseInfoRes, now: u64)
    ensures
        final(service).info == (Info { create_at: old(service).info.create_at, ..new_info(res, now) }),
        final(service).info.name == res.name,
        final(service).info.describe == res.describe,
        final(service).info.icon == res.icon,
        final(service).info.cover_image == res.cover_image,
        final(service).info.create_at == old(service).info.create_at,
        final(service).info.update_at == now,
        final(service).id == old(service).id,
        final(service).list@ == old(service).list@,
        final(service).tag == old(service).tag,
        final(service).social_link == old(service).social_link,
{
    let old_info = service.get_base_info();
    let info = Info {
        name: res.name,
        icon: res.icon,
        describe: res.describe,
        cover_image: res.cover_image,
        create_at: old_info.create_at,
        update_at: now,
    };
    service.create_info(info);
}

} // verus!

verus! {

/// A new episode never takes the place of another: its identifier was not in
/// use, every episode keeps an identifier that was handed out, and the new
/// episode is the one stored.
pub proof fn lemma_create_podcast_fresh(
    before: PodcastService,
    after: PodcastService,
    podcast: PodcastIterm,
)
    requires
        before.ids_issued(),
        after.id == before.id + 1,
        after.list@ == before.list@.insert(after.id, podcast),
    ensures
        !before.list@.contains_key(after.id),
        after.ids_issued(),
        after.list@.contains_key(after.id) && after.list@[after.id]@ == podcast@,
        forall|k: Id| #[trigger] before.list@.contains_key(k) ==> after.list@.contains_key(k)
            && after.list@[k] == before.list@[k],
{
}

/// An update adds no episode, keeps the creation time of the episode it
/// replaces and stamps it with the update time; every episode keeps an
/// identifier that was handed out.
pub proof fn lemma_update_podcast_keeps_ids(
    before: PodcastService,
    after: PodcastService,
    id: Id,
    podcast: PodcastIterm,
    now: u64,
)
    requires
        before.ids_issued(),
        after.id == before.id,
        before.list@.contains_key(id) ==> after.list@ == before.list@.insert(
            id,
            updated_item(podcast, before.list@[id].create_at, now),
        ),
        !before.list@.contains_key(id) ==> after.list@ == before.list@,
    ensures
        after.ids_issued(),
        after.list@.dom() == before.list@.dom(),
        before.list@.contains_key(id) ==> after.list@[id].create_at == before.list@[id].create_at
            && after.list@[id].update_at == now,
{
    if before.list@.contains_key(id) {
        assert(after.list@.dom() =~= before.list@.dom());
    }
}

} // verus!

verus! {

/// Setting the base information from a request stores each text of the
/// request in the field of the same name, with `now` as both times; an update
/// does the same but keeps the creation time it had.
pub proof fn lemma_base_info_takes_request_fields(
    res: SetBaseInfoRes,
    now: u64,
    created: Info,
    updated: Info,
    before: Info,
)
    requires
        created == new_info(res, now),
        updated == (Info { create_at: before.create_at, ..new_info(res, now) }),
    ensures
        created.name == res.name && created.describe == res.describe && created.icon == res.icon
            && created.cover_image == res.cover_image,
        created.create_at == now && created.update_at == now,
        updated.name == res.name && updated.describe == res.describe && updated.icon == res.icon
            && updated.cover_image == res.cover_image,
        updated.create_at == before.create_at && updated.update_at == now,
{
}

/// The episode that an update stores has every field of the given episode
/// but the two times: the creation time of the episode it replaces, and the
/// time of the update.
pub proof fn lemma_updated_item_fields(podcast: PodcastIterm, create_at: u64, now: u64)
    ensures
        updated_item(podcast, create_at, now).title == podcast.title,
        updated_item(podcast, create_at, now).sub_title == podcast.sub_title,
        updated_item(podcast, create_at, now).describe == podcast.describe,
        updated_item(podcast, create_at, now).show_note == podcast.show_note,
        updated_item(podcast, create_at, now).cover_image == podcast.cover_image,
        updated_item(podcast, create_at, now).link == podcast.link,
        updated_item(podcast, create_at, now).hosts == podcast.hosts,
        updated_item(podcast, create_at, now).guests == podcast.guests,
        updated_item(podcast, create_at, now).categories == podcast.categories,
        updated_item(podcast, create_at, now).language == podcast.language,
        updated_item(podcast, create_at, now).tag == podcast.tag,
        updated_item(podcast, create_at, now).status == podcast.status,
        updated_item(podcast, create_at, now).create_at == create_at,
        updated_item(podcast, create_at, now).update_at == now,
{
}

/// A podcast canister that was just set up has no episode, no identifier
/// handed out, blank information and only empty social links.
pub proof fn lemma_fresh_podcast_is_blank(service: PodcastService)
    requires
        service.is_fresh(),
    ensures
        service.social_link.blog@.len() == 0,
        service.social_link.email@.len() == 0,
        service.social_link.telegram@.len() == 0,
        service.social_link.twitter@.len() == 0,
        service.social_link.github@.len() == 0,
        service.social_link.instagram@.len() == 0,
        service.social_link.openchat@.len() == 0,
        service.social_link.distrikt@.len() == 0,
        service.social_link.dscvr@.len() == 0,
        service.social_link.dmail@.len() == 0,
        service.info.name@.len() == 0 && service.info.describe@.len() == 0,
        service.info.icon@.len() == 0 && service.info.cover_image@.len() == 0,
        service.info.create_at == 0 && service.info.update_at == 0,
        service.id == 0,
        forall|k: Id| !service.list@.contains_key(k),
{
}

} // verus!

verus! {

/// Two episodes with the same view agree on every field: their texts, host,
/// guests, category, language, tags, status and times.
pub proof fn lemma_view_keeps_every_field(a: PodcastIterm, b: PodcastIterm)
    requires
        a@ == b@,
    ensures
        a.title@ == b.title@ && a.sub_title@ == b.sub_title@ && a.describe@ == b.describe@,
        a.show_note@ == b.show_note@ && a.cover_image@ == b.cover_image@ && a.link@ == b.link@,
        a.hosts@ == b.hosts@ && principal_seq(a.guests@) == principal_seq(b.guests@),
        a.categories == b.categories && a.language == b.language,
        a.tag@.len() == b.tag@.len() && forall|i: int| 0 <= i < a.tag@.len() ==> #[trigger] a.tag@[i]@
            == b.tag@[i]@,
        a.status == b.status && a.create_at == b.create_at && a.update_at == b.update_at,
{
    assert(string_views(a.tag@) == string_views(b.tag@));
    assert forall|i: int| 0 <= i < a.tag@.len() implies #[trigger] a.tag@[i]@ == b.tag@[i]@ by {
        assert(string_views(a.tag@)[i] == string_views(b.tag@)[i]);
    }
}

} // verus!
