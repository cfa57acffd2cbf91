use podcast_dapp::podcast::owner::{init, OwnerService};
use podcast_dapp::podcast::podcast::{
    create_base_info, update_base_info, Categories, Info, Language, PodcastIterm, PodcastService,
    SocialLink,
};
use podcast_dapp::podcast::types::SetBaseInfoRes;
use podcast_dapp::principal::Principal;

fn p(bytes: &[u8]) -> Principal {
    Principal::from_slice(bytes)
}

fn episode(title: &str, at: u64) -> PodcastIterm {
    PodcastIterm {
        title: title.to_owned(),
        sub_title: "sub".to_owned(),
        describe: "about".to_owned(),
        show_note: "notes".to_owned(),
        cover_image: "cover.png".to_owned(),
        link: "https://example.org".to_owned(),
        hosts: p(&[1]),
        guests: vec![p(&[2]), p(&[3])],
        categories: Categories::Default,
        language: Language::Chinese,
        tag: vec!["a".to_owned(), "b".to_owned()],
        status: true,
        create_at: at,
        update_at: at,
    }
}

fn base(name: &str) -> SetBaseInfoRes {
    SetBaseInfoRes {
        name: name.to_owned(),
        describe: "d".to_owned(),
        icon: "i".to_owned(),
        cover_image: "c".to_owned(),
    }
}

#[test]
fn defaults() {
    assert_eq!(Categories::default(), Categories::Default);
    assert_eq!(Language::default(), Language::English);
    let s = PodcastService::default();
    assert_eq!(s.id, 0);
    assert!(s.list.is_empty());
    assert_eq!(s.info.name, "");
    assert_eq!(s.get_social_link().blog, "");
}

#[test]
fn create_podcast_numbers_episodes() {
    let mut s = PodcastService::default();
    s.create_podcast(episode("one", 5));
    s.create_podcast(episode("two", 6));
    assert_eq!(s.id, 2);
    assert_eq!(s.get_podcast(1).unwrap().title, "one");
    assert_eq!(s.get_podcast(2).unwrap().title, "two");
    assert!(s.get_podcast(3).is_none());
    assert!(s.get_podcast(0).is_none());
    assert_eq!(s.get_podcast_list().len(), 2);
}

#[test]
fn get_podcast_returns_a_full_copy() {
    let mut s = PodcastService::default();
    s.create_podcast(episode("one", 5));
    let e = s.get_podcast(1).unwrap();
    assert_eq!(e.sub_title, "sub");
    assert!(e.hosts.same(&p(&[1])));
    assert_eq!(e.guests.len(), 2);
    assert!(e.guests[1].same(&p(&[3])));
    assert_eq!(e.language, Language::Chinese);
    assert_eq!(e.tag, vec!["a".to_owned(), "b".to_owned()]);
    assert!(e.status);
    assert_eq!(e.create_at, 5);
}

#[test]
fn generate_id_counts_up() {
    let mut s = PodcastService::default();
    assert_eq!(s.generate_id(), 1);
    assert_eq!(s.generate_id(), 2);
    assert_eq!(s.id, 2);
}

#[test]
fn update_podcast_keeps_creation_time_and_reports_error() {
    let mut s = PodcastService::default();
    s.create_podcast(episode("one", 5));
    let r = s.update_podcast(1, episode("renamed", 99), 42);
    assert_eq!(r, Err("id is not exist".to_owned()));
    let e = s.get_podcast(1).unwrap();
    assert_eq!(e.title, "renamed");
    assert_eq!(e.create_at, 5);
    assert_eq!(e.update_at, 42);
}

#[test]
fn update_podcast_of_missing_id_changes_nothing() {
    let mut s = PodcastService::default();
    s.create_podcast(episode("one", 5));
    let r = s.update_podcast(7, episode("other", 1), 42);
    assert_eq!(r, Err("id is not exist".to_owned()));
    assert!(s.get_podcast(7).is_none());
    assert_eq!(s.get_podcast_list().len(), 1);
    assert_eq!(s.get_podcast(1).unwrap().title, "one");
}

#[test]
fn base_info_create_and_update() {
    let mut s = PodcastService::default();
    create_base_info(&mut s, base("show"), 100);
    let i = s.get_base_info();
    assert_eq!(i.name, "show");
    assert_eq!(i.create_at, 100);
    assert_eq!(i.update_at, 100);
    update_base_info(&mut s, base("renamed"), 200);
    let i = s.get_base_info();
    assert_eq!(i.name, "renamed");
    assert_eq!(i.describe, "d");
    assert_eq!(i.create_at, 100);
    assert_eq!(i.update_at, 200);
    s.create_info(Info {
        name: "n".to_owned(),
        describe: String::new(),
        icon: String::new(),
        cover_image: String::new(),
        create_at: 1,
        update_at: 2,
    });
    assert_eq!(s.get_base_info().update_at, 2);
}

#[test]
fn social_links() {
    let mut s = PodcastService::default();
    let mut l = SocialLink::default();
    l.github = "gh".to_owned();
    l.dmail = "dm".to_owned();
    s.set_social_link(l);
    let got = s.get_social_link();
    assert_eq!(got.github, "gh");
    assert_eq!(got.dmail, "dm");
    assert_eq!(got.email, "");
}

#[test]
fn owners_and_admin() {
    let mut o = OwnerService::default();
    assert_eq!(o.is_owner(p(&[1])), Err("no auth".to_owned()));
    init(&mut o, p(&[1]));
    assert_eq!(o.is_owner(p(&[1])), Ok(()));
    assert_eq!(o.is_admin(p(&[1])), Ok(()));
    o.add_owner(p(&[2]));
    o.add_owner(p(&[1]));
    assert_eq!(o.get_owners().len(), 3);
    o.delete_owner(p(&[1]));
    assert_eq!(o.is_owner(p(&[1])), Err("no auth".to_owned()));
    assert_eq!(o.is_owner(p(&[2])), Ok(()));
    assert_eq!(o.get_owners().len(), 1);
    assert_eq!(o.is_admin(p(&[1])), Ok(()));
    o.change_admin(p(&[2]));
    assert_eq!(o.is_admin(p(&[1])), Err("no auth".to_owned()));
    assert!(o.get_admin().unwrap().same(&p(&[2])));
}

#[test]
fn clones_and_default_episode() {
    let e = PodcastIterm::default();
    assert!(e.hosts.as_slice().is_empty());
    assert_eq!(e.language, Language::English);
    assert!(!e.status);
    let mut s = PodcastService::default();
    s.create_podcast(episode("one", 5));
    let c = s.clone();
    assert_eq!(c.id, 1);
    assert_eq!(c.get_podcast(1).unwrap().title, "one");
    let mut o = OwnerService::default();
    init(&mut o, p(&[1]));
    let oc = o.clone();
    assert_eq!(oc.is_admin(p(&[1])), Ok(()));
    assert_eq!(oc.is_owner(p(&[1])), Ok(()));
    assert_eq!(base("x").clone().name, "x");
}
