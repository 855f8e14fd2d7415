use bliss::bliss::error::Error;
use bliss::bliss::pull::{Pull, PullStage};
use bliss::bliss::step::{Action, Asset, Event};
use bliss::bliss::util::LogEntry;
use bliss::bliss::Bliss;
use bliss::clock::Timestamp;
use bliss::lemmy::site::{
    CommunityRecord, GetSiteResponse, ListingType, LocalUser, MyUserInfo, PersonRecord, SortType,
};
use bliss::lemmy::LemmyError;
use bliss::profile::local_profile::{
    LocalProfile, AVATAR_FILENAME, BANNER_FILENAME, PROFILE_FILENAME, PROFILE_PATH_RELATIVE,
};
use bliss::profile::settings::Settings;
use bliss::profile::{Info, Meta, Profile};
use bliss::user::{Authorized, User};

fn session() -> User<Authorized> {
    User::new("me", "https://a.example/".to_string()).authorize("token".to_string())
}

fn community_record(id: i32, name: &str, actor: &str) -> CommunityRecord {
    CommunityRecord { id, name: name.to_string(), actor_id: actor.to_string() }
}

fn person_record(id: i32, name: &str, actor: &str) -> PersonRecord {
    PersonRecord {
        id,
        name: name.to_string(),
        actor_id: actor.to_string(),
        display_name: None,
        avatar: None,
        banner: None,
        bio: None,
        matrix_user_id: None,
        bot_account: false,
    }
}

fn site(avatar: Option<&str>, banner: Option<&str>) -> GetSiteResponse {
    GetSiteResponse {
        my_user: Some(MyUserInfo {
            local_user: LocalUser {
                email: Some("me@a.example".to_string()),
                show_nsfw: true,
                theme: "dark".to_string(),
                default_sort_type: SortType::TopWeek,
                default_listing_type: ListingType::Local,
                interface_language: "de".to_string(),
                show_avatars: false,
                send_notifications_to_email: true,
                show_scores: false,
                show_bot_accounts: true,
                show_read_posts: false,
                show_new_post_notifs: true,
                open_links_in_new_tab: true,
            },
            person: PersonRecord {
                id: 1,
                name: "me".to_string(),
                actor_id: "https://a.example/u/me".to_string(),
                display_name: Some("Me".to_string()),
                avatar: avatar.map(|a| a.to_string()),
                banner: banner.map(|b| b.to_string()),
                bio: Some("about me".to_string()),
                matrix_user_id: Some("@me:a.example".to_string()),
                bot_account: true,
            },
            follows: vec![
                community_record(10, "tech", "https://a.example/c/tech"),
                community_record(12, "news", "https://a.example/c/news"),
                community_record(10, "tech", "https://a.example/c/tech"),
            ],
            community_blocks: vec![community_record(13, "spam", "https://c.example/c/spam")],
            person_blocks: vec![
                person_record(20, "troll", "https://c.example/u/troll"),
                person_record(20, "troll", "https://c.example/u/troll"),
            ],
        }),
        discussion_languages: vec![1, 37],
        message_per_second: 4,
    }
}

fn old_profile() -> Profile {
    Profile {
        meta: Meta {
            username: "earlier".to_string(),
            instance: "https://old.example/".to_string(),
            date_created: Timestamp { secs: 100, nanos: 5 },
            date_updated: Timestamp { secs: 200, nanos: 7 },
        },
        info: Info {
            communities_blocks: vec![],
            communities_follows: vec![],
            people_blocks: vec![],
            bio: None,
            display_name: None,
            avatar: None,
            banner: None,
        },
        settings: Settings::new(&site(None, None)),
    }
}

struct Store {
    previous: Result<Profile, String>,
    written: Option<LocalProfile>,
    pictures: Vec<(String, Asset, Vec<u8>)>,
    trace: Vec<String>,
    fail_writes: bool,
}

impl Store {
    fn new(previous: Result<Profile, String>) -> Store {
        Store { previous, written: None, pictures: vec![], trace: vec![], fail_writes: false }
    }

    fn answer(&mut self, action: Action, live: &Result<GetSiteResponse, String>) -> Event {
        match action {
            Action::GetSite => {
                self.trace.push("site".to_string());
                match live {
                    Ok(answer) => Event::Site(Ok(GetSiteResponse {
                        my_user: match &answer.my_user {
                            Some(_) => site(
                                answer.my_user.as_ref().unwrap().person.avatar.as_deref(),
                                answer.my_user.as_ref().unwrap().person.banner.as_deref(),
                            )
                            .my_user,
                            None => None,
                        },
                        discussion_languages: answer.discussion_languages.clone(),
                        message_per_second: answer.message_per_second,
                    })),
                    Err(text) => Event::Site(Err(Error::LemmyError(LemmyError::ReqwestError(text.clone())))),
                }
            }
            Action::DownloadImage(url) => {
                self.trace.push(format!("download {}", url));
                Event::Image(Ok(Some(url.as_bytes().to_vec())))
            }
            Action::LoadProfile(name) => {
                self.trace.push(format!("load {}", name));
                match &self.previous {
                    Ok(profile) => Event::Loaded(Ok(profile.clone())),
                    Err(text) => Event::Loaded(Err(Error::IoError(text.clone()))),
                }
            }
            Action::SaveProfile(local) => {
                self.trace.push(format!("save {}", local.name));
                if self.fail_writes {
                    return Event::Done(Err(Error::IoError("disk full".to_string())));
                }
                self.written = Some(local);
                Event::Done(Ok(()))
            }
            Action::SaveImage(name, asset, bytes) => {
                self.trace.push(format!("save {}", asset.filename()));
                self.pictures.push((name, asset, bytes));
                Event::Done(Ok(()))
            }
            _ => panic!("a pull asks for nothing else"),
        }
    }
}

fn run(
    pull: Pull,
    live: Result<GetSiteResponse, String>,
    store: &mut Store,
    clock: Option<Timestamp>,
) -> (Result<(), Error>, Vec<LogEntry>) {
    let mut machine = pull;
    let mut event = Event::Start;
    let mut logs: Vec<LogEntry> = Vec::new();
    for _ in 0..1000 {
        let (next, step) = match clock {
            Some(now) => machine.step_at(event, now),
            None => machine.step(event),
        };
        machine = next;
        logs.extend(step.logs);
        match step.action {
            Action::Finish(result) => {
                assert_eq!(machine.stage, PullStage::Finished);
                return (result, logs);
            }
            other => event = store.answer(other, &live),
        }
    }
    panic!("the pull does not end");
}

fn pull() -> Pull {
    Bliss::new(Ok(session()), "main").ok().unwrap().pull()
}

fn texts(logs: &Vec<LogEntry>) -> Vec<String> {
    logs.iter().map(|l| l.message.clone()).collect()
}

#[test]
fn pull_writes_the_account_and_its_pictures() {
    let mut store = Store::new(Err("No such file".to_string()));
    let now = Timestamp { secs: 1_700_000_000, nanos: 12 };
    let live = site(Some("https://a.example/pictrs/image/a.png"), Some("https://a.example/pictrs/image/b.png"));
    let (result, logs) = run(pull(), Ok(live), &mut store, Some(now));
    assert!(result.is_ok());
    assert_eq!(
        store.trace,
        vec![
            "site",
            "download https://a.example/pictrs/image/a.png",
            "download https://a.example/pictrs/image/b.png",
            "load main",
            "save main",
            "save avatar.png",
            "save banner.png",
        ]
    );
    assert_eq!(
        texts(&logs),
        vec![
            "Pulling me@a.example to local profile main.",
            "Successfully saved user profile.",
            "Successfully saved avatar.",
            "Successfully saved banner.",
            "Pulled successfully.",
        ]
    );
    let written = store.written.unwrap();
    assert_eq!(written.name, "main");
    assert_eq!(written.profile.meta.username, "me");
    assert_eq!(written.profile.meta.instance, "https://a.example/");
    assert_eq!(written.profile.meta.date_created, now);
    assert_eq!(written.profile.meta.date_updated, now);
    let info = &written.profile.info;
    assert_eq!(info.communities_follows.len(), 2);
    assert_eq!(info.communities_follows[0].name, "tech");
    assert_eq!(info.communities_follows[0].id, Some(10));
    assert_eq!(info.communities_follows[1].name, "news");
    assert_eq!(info.communities_blocks.len(), 1);
    assert_eq!(info.people_blocks.len(), 1);
    assert_eq!(info.people_blocks[0].username, "troll");
    assert_eq!(info.bio, Some("about me".to_string()));
    assert_eq!(info.display_name, Some("Me".to_string()));
    assert_eq!(info.avatar, None);
    assert_eq!(info.banner, None);
    assert_eq!(store.pictures.len(), 2);
    assert_eq!(store.pictures[0].1, Asset::Avatar);
    assert_eq!(store.pictures[0].2, b"https://a.example/pictrs/image/a.png".to_vec());
    assert_eq!(store.pictures[1].1, Asset::Banner);
}

#[test]
fn pull_without_pictures_asks_for_none() {
    let mut store = Store::new(Err("No such file".to_string()));
    let (result, logs) = run(pull(), Ok(site(None, None)), &mut store, Some(Timestamp { secs: 5, nanos: 0 }));
    assert!(result.is_ok());
    assert_eq!(store.trace, vec!["site", "load main", "save main"]);
    assert_eq!(
        texts(&logs),
        vec![
            "Pulling me@a.example to local profile main.",
            "Successfully saved user profile.",
            "Pulled successfully.",
        ]
    );
    assert!(store.pictures.is_empty());
}

#[test]
fn pull_with_a_banner_only() {
    let mut store = Store::new(Err("No such file".to_string()));
    let live = site(None, Some("https://a.example/pictrs/image/b.png"));
    let (result, _) = run(pull(), Ok(live), &mut store, Some(Timestamp { secs: 5, nanos: 0 }));
    assert!(result.is_ok());
    assert_eq!(
        store.trace,
        vec!["site", "download https://a.example/pictrs/image/b.png", "load main", "save main", "save banner.png"]
    );
}

#[test]
fn pull_over_a_stored_profile_keeps_only_its_creation() {
    let mut store = Store::new(Ok(old_profile()));
    let now = Timestamp { secs: 300, nanos: 0 };
    let (result, _) = run(pull(), Ok(site(None, None)), &mut store, Some(now));
    assert!(result.is_ok());
    let written = store.written.unwrap();
    assert_eq!(written.profile.meta.date_created, Timestamp { secs: 100, nanos: 5 });
    assert_eq!(written.profile.meta.date_updated, now);
    assert!(old_profile().meta.date_updated.before(&written.profile.meta.date_updated));
    assert_eq!(written.profile.meta.username, "me");
    assert_eq!(written.profile.meta.instance, "https://a.example/");
    assert_eq!(written.profile.info.communities_follows.len(), 2);
    assert_eq!(written.profile.settings.theme, "dark");
}

#[test]
fn pull_with_the_clock_of_the_machine() {
    let mut fresh = Store::new(Err("No such file".to_string()));
    let (result, _) = run(pull(), Ok(site(None, None)), &mut fresh, None);
    assert!(result.is_ok());
    let written = fresh.written.unwrap();
    assert_eq!(written.profile.meta.date_created, written.profile.meta.date_updated);
    assert!(written.profile.meta.date_created.secs > 1_600_000_000);

    let mut over = Store::new(Ok(old_profile()));
    let (result, _) = run(pull(), Ok(site(None, None)), &mut over, None);
    assert!(result.is_ok());
    let written = over.written.unwrap();
    assert_eq!(written.profile.meta.date_created, Timestamp { secs: 100, nanos: 5 });
    assert!(Timestamp { secs: 200, nanos: 7 }.before(&written.profile.meta.date_updated));
}

#[test]
fn pull_ends_when_the_instance_does_not_answer() {
    let mut store = Store::new(Err("No such file".to_string()));
    let (result, logs) = run(pull(), Err("timeout".to_string()), &mut store, None);
    match result {
        Err(Error::LemmyError(LemmyError::ReqwestError(text))) => assert_eq!(text, "timeout"),
        _ => panic!("the pull has to fail"),
    }
    assert_eq!(store.trace, vec!["site"]);
    assert_eq!(logs.len(), 1);
    assert!(store.written.is_none());
}

#[test]
fn pull_ends_when_the_instance_does_not_know_the_account() {
    let mut store = Store::new(Err("No such file".to_string()));
    let live = GetSiteResponse { my_user: None, discussion_languages: vec![], message_per_second: 1 };
    let (result, _) = run(pull(), Ok(live), &mut store, None);
    match result {
        Err(error) => assert_eq!(error.message(), "Error: The instance does not report the account"),
        Ok(_) => panic!("the pull has to fail"),
    }
    assert_eq!(store.trace, vec!["site"]);
}

#[test]
fn pull_ends_when_the_profile_cannot_be_written() {
    let mut store = Store::new(Err("No such file".to_string()));
    store.fail_writes = true;
    let live = site(Some("https://a.example/pictrs/image/a.png"), None);
    let (result, _) = run(pull(), Ok(live), &mut store, None);
    match result {
        Err(Error::IoError(text)) => assert_eq!(text, "disk full"),
        _ => panic!("the pull has to fail"),
    }
    assert!(store.pictures.is_empty());
}

#[test]
fn store_names() {
    assert_eq!(PROFILE_PATH_RELATIVE, ".bliss/profiles/");
    assert_eq!(PROFILE_FILENAME, "profile.yml");
    assert_eq!(AVATAR_FILENAME, "avatar.png");
    assert_eq!(BANNER_FILENAME, "banner.png");
    assert_eq!(Asset::Avatar.filename(), "avatar.png");
    assert_eq!(Asset::Banner.filename(), "banner.png");
    assert_eq!(Asset::Avatar.name(), "avatar");
    assert_eq!(Asset::Banner.name(), "banner");
}
