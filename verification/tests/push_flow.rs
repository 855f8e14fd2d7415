use bliss::bliss::error::Error;
use bliss::bliss::executor::{sleep_time, Executor, Stage};
use bliss::bliss::plan::Mutation;
use bliss::bliss::push::{Push, PushStage};
use bliss::bliss::step::{Action, Asset, Event, Step};
use bliss::bliss::util::{Level, LogEntry};
use bliss::bliss::Bliss;
use bliss::clock::Timestamp;
use bliss::lemmy::api::Api;
use bliss::lemmy::site::{
    CommunityRecord, GetSiteResponse, ListingType, LocalUser, MyUserInfo, PersonRecord, SortType,
};
use bliss::lemmy::LemmyError;
use bliss::profile::community::Community;
use bliss::profile::person::Person;
use bliss::profile::settings::Settings;
use bliss::profile::{Info, Meta, Profile};
use bliss::user::{Authorized, User};

fn session() -> User<Authorized> {
    User::new("me", "https://b.example/".to_string()).authorize("token".to_string())
}

fn community(name: &str, actor: &str, id: Option<i32>) -> Community {
    Community { name: name.to_string(), actor: actor.to_string(), id }
}

fn person(name: &str, actor: &str, id: Option<i32>) -> Person {
    Person { username: name.to_string(), actor: actor.to_string(), id }
}

fn community_record(id: i32, name: &str, actor: &str) -> CommunityRecord {
    CommunityRecord { id, name: name.to_string(), actor_id: actor.to_string() }
}

fn person_record(id: i32, name: &str, actor: &str) -> PersonRecord {
    PersonRecord {
        id,
        name: name.to_string(),
        actor_id: actor.to_string(),
        display_name: None,
        avatar: None,
        banner: None,
        bio: None,
        matrix_user_id: None,
        bot_account: false,
    }
}

fn settings() -> Settings {
    Settings {
        default_sort_type: SortType::Hot,
        default_listing_type: ListingType::Subscribed,
        theme: "dark".to_string(),
        interface_language: "en".to_string(),
        email: Some("me@a.example".to_string()),
        matrix_user_id: Some("@me:a.example".to_string()),
        show_nsfw: false,
        show_scores: true,
        show_avatars: true,
        show_bot_accounts: false,
        show_read_posts: true,
        show_new_post_notifs: false,
        open_links_in_new_tab: true,
        send_notifications_to_email: false,
        bot_account: false,
        discussion_languages: vec![1, 37],
    }
}

fn profile(follows: Vec<Community>, blocks: Vec<Community>, people: Vec<Person>) -> Profile {
    Profile {
        meta: Meta {
            username: "me".to_string(),
            instance: "https://a.example/".to_string(),
            date_created: Timestamp { secs: 100, nanos: 0 },
            date_updated: Timestamp { secs: 200, nanos: 0 },
        },
        info: Info {
            communities_blocks: blocks,
            communities_follows: follows,
            people_blocks: people,
            bio: Some("about me".to_string()),
            display_name: Some("Me".to_string()),
            avatar: None,
            banner: None,
        },
        settings: settings(),
    }
}

/// A destination instance that keeps its state in memory and counts what
/// it is asked.
struct Remote {
    communities: Vec<CommunityRecord>,
    people: Vec<PersonRecord>,
    follows: Vec<i32>,
    community_blocks: Vec<i32>,
    person_blocks: Vec<i32>,
    rate: i32,
    refuse: Vec<i32>,
    trace: Vec<String>,
    sleeps: Vec<u64>,
    saved_settings: Vec<Profile>,
    avatar: Option<Vec<u8>>,
    banner: Option<Vec<u8>>,
    upload: Result<Option<String>, String>,
    settings_fail: bool,
}

impl Remote {
    fn new() -> Remote {
        Remote {
            communities: vec![
                community_record(10, "tech", "https://a.example/c/tech"),
                community_record(11, "tech", "https://b.example/c/tech"),
                community_record(12, "news", "https://a.example/c/news"),
                community_record(13, "spam", "https://c.example/c/spam"),
            ],
            people: vec![
                person_record(20, "troll", "https://c.example/u/troll"),
                person_record(21, "troll", "https://d.example/u/troll"),
                person_record(22, "old", "https://c.example/u/old"),
            ],
            follows: vec![],
            community_blocks: vec![],
            person_blocks: vec![],
            rate: 4,
            refuse: vec![],
            trace: vec![],
            sleeps: vec![],
            saved_settings: vec![],
            avatar: None,
            banner: None,
            upload: Ok(Some("https://b.example/pictrs/image/new.png".to_string())),
            settings_fail: false,
        }
    }

    fn site(&self) -> GetSiteResponse {
        let follows = self.communities.iter().filter(|c| self.follows.contains(&c.id));
        let blocks = self.communities.iter().filter(|c| self.community_blocks.contains(&c.id));
        let people = self.people.iter().filter(|p| self.person_blocks.contains(&p.id));
        GetSiteResponse {
            my_user: Some(MyUserInfo {
                local_user: LocalUser {
                    email: None,
                    show_nsfw: false,
                    theme: "browser".to_string(),
                    default_sort_type: SortType::Active,
                    default_listing_type: ListingType::All,
                    interface_language: "en".to_string(),
                    show_avatars: true,
                    send_notifications_to_email: false,
                    show_scores: true,
                    show_bot_accounts: true,
                    show_read_posts: true,
                    show_new_post_notifs: false,
                    open_links_in_new_tab: false,
                },
                person: person_record(1, "me", "https://b.example/u/me"),
                follows: follows.map(|c| community_record(c.id, &c.name, &c.actor_id)).collect(),
                community_blocks: blocks.map(|c| community_record(c.id, &c.name, &c.actor_id)).collect(),
                person_blocks: people.map(|p| person_record(p.id, &p.name, &p.actor_id)).collect(),
            }),
            discussion_languages: vec![],
            message_per_second: self.rate,
        }
    }

    fn toggle(list: &mut Vec<i32>, id: i32, on: bool) {
        list.retain(|x| *x != id);
        if on {
            list.push(id);
        }
    }

    fn change(&mut self, what: &str, id: i32, on: bool) -> Event {
        self.trace.push(format!("{} {} {}", what, id, on));
        if self.refuse.contains(&id) {
            return Event::Done(Err(Error::LemmyError(LemmyError::ReqwestError("refused".to_string()))));
        }
        match what {
            "follow" => Remote::toggle(&mut self.follows, id, on),
            "block community" => Remote::toggle(&mut self.community_blocks, id, on),
            _ => Remote::toggle(&mut self.person_blocks, id, on),
        }
        Event::Done(Ok(()))
    }

    fn answer(&mut self, action: Action, stored: &Result<Profile, String>) -> Event {
        match action {
            Action::GetSite => {
                self.trace.push("site".to_string());
                Event::Site(Ok(self.site()))
            }
            Action::SearchCommunity(c) => {
                self.trace.push(format!("search community {}", c.name));
                let found = self.communities.iter().filter(|r| r.name.contains(&c.name));
                Event::Communities(Ok(found.map(|r| community_record(r.id, &r.name, &r.actor_id)).collect()))
            }
            Action::SearchPerson(p) => {
                self.trace.push(format!("search person {}", p.username));
                let found = self.people.iter().filter(|r| r.name.contains(&p.username));
                Event::People(Ok(found.map(|r| person_record(r.id, &r.name, &r.actor_id)).collect()))
            }
            Action::FollowCommunity { id, follow } => self.change("follow", id, follow),
            Action::BlockCommunity { id, block } => self.change("block community", id, block),
            Action::BlockPerson { id, block } => self.change("block person", id, block),
            Action::SaveUserSettings(profile) => {
                self.trace.push("settings".to_string());
                if self.settings_fail {
                    return Event::Done(Err(Error::LemmyError(LemmyError::ReqwestError("down".to_string()))));
                }
                self.saved_settings.push(profile);
                Event::Done(Ok(()))
            }
            Action::UploadImage(bytes) => {
                self.trace.push(format!("upload {}", bytes.len()));
                match &self.upload {
                    Ok(url) => Event::Uploaded(Ok(url.clone())),
                    Err(text) => Event::Uploaded(Err(Error::LemmyError(LemmyError::ResponeError(text.clone())))),
                }
            }
            Action::LoadProfile(name) => {
                self.trace.push(format!("load {}", name));
                match stored {
                    Ok(profile) => Event::Loaded(Ok(profile.clone())),
                    Err(text) => Event::Loaded(Err(Error::IoError(text.clone()))),
                }
            }
            Action::LoadImage(_, asset) => {
                self.trace.push(format!("read {}", asset.name()));
                match asset {
                    Asset::Avatar => Event::Image(Ok(self.avatar.clone())),
                    Asset::Banner => Event::Image(Ok(self.banner.clone())),
                }
            }
            Action::Sleep(time) => {
                self.sleeps.push(time);
                Event::Slept
            }
            _ => panic!("a push asks for nothing else"),
        }
    }

    fn changes(&self) -> Vec<String> {
        let mut kept = Vec::new();
        for line in self.trace.iter() {
            if line.starts_with("follow") || line.starts_with("block") {
                kept.push(line.clone());
            }
        }
        kept
    }
}

fn run(push: Push, stored: Result<Profile, String>, remote: &mut Remote) -> (Result<(), Error>, Vec<LogEntry>) {
    let mut machine = push;
    let mut event = Event::Start;
    let mut logs: Vec<LogEntry> = Vec::new();
    for _ in 0..10_000 {
        let (next, step) = machine.step(event);
        machine = next;
        let Step { logs: said, action } = step;
        logs.extend(said);
        match action {
            Action::Finish(result) => {
                assert_eq!(machine.stage, PushStage::Finished);
                return (result, logs);
            }
            other => event = remote.answer(other, &stored),
        }
    }
    panic!("the push does not end");
}

fn push(subtractive: bool, exclude: &[&str], extra: &[&str]) -> Push {
    let bliss = Bliss::new(Ok(session()), "main").ok().unwrap();
    let exclude: Vec<String> = exclude.iter().map(|s| s.to_string()).collect();
    let extra: Vec<String> = extra.iter().map(|s| s.to_string()).collect();
    bliss.push(subtractive, &exclude, &extra)
}

fn texts(logs: &Vec<LogEntry>) -> Vec<String> {
    logs.iter().map(|l| l.message.clone()).collect()
}

#[test]
fn push_follows_the_one_missing_community() {
    let stored = profile(vec![community("tech", "https://a.example/c/tech", Some(777))], vec![], vec![]);
    let mut remote = Remote::new();
    let (result, logs) = run(push(false, &[], &[]), Ok(stored), &mut remote);
    assert!(result.is_ok());
    assert_eq!(remote.changes(), vec!["follow 10 true"]);
    assert_eq!(remote.follows, vec![10]);
    assert_eq!(
        texts(&logs),
        vec![
            "Pushing me@b.example from local profile main",
            "Uploading settings...",
            "Successfully uploaded settings.",
            "Following tech...",
            "Success",
            "Pushed successfully.",
        ]
    );
}

#[test]
fn subtractive_push_unfollows_the_one_extra_community() {
    let stored = profile(vec![], vec![], vec![]);
    let mut remote = Remote::new();
    remote.follows = vec![10];
    let (result, logs) = run(push(true, &[], &[]), Ok(stored), &mut remote);
    assert!(result.is_ok());
    assert_eq!(remote.changes(), vec!["follow 10 false"]);
    assert!(remote.follows.is_empty());
    assert_eq!(
        remote.trace,
        vec!["load main", "settings", "site", "search community tech", "follow 10 false"]
    );
    assert!(texts(&logs).contains(&"Unfollowing tech...".to_string()));
}

#[test]
fn additive_push_leaves_extra_relations_alone() {
    let stored = profile(vec![], vec![], vec![]);
    let mut remote = Remote::new();
    remote.follows = vec![10];
    remote.person_blocks = vec![22];
    let (result, _) = run(push(false, &[], &[]), Ok(stored), &mut remote);
    assert!(result.is_ok());
    assert!(remote.changes().is_empty());
    assert_eq!(remote.follows, vec![10]);
    assert_eq!(remote.person_blocks, vec![22]);
    assert!(remote.sleeps.is_empty());
}

#[test]
fn second_push_makes_no_change() {
    let stored = profile(
        vec![community("tech", "https://a.example/c/tech", Some(1)), community("news", "https://a.example/c/news", Some(2))],
        vec![community("spam", "https://c.example/c/spam", Some(3))],
        vec![person("troll", "https://c.example/u/troll", None)],
    );
    let mut remote = Remote::new();
    let (first, _) = run(push(false, &[], &[]), Ok(stored.clone()), &mut remote);
    assert!(first.is_ok());
    assert_eq!(
        remote.changes(),
        vec!["follow 10 true", "follow 12 true", "block community 13 true", "block person 20 true"]
    );
    remote.trace.clear();
    remote.sleeps.clear();
    let (second, logs) = run(push(false, &[], &[]), Ok(stored), &mut remote);
    assert!(second.is_ok());
    assert!(remote.changes().is_empty());
    assert!(remote.sleeps.is_empty());
    assert_eq!(remote.trace, vec!["load main", "settings", "site"]);
    assert_eq!(texts(&logs).last().unwrap(), "Pushed successfully.");
}

#[test]
fn subtractive_push_brings_the_destination_to_the_profile() {
    let stored = profile(
        vec![community("tech", "https://a.example/c/tech", Some(1))],
        vec![community("spam", "https://c.example/c/spam", Some(3))],
        vec![person("troll", "https://c.example/u/troll", None)],
    );
    let mut remote = Remote::new();
    remote.follows = vec![12, 11];
    remote.community_blocks = vec![10];
    remote.person_blocks = vec![22, 21];
    let (result, _) = run(push(true, &[], &[]), Ok(stored), &mut remote);
    assert!(result.is_ok());
    assert_eq!(
        remote.changes(),
        vec![
            "follow 10 true",
            "block community 13 true",
            "follow 11 false",
            "follow 12 false",
            "block community 10 false",
            "block person 20 true",
            "block person 21 false",
            "block person 22 false",
        ]
    );
    assert_eq!(remote.follows, vec![10]);
    assert_eq!(remote.community_blocks, vec![13]);
    assert_eq!(remote.person_blocks, vec![20]);
}

#[test]
fn every_attempt_is_followed_by_the_pause() {
    let stored = profile(
        vec![
            community("tech", "https://a.example/c/tech", Some(1)),
            community("gone", "https://a.example/c/gone", Some(2)),
            community("news", "https://a.example/c/news", Some(3)),
        ],
        vec![],
        vec![],
    );
    let mut remote = Remote::new();
    remote.rate = 3;
    remote.refuse = vec![12];
    let (result, logs) = run(push(false, &[], &[]), Ok(stored), &mut remote);
    assert!(result.is_ok());
    assert_eq!(remote.changes(), vec!["follow 10 true", "follow 12 true"]);
    assert_eq!(remote.follows, vec![10]);
    assert_eq!(remote.sleeps, vec![334, 334, 334]);
    let said = texts(&logs);
    assert_eq!(
        said[3..].to_vec(),
        vec![
            "Following tech...",
            "Success",
            "Following gone...",
            "Failed: Error: Unable to find community: https://a.example/c/gone",
            "Following news...",
            "Failed: refused",
            "Pushed successfully.",
        ]
    );
    assert_eq!(logs[6].level, Level::Warn);
    assert_eq!(logs[8].level, Level::Warn);
    assert_eq!(logs[4].level, Level::Info);
}

#[test]
fn settings_go_out_before_any_change_of_a_relation() {
    let stored = profile(vec![community("tech", "https://a.example/c/tech", Some(1))], vec![], vec![]);
    let mut remote = Remote::new();
    let (result, _) = run(push(false, &[], &[]), Ok(stored), &mut remote);
    assert!(result.is_ok());
    assert_eq!(
        remote.trace,
        vec!["load main", "settings", "site", "search community tech", "follow 10 true"]
    );
    assert_eq!(remote.saved_settings.len(), 1);
    assert_eq!(remote.saved_settings[0].settings.theme, "dark");
    assert_eq!(remote.saved_settings[0].info.bio, Some("about me".to_string()));
}

#[test]
fn excluded_fields_are_emptied_and_unknown_names_warned_of() {
    let stored = profile(vec![], vec![], vec![]);
    let mut remote = Remote::new();
    let (result, logs) = run(push(false, &["email", "color", "bio"], &[]), Ok(stored), &mut remote);
    assert!(result.is_ok());
    let sent = &remote.saved_settings[0];
    assert_eq!(sent.settings.email, None);
    assert_eq!(sent.info.bio, None);
    assert_eq!(sent.settings.matrix_user_id, Some("@me:a.example".to_string()));
    assert_eq!(sent.info.display_name, Some("Me".to_string()));
    assert_eq!(
        texts(&logs)[1..5].to_vec(),
        vec![
            "Ignoring parameter \"email\"...",
            "Ignoring parameter \"color\"...",
            "Unknown parameter \"color\". Skipping.",
            "Ignoring parameter \"bio\"...",
        ]
    );
    assert_eq!(logs[3].level, Level::Warn);
    assert_eq!(logs[1].level, Level::Info);
}

#[test]
fn pictures_are_uploaded_and_their_addresses_sent() {
    let stored = profile(vec![], vec![], vec![]);
    let mut remote = Remote::new();
    remote.avatar = Some(vec![1, 2, 3]);
    remote.banner = None;
    let (result, logs) = run(push(false, &[], &["avatar", "cover", "banner"]), Ok(stored), &mut remote);
    assert!(result.is_ok());
    assert_eq!(
        remote.trace,
        vec!["load main", "read avatar", "upload 3", "read banner", "settings", "site"]
    );
    let sent = &remote.saved_settings[0];
    assert_eq!(sent.info.avatar, Some("https://b.example/pictrs/image/new.png".to_string()));
    assert_eq!(sent.info.banner, None);
    assert_eq!(
        texts(&logs)[1..7].to_vec(),
        vec![
            "Uploading avatar...",
            "Success.",
            "No parameter cover found.",
            "No banner found.",
            "Uploading settings...",
            "Successfully uploaded settings.",
        ]
    );
    assert_eq!(logs[3].level, Level::Warn);
    assert_eq!(logs[4].level, Level::Warn);
}

#[test]
fn a_failed_upload_is_passed_over() {
    let stored = profile(vec![], vec![], vec![]);
    let mut remote = Remote::new();
    remote.banner = Some(vec![9; 10]);
    remote.upload = Err("Msg is busy".to_string());
    let (result, logs) = run(push(false, &[], &["banner"]), Ok(stored.clone()), &mut remote);
    assert!(result.is_ok());
    assert_eq!(remote.saved_settings[0].info.banner, None);
    assert_eq!(texts(&logs)[2], "Failed: ResponeError: Msg is busy");
    assert_eq!(logs[2].level, Level::Warn);

    let mut soft = Remote::new();
    soft.banner = Some(vec![9; 10]);
    soft.upload = Ok(None);
    let (result, logs) = run(push(false, &[], &["banner"]), Ok(stored), &mut soft);
    assert!(result.is_ok());
    assert_eq!(texts(&logs)[2], "Fail.");
    assert_eq!(soft.saved_settings[0].info.banner, None);
}

#[test]
fn a_profile_that_cannot_be_read_ends_the_push() {
    let mut remote = Remote::new();
    let (result, _) = run(push(true, &[], &[]), Err("No such file".to_string()), &mut remote);
    match result {
        Err(Error::IoError(text)) => assert_eq!(text, "No such file"),
        _ => panic!("the push has to fail"),
    }
    assert_eq!(remote.trace, vec!["load main"]);
}

#[test]
fn refused_settings_end_the_push_before_any_change() {
    let stored = profile(vec![community("tech", "https://a.example/c/tech", Some(1))], vec![], vec![]);
    let mut remote = Remote::new();
    remote.settings_fail = true;
    let (result, _) = run(push(false, &[], &[]), Ok(stored), &mut remote);
    match result {
        Err(error) => assert_eq!(error.message(), "down"),
        Ok(_) => panic!("the push has to fail"),
    }
    assert_eq!(remote.trace, vec!["load main", "settings"]);
}

#[test]
fn a_finished_push_stays_finished() {
    let mut remote = Remote::new();
    let mut machine = push(false, &[], &[]);
    let mut event = Event::Start;
    loop {
        let (next, step) = machine.step(event);
        machine = next;
        match step.action {
            Action::Finish(_) => break,
            other => event = remote.answer(other, &Err("gone".to_string())),
        }
    }
    let (machine, step) = machine.step(Event::Slept);
    assert_eq!(machine.stage, PushStage::Finished);
    match step.action {
        Action::Finish(Err(Error::IoError(text))) => assert_eq!(text, "gone"),
        _ => panic!("the failure has to be repeated"),
    }
}

#[test]
fn an_answer_of_the_wrong_sort_ends_the_push() {
    let machine = push(false, &[], &[]);
    let (machine, _) = machine.step(Event::Start);
    let (machine, step) = machine.step(Event::Slept);
    assert_eq!(machine.stage, PushStage::Finished);
    match step.action {
        Action::Finish(Err(error)) => {
            assert_eq!(error.message(), "Error: The answer does not fit the request")
        }
        _ => panic!("the push has to fail"),
    }
}

#[test]
fn sleep_time_is_a_thousand_over_the_rate_rounded_up() {
    assert_eq!(sleep_time(1), 1000);
    assert_eq!(sleep_time(2), 500);
    assert_eq!(sleep_time(3), 334);
    assert_eq!(sleep_time(7), 143);
    assert_eq!(sleep_time(999), 2);
    assert_eq!(sleep_time(1000), 1);
    assert_eq!(sleep_time(1001), 1);
    assert_eq!(sleep_time(i32::MAX), 1);
    assert_eq!(sleep_time(0), u64::MAX);
    assert_eq!(sleep_time(-1), 0);
    assert_eq!(sleep_time(i32::MIN), 0);
}

#[test]
fn executor_tries_each_change_once() {
    let queue = vec![
        Mutation::FollowCommunity(community("tech", "https://a.example/c/tech", Some(5))),
        Mutation::UnblockPerson(person("old", "https://c.example/u/old", Some(22))),
        Mutation::UnblockCommunity(community("lost", "https://c.example/c/lost", None)),
    ];
    let executor = Executor::new(queue, 250);
    assert_eq!(executor.stage, Stage::Ready);
    let (executor, step) = executor.step(Event::Start);
    assert_eq!(executor.stage, Stage::Searching);
    assert_eq!(step.logs[0].message, "Following tech...");
    match step.action {
        Action::SearchCommunity(c) => assert_eq!(c.name, "tech"),
        _ => panic!("an addition is searched for"),
    }
    let found = vec![community_record(10, "tech", "https://a.example/c/tech")];
    let (executor, step) = executor.step(Event::Communities(Ok(found)));
    assert_eq!(executor.stage, Stage::Calling);
    assert!(step.logs.is_empty());
    match step.action {
        Action::FollowCommunity { id, follow } => assert_eq!((id, follow), (10, true)),
        _ => panic!("the change is sent to the handle found"),
    }
    let (executor, step) = executor.step(Event::Done(Ok(())));
    assert_eq!(executor.stage, Stage::Pausing);
    assert_eq!(executor.position, 0);
    assert_eq!(step.logs[0].message, "Success");
    assert!(matches!(step.action, Action::Sleep(250)));
    let (executor, step) = executor.step(Event::Done(Ok(())));
    assert_eq!((executor.stage, executor.position), (Stage::Pausing, 0));
    assert!(matches!(step.action, Action::Sleep(250)));
    let (executor, step) = executor.step(Event::Slept);
    assert_eq!((executor.stage, executor.position), (Stage::Searching, 1));
    assert_eq!(step.logs[0].message, "Unblocking old...");
    match step.action {
        Action::SearchPerson(p) => assert_eq!(p.username, "old"),
        _ => panic!("a removal is searched for as well"),
    }
    let found = vec![
        person_record(40, "old", "https://d.example/u/old"),
        person_record(41, "old", "https://c.example/u/old"),
    ];
    let (executor, step) = executor.step(Event::People(Ok(found)));
    assert_eq!((executor.stage, executor.position), (Stage::Calling, 1));
    match step.action {
        Action::BlockPerson { id, block } => assert_eq!((id, block), (41, false)),
        _ => panic!("the removal is sent to the handle found, not to the recorded one"),
    }
    let (executor, step) = executor.step(Event::Slept);
    assert_eq!((executor.stage, executor.position), (Stage::Pausing, 1));
    assert_eq!(step.logs[0].message, "Failed: Error: The answer does not fit the request");
    assert!(matches!(step.action, Action::Sleep(250)));
    let (executor, step) = executor.step(Event::Slept);
    assert_eq!((executor.stage, executor.position), (Stage::Searching, 2));
    assert!(matches!(step.action, Action::SearchCommunity(_)));
    let (executor, step) = executor.step(Event::People(Ok(vec![])));
    assert_eq!((executor.stage, executor.position), (Stage::Pausing, 2));
    assert_eq!(step.logs[0].level, Level::Warn);
    let (executor, step) = executor.step(Event::Slept);
    assert_eq!((executor.stage, executor.position), (Stage::Finished, 3));
    assert!(matches!(step.action, Action::Finish(Ok(()))));
    let (executor, step) = executor.step(Event::Start);
    assert_eq!(executor.stage, Stage::Finished);
    assert!(matches!(step.action, Action::Finish(Ok(()))));
}

#[test]
fn a_removal_that_cannot_be_resolved_is_not_sent() {
    let stored = profile(vec![], vec![], vec![]);
    let mut remote = Remote::new();
    remote.person_blocks = vec![22];
    remote.follows = vec![10];
    remote.communities.push(community_record(14, "tech", "https://a.example/c/tech"));
    let (result, logs) = run(push(true, &[], &[]), Ok(stored), &mut remote);
    assert!(result.is_ok());
    assert_eq!(remote.changes(), vec!["block person 22 false"]);
    assert_eq!(remote.follows, vec![10]);
    assert!(remote.person_blocks.is_empty());
    assert_eq!(remote.sleeps.len(), 2);
    assert!(texts(&logs)
        .contains(&"Failed: Error: Unable to find community: https://a.example/c/tech".to_string()));
    assert_eq!(
        remote.trace,
        vec![
            "load main",
            "settings",
            "site",
            "search community tech",
            "search person old",
            "block person 22 false",
        ]
    );
}

#[test]
fn bliss_reports_a_failed_login() {
    let failed = Bliss::new(Err(LemmyError::ReqwestError("connection refused".to_string())), "main");
    match failed {
        Err(Error::BlissError(text)) => {
            assert_eq!(text, "Failed while trying to login: connection refused")
        }
        _ => panic!("the session must not exist"),
    }
    let made = Bliss::new(Ok(session()), "main").ok().unwrap();
    assert_eq!(made.profile_name, "main");
    assert_eq!(made.user.token(), "token");
    assert_eq!(made.user.username, "me");
    let _ = Api::new();
}
