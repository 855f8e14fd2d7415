use bliss::bliss::plan::{Kind, Mutation};
use bliss::bliss::Bliss;

use bliss::bliss::error::Error;
use bliss::lemmy::site::{CommunityRecord, PersonRecord};
use bliss::profile::community::Community;
use bliss::profile::diff::{subtract_list, to_add, to_remove};
use bliss::profile::person::Person;
use bliss::profile::relation::{contains, insert};
use bliss::profile::Info;

fn community(name: &str, actor: &str, id: Option<i32>) -> Community {
    Community { name: name.to_string(), actor: actor.to_string(), id }
}

fn person(name: &str, actor: &str, id: Option<i32>) -> Person {
    Person { username: name.to_string(), actor: actor.to_string(), id }
}

fn community_record(id: i32, name: &str, actor: &str) -> CommunityRecord {
    CommunityRecord { id, name: name.to_string(), actor_id: actor.to_string() }
}

fn person_record(id: i32, name: &str, actor: &str) -> PersonRecord {
    PersonRecord {
        id,
        name: name.to_string(),
        actor_id: actor.to_string(),
        display_name: None,
        avatar: None,
        banner: None,
        bio: None,
        matrix_user_id: None,
        bot_account: false,
    }
}

fn info(follows: Vec<Community>, blocks: Vec<Community>, people: Vec<Person>) -> Info {
    Info {
        communities_blocks: blocks,
        communities_follows: follows,
        people_blocks: people,
        bio: Some("about me".to_string()),
        display_name: Some("Me".to_string()),
        avatar: Some("https://a.example/pictrs/image/a.png".to_string()),
        banner: None,
    }
}

fn names(list: &Vec<Community>) -> Vec<String> {
    list.iter().map(|c| c.name.clone()).collect()
}

fn described(plan: &Vec<Mutation>) -> Vec<(Kind, String)> {
    plan.iter().map(|m| (m.kind(), m.name().to_string())).collect()
}

#[test]
fn community_equality_ignores_the_handle() {
    let a = community("tech", "https://a.example/c/tech", Some(1));
    let b = community("tech", "https://a.example/c/tech", Some(99));
    let c = community("tech", "https://b.example/c/tech", Some(1));
    let d = community("news", "https://a.example/c/tech", Some(1));
    assert!(a == b);
    assert!(a != c);
    assert!(a != d);
}

#[test]
fn person_equality_ignores_the_handle() {
    let a = person("ann", "https://a.example/u/ann", None);
    let b = person("ann", "https://a.example/u/ann", Some(4));
    let c = person("ann", "https://b.example/u/ann", None);
    assert!(a == b);
    assert!(a != c);
}

#[test]
fn is_same_needs_name_and_actor() {
    let c = community("tech", "https://a.example/c/tech", None);
    assert!(c.is_same(&community_record(7, "tech", "https://a.example/c/tech")));
    assert!(!c.is_same(&community_record(7, "tech", "https://b.example/c/tech")));
    assert!(!c.is_same(&community_record(7, "technology", "https://a.example/c/tech")));
    let p = person("ann", "https://a.example/u/ann", None);
    assert!(p.is_same(&person_record(3, "ann", "https://a.example/u/ann")));
    assert!(!p.is_same(&person_record(3, "ann", "https://b.example/u/ann")));
    assert!(!p.is_same(&person_record(3, "bob", "https://a.example/u/ann")));
}

#[test]
fn new_takes_name_actor_and_handle() {
    let c = Community::new(&community_record(7, "tech", "https://a.example/c/tech"));
    assert_eq!(c.name, "tech");
    assert_eq!(c.actor, "https://a.example/c/tech");
    assert_eq!(c.id, Some(7));
    let p = Person::new(&person_record(3, "ann", "https://a.example/u/ann"));
    assert_eq!(p.username, "ann");
    assert_eq!(p.actor, "https://a.example/u/ann");
    assert_eq!(p.id, Some(3));
}

#[test]
fn contains_and_insert_go_by_key() {
    let mut list = vec![community("tech", "https://a.example/c/tech", Some(1))];
    assert!(contains(&list, &community("tech", "https://a.example/c/tech", None)));
    assert!(!contains(&list, &community("tech", "https://b.example/c/tech", Some(1))));
    insert(&mut list, &community("tech", "https://a.example/c/tech", Some(5)));
    assert_eq!(list.len(), 1);
    assert_eq!(list[0].id, Some(1));
    insert(&mut list, &community("news", "https://a.example/c/news", Some(2)));
    assert_eq!(names(&list), vec!["tech", "news"]);
}

#[test]
fn subtract_keeps_the_order_of_the_left_list() {
    let left = vec![
        community("c", "https://a.example/c/c", Some(3)),
        community("a", "https://a.example/c/a", Some(1)),
        community("b", "https://a.example/c/b", Some(2)),
        community("d", "https://a.example/c/d", Some(4)),
    ];
    let right = vec![
        community("a", "https://a.example/c/a", Some(10)),
        community("x", "https://a.example/c/x", Some(11)),
    ];
    let rest = subtract_list(&left, &right);
    assert_eq!(names(&rest), vec!["c", "b", "d"]);
    assert_eq!(rest[0].id, Some(3));
    assert_eq!(rest[2].actor, "https://a.example/c/d");
}

#[test]
fn subtract_of_a_list_from_itself_is_empty() {
    let list = vec![
        community("a", "https://a.example/c/a", Some(1)),
        community("b", "https://a.example/c/b", Some(2)),
    ];
    assert!(subtract_list(&list, &list).is_empty());
    let nothing: Vec<Community> = Vec::new();
    assert!(subtract_list(&nothing, &nothing).is_empty());
    assert!(subtract_list(&nothing, &list).is_empty());
    assert_eq!(subtract_list(&list, &nothing).len(), 2);
}

#[test]
fn info_subtract_works_list_by_list() {
    let a = info(
        vec![community("f1", "https://a.example/c/f1", Some(1)), community("f2", "https://a.example/c/f2", Some(2))],
        vec![community("b1", "https://a.example/c/b1", Some(3))],
        vec![person("ann", "https://a.example/u/ann", None), person("bob", "https://a.example/u/bob", None)],
    );
    let b = info(
        vec![community("f2", "https://a.example/c/f2", Some(20))],
        vec![community("f1", "https://a.example/c/f1", Some(10))],
        vec![person("ann", "https://a.example/u/ann", None)],
    );
    let rest = a.subtract(&b);
    assert_eq!(names(&rest.communities_follows), vec!["f1"]);
    assert_eq!(names(&rest.communities_blocks), vec!["b1"]);
    assert_eq!(rest.people_blocks.len(), 1);
    assert_eq!(rest.people_blocks[0].username, "bob");
    assert_eq!(rest.bio, Some("about me".to_string()));
    assert_eq!(rest.display_name, Some("Me".to_string()));
    assert_eq!(rest.avatar, None);
    assert_eq!(rest.banner, None);
}

#[test]
fn to_add_of_a_state_and_itself_is_empty() {
    let a = info(
        vec![community("f1", "https://a.example/c/f1", Some(1))],
        vec![community("b1", "https://a.example/c/b1", Some(3))],
        vec![person("ann", "https://a.example/u/ann", None)],
    );
    let add = to_add(&a, &a);
    assert!(add.communities_follows.is_empty());
    assert!(add.communities_blocks.is_empty());
    assert!(add.people_blocks.is_empty());
    let remove = to_remove(&a, &a);
    assert!(remove.communities_follows.is_empty());
    assert!(remove.communities_blocks.is_empty());
    assert!(remove.people_blocks.is_empty());
}

#[test]
fn to_remove_is_to_add_with_the_roles_exchanged() {
    let desired = info(
        vec![community("f1", "https://a.example/c/f1", Some(1)), community("f2", "https://a.example/c/f2", Some(2))],
        vec![],
        vec![],
    );
    let current = info(
        vec![community("f2", "https://a.example/c/f2", Some(20)), community("f3", "https://a.example/c/f3", Some(30))],
        vec![],
        vec![],
    );
    assert_eq!(names(&to_add(&desired, &current).communities_follows), vec!["f1"]);
    assert_eq!(names(&to_remove(&current, &desired).communities_follows), vec!["f3"]);
    assert_eq!(
        names(&to_remove(&current, &desired).communities_follows),
        names(&to_add(&current, &desired).communities_follows)
    );
}

#[test]
fn removal_against_an_empty_profile_removes_everything() {
    let current = info(
        vec![community("f2", "https://a.example/c/f2", Some(20)), community("f3", "https://a.example/c/f3", Some(30))],
        vec![community("b1", "https://a.example/c/b1", Some(40))],
        vec![person("ann", "https://a.example/u/ann", Some(50))],
    );
    let desired = info(vec![], vec![], vec![]);
    let remove = to_remove(&current, &desired);
    assert_eq!(names(&remove.communities_follows), vec!["f2", "f3"]);
    assert_eq!(names(&remove.communities_blocks), vec!["b1"]);
    assert_eq!(remove.people_blocks.len(), 1);
    assert!(Bliss::push_info(&desired, &current, false).is_empty());
    assert_eq!(Bliss::push_info(&desired, &current, true).len(), 4);
}

#[test]
fn find_community_takes_the_one_with_the_actor_address() {
    let reference = community("tech", "https://a.example/c/tech", Some(1));
    let found = vec![
        community_record(70, "tech", "https://b.example/c/tech"),
        community_record(71, "tech", "https://a.example/c/tech"),
    ];
    assert_eq!(Bliss::find_community(&reference, &found).ok(), Some(71));
    let reversed = vec![
        community_record(71, "tech", "https://a.example/c/tech"),
        community_record(70, "tech", "https://b.example/c/tech"),
    ];
    assert_eq!(Bliss::find_community(&reference, &reversed).ok(), Some(71));
}

#[test]
fn find_community_fails_on_none_and_on_several() {
    let reference = community("tech", "https://a.example/c/tech", Some(1));
    let none: Vec<CommunityRecord> = vec![community_record(70, "tech", "https://b.example/c/tech")];
    match Bliss::find_community(&reference, &none) {
        Err(Error::BlissError(text)) => {
            assert_eq!(text, "Unable to find community: https://a.example/c/tech")
        }
        _ => panic!("a lookup without a match has to fail"),
    }
    let empty: Vec<CommunityRecord> = Vec::new();
    assert!(Bliss::find_community(&reference, &empty).is_err());
    let twice = vec![
        community_record(71, "tech", "https://a.example/c/tech"),
        community_record(72, "tech", "https://a.example/c/tech"),
    ];
    match Bliss::find_community(&reference, &twice) {
        Err(error) => assert_eq!(
            error.message(),
            "Error: Unable to find community: https://a.example/c/tech"
        ),
        Ok(_) => panic!("a lookup with two matches has to fail"),
    }
}

#[test]
fn find_person_takes_the_one_with_the_actor_address() {
    let reference = person("ann", "https://a.example/u/ann", None);
    let found = vec![
        person_record(5, "ann", "https://b.example/u/ann"),
        person_record(6, "ann", "https://a.example/u/ann"),
        person_record(7, "anna", "https://a.example/u/anna"),
    ];
    assert_eq!(Bliss::find_person(&reference, &found).ok(), Some(6));
    let missing = vec![person_record(5, "ann", "https://b.example/u/ann")];
    match Bliss::find_person(&reference, &missing) {
        Err(Error::BlissError(text)) => assert_eq!(text, "Unable to find user: https://a.example/u/ann"),
        _ => panic!("a lookup without a match has to fail"),
    }
}

#[test]
fn plan_orders_changes_by_kind() {
    let desired = info(
        vec![community("f1", "https://a.example/c/f1", Some(1)), community("f2", "https://a.example/c/f2", Some(2))],
        vec![community("b1", "https://a.example/c/b1", Some(3))],
        vec![person("ann", "https://a.example/u/ann", None)],
    );
    let live = info(
        vec![community("f2", "https://a.example/c/f2", Some(20)), community("f9", "https://a.example/c/f9", Some(90))],
        vec![community("b9", "https://a.example/c/b9", Some(91))],
        vec![person("zed", "https://a.example/u/zed", Some(92))],
    );
    let additive = Bliss::push_info(&desired, &live, false);
    assert_eq!(
        described(&additive),
        vec![
            (Kind::FollowCommunity, "f1".to_string()),
            (Kind::BlockCommunity, "b1".to_string()),
            (Kind::BlockPerson, "ann".to_string()),
        ]
    );
    let full = Bliss::push_info(&desired, &live, true);
    assert_eq!(
        described(&full),
        vec![
            (Kind::FollowCommunity, "f1".to_string()),
            (Kind::BlockCommunity, "b1".to_string()),
            (Kind::UnfollowCommunity, "f9".to_string()),
            (Kind::UnblockCommunity, "b9".to_string()),
            (Kind::BlockPerson, "ann".to_string()),
            (Kind::UnblockPerson, "zed".to_string()),
        ]
    );
    match &full[2] {
        Mutation::UnfollowCommunity(c) => assert_eq!(c.id, Some(90)),
        _ => panic!("the third change is the removal of a follow"),
    }
    assert_eq!(described(&Bliss::push_communities(&desired, &live, true)), described(&full)[..4].to_vec());
    assert_eq!(described(&Bliss::push_users(&desired, &live, true)), described(&full)[4..].to_vec());
}

#[test]
fn plan_for_the_followed_community_in_both_directions() {
    let snapshot = info(vec![community("tech", "https://a.example/c/tech", Some(1))], vec![], vec![]);
    let live = info(vec![], vec![], vec![]);
    let forward = Bliss::push_info(&snapshot, &live, false);
    assert_eq!(described(&forward), vec![(Kind::FollowCommunity, "tech".to_string())]);
    let backward = Bliss::push_info(&live, &snapshot, true);
    assert_eq!(described(&backward), vec![(Kind::UnfollowCommunity, "tech".to_string())]);
    assert!(Bliss::push_info(&live, &snapshot, false).is_empty());
}

#[test]
fn plan_is_empty_once_the_destination_has_the_profile() {
    let desired = info(
        vec![community("f1", "https://a.example/c/f1", Some(1))],
        vec![community("b1", "https://a.example/c/b1", Some(3))],
        vec![person("ann", "https://a.example/u/ann", None)],
    );
    let reached = info(
        vec![community("f1", "https://a.example/c/f1", Some(100))],
        vec![community("b1", "https://a.example/c/b1", Some(300))],
        vec![person("ann", "https://a.example/u/ann", Some(400))],
    );
    assert!(Bliss::push_info(&desired, &reached, false).is_empty());
    assert!(Bliss::push_info(&desired, &reached, true).is_empty());
}
