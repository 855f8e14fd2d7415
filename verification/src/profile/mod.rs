//! The saved state of an account: who it belongs to, its preferences, and
//! the communities and people it follows or blocks.

use vstd::prelude::*;
use crate::clock::{now, Timestamp};
use crate::lemmy::site::{
    copy_text, CommunityRecord, GetSiteResponse, GetSiteResponseView, MyUserInfoView, PersonRecord,
    PersonRecordView,
};
use crate::profile::community::Community;
use crate::profile::diff::{subtract, subtract_list};
use crate::profile::person::Person;
use crate::profile::relation::{distinct, insert, keys, unique, Entity, Relations};
use crate::profile::settings::{Settings, SettingsView};
use crate::user::{LoginState, User, UserView};

pub mod community;
pub mod diff;
pub mod local_profile;
pub mod person;
pub mod relation;
pub mod settings;

verus! {

/// Whose profile it is and when it was first and last written.
#[derive(Debug)]
pub struct Meta {
    pub username: String,
    pub instance: String,
    pub date_created: Timestamp,
    pub date_updated: Timestamp,
}

/// What a `Meta` holds.
pub ghost struct MetaView {
    pub username: Seq<char>,
    pub instance: Seq<char>,
    pub date_created: Timestamp,
    pub date_updated: Timestamp,
}

impl DeepView for Meta {
    type V = MetaView;

    open spec fn deep_view(&self) -> MetaView {
        MetaView {
            username: self.username@,
            instance: self.instance@,
            date_created: self.date_created,
            date_updated: self.date_updated,
        }
    }
}

impl View for Meta {
    type V = MetaView;

    open spec fn view(&self) -> MetaView {
        self.deep_view()
    }
}

impl Meta {
    /// The record of a profile of `user` made at the instant `now`: created
    /// and last written then.
    pub fn at<T: LoginState>(user: User<T>, now: Timestamp) -> (meta: Meta)
        ensures
            meta@ == (MetaView {
                username: user@.username,
                instance: user@.instance,
                date_created: now,
                date_updated: now,
            }),
    {
        Meta {
            username: user.name().to_owned(),
            instance: user.address().to_owned(),
            date_created: now,
            date_updated: now,
        }
    }

    /// The record of a profile of `user` made now. Which instant that is
    /// depends on the clock; whatever it is, the profile counts as created
    /// and last written at the same instant.
    pub fn from<T: LoginState>(user: User<T>) -> (meta: Meta)
        ensures
            meta@.username == user@.username,
            meta@.instance == user@.instance,
            meta@.date_created == meta@.date_updated,
    {
        Meta::at(user, now())
    }

    /// Marks the profile as last written at the instant `now`.
    pub fn touch_at(&mut self, now: Timestamp)
        ensures
            final(self)@ == (MetaView { date_updated: now, ..old(self)@ }),
    {
        self.date_updated = now;
    }

    /// Marks the profile as last written now. Only the instant of the last
    /// writing changes; which instant it becomes depends on the clock.
    pub fn touch(&mut self)
        ensures
            final(self)@.username == old(self)@.username,
            final(self)@.instance == old(self)@.instance,
            final(self)@.date_created == old(self)@.date_created,
    {
        self.touch_at(now());
    }
}

impl Clone for Meta {
    fn clone(&self) -> (copy: Self)
        ensures
            copy@ == self@,
    {
        Meta {
            username: self.username.clone(),
            instance: self.instance.clone(),
            date_created: self.date_created,
            date_updated: self.date_updated,
        }
    }
}

/// The relations of an account and the texts of its public record.
///
/// The three lists are meant as sets: `InfoView::wf` says that none of them
/// names a community or person twice. The order of a list is the order in
/// which changes are applied.
#[derive(Debug)]
pub struct Info {
    pub communities_blocks: Vec<Community>,
    pub communities_follows: Vec<Community>,
    pub people_blocks: Vec<Person>,
    pub bio: Option<String>,
    pub display_name: Option<String>,
    pub avatar: Option<String>,
    pub banner: Option<String>,
}

/// What an `Info` holds.
pub ghost struct InfoView {
    pub communities_blocks: Seq<Entity>,
    pub communities_follows: Seq<Entity>,
    pub people_blocks: Seq<Entity>,
    pub bio: Option<Seq<char>>,
    pub display_name: Option<Seq<char>>,
    pub avatar: Option<Seq<char>>,
    pub banner: Option<Seq<char>>,
}

/// The people of `records` as list entries.
pub open spec fn people(records: Seq<PersonRecordView>) -> Seq<Entity> {
    records.map_values(|p: PersonRecordView| p.entity())
}

impl InfoView {
    /// No list names a community or a person twice.
    pub open spec fn wf(self) -> bool {
        &&& distinct(self.communities_blocks)
        &&& distinct(self.communities_follows)
        &&& distinct(self.people_blocks)
    }

    /// The relations as sets, without the order of the lists.
    pub open spec fn relations(self) -> Relations {
        Relations {
            follows: keys(self.communities_follows),
            community_blocks: keys(self.communities_blocks),
            people_blocks: keys(self.people_blocks),
        }
    }

    /// The relations of `self` that `other` lacks, list by list, with the
    /// texts of `self` and without pictures.
    pub open spec fn subtract(self, other: InfoView) -> InfoView {
        InfoView {
            communities_blocks: subtract(self.communities_blocks, other.communities_blocks),
            communities_follows: subtract(self.communities_follows, other.communities_follows),
            people_blocks: subtract(self.people_blocks, other.people_blocks),
            bio: self.bio,
            display_name: self.display_name,
            avatar: None,
            banner: None,
        }
    }

    /// The relations and texts that an instance reports of an account. Each
    /// community or person is kept once, where the instance names it first.
    pub open spec fn of_account(account: MyUserInfoView) -> InfoView {
        InfoView {
            communities_blocks: unique(account.community_blocks),
            communities_follows: unique(account.follows),
            people_blocks: unique(people(account.person_blocks)),
            bio: account.person.bio,
            display_name: account.person.display_name,
            avatar: None,
            banner: None,
        }
    }
}

impl DeepView for Info {
    type V = InfoView;

    open spec fn deep_view(&self) -> InfoView {
        InfoView {
            communities_blocks: self.communities_blocks.deep_view(),
            communities_follows: self.communities_follows.deep_view(),
            people_blocks: self.people_blocks.deep_view(),
            bio: self.bio.deep_view(),
            display_name: self.display_name.deep_view(),
            avatar: self.avatar.deep_view(),
            banner: self.banner.deep_view(),
        }
    }
}

impl View for Info {
    type V = InfoView;

    open spec fn view(&self) -> InfoView {
        self.deep_view()
    }
}

/// The profile entries for the communities of `records`, each community
/// once, in the order of its first record.
pub fn communities_of(records: &Vec<CommunityRecord>) -> (entries: Vec<Community>)
    ensures
        entries.deep_view() == unique(records.deep_view()),
{
    let mut entries: Vec<Community> = Vec::new();
    let mut i: usize = 0;
    assert(entries.deep_view() =~= Seq::<Entity>::empty());
    assert(records.deep_view().take(0) =~= Seq::<Entity>::empty());
    while i < records.len()
        invariant
            i <= records.len(),
            entries.deep_view() == unique(records.deep_view().take(i as int)),
        decreases records.len() - i,
    {
        let entry = Community::new(&records[i]);
        proof {
            let next = records.deep_view().take(i + 1);
            assert(next.drop_last() =~= records.deep_view().take(i as int));
            assert(next.last() == records[i as int]@);
        }
        insert(&mut entries, &entry);
        i += 1;
    }
    assert(records.deep_view().take(records.len() as int) =~= records.deep_view());
    entries
}

/// The profile entries for the people of `records`, each person once, in
/// the order of the first record.
pub fn people_of(records: &Vec<PersonRecord>) -> (entries: Vec<Person>)
    ensures
        entries.deep_view() == unique(people(records.deep_view())),
{
    let mut entries: Vec<Person> = Vec::new();
    let mut i: usize = 0;
    assert(entries.deep_view() =~= Seq::<Entity>::empty());
    assert(people(records.deep_view().take(0)) =~= Seq::<Entity>::empty());
    while i < records.len()
        invariant
            i <= records.len(),
            entries.deep_view() == unique(people(records.deep_view().take(i as int))),
        decreases records.len() - i,
    {
        let entry = Person::new(&records[i]);
        proof {
            let next = people(records.deep_view().take(i + 1));
            assert(next.drop_last() =~= people(records.deep_view().take(i as int)));
            assert(next.last() == records[i as int]@.entity());
        }
        insert(&mut entries, &entry);
        i += 1;
    }
    assert(records.deep_view().take(records.len() as int) =~= records.deep_view());
    entries
}

impl Info {
    /// The relations and texts of the account that `site` reports. The
    /// pictures are left out: they are stored beside the profile.
    pub fn new(site: &GetSiteResponse) -> (info: Info)
        requires
            site@.my_user is Some,
        ensures
            info@ == InfoView::of_account(site@.my_user->0),
            info@.wf(),
    {
        proof {
            let account = site@.my_user->0;
            crate::profile::relation::lemma_unique(account.community_blocks);
            crate::profile::relation::lemma_unique(account.follows);
            crate::profile::relation::lemma_unique(people(account.person_blocks));
        }
        let account = site.my_user.as_ref().unwrap();
        Info {
            communities_blocks: communities_of(&account.community_blocks),
            communities_follows: communities_of(&account.follows),
            people_blocks: people_of(&account.person_blocks),
            bio: copy_text(&account.person.bio),
            display_name: copy_text(&account.person.display_name),
            avatar: None,
            banner: None,
        }
    }

    /// The relations of `self` that `other` lacks: list by list, the entries
    /// of `self` whose community or person `other` does not name, in the
    /// order of `self`. The texts are those of `self`; pictures are left out.
    pub fn subtract(&self, other: &Self) -> (rest: Self)
        ensures
            rest@ == self@.subtract(other@),
            self@.wf() ==> rest@.wf(),
    {
        proof {
            if self@.wf() {
                crate::profile::diff::lemma_subtract_distinct(
                    self@.communities_blocks,
                    other@.communities_blocks,
                );
                crate::profile::diff::lemma_subtract_distinct(
                    self@.communities_follows,
                    other@.communities_follows,
                );
                crate::profile::diff::lemma_subtract_distinct(self@.people_blocks, other@.people_blocks);
            }
        }
        let com_block = subtract_list(&self.communities_blocks, &other.communities_blocks);
        let com_follow = subtract_list(&self.communities_follows, &other.communities_follows);
        let ppl_block = subtract_list(&self.people_blocks, &other.people_blocks);
        Info {
            communities_blocks: com_block,
            communities_follows: com_follow,
            people_blocks: ppl_block,
            bio: copy_text(&self.bio),
            display_name: copy_text(&self.display_name),
            avatar: None,
            banner: None,
        }
    }
}

impl Clone for Info {
    fn clone(&self) -> (copy: Self)
        ensures
            copy@ == self@,
    {
        Info {
            communities_blocks: copy_list(&self.communities_blocks),
            communities_follows: copy_list(&self.communities_follows),
            people_blocks: copy_list(&self.people_blocks),
            bio: copy_text(&self.bio),
            display_name: copy_text(&self.display_name),
            avatar: copy_text(&self.avatar),
            banner: copy_text(&self.banner),
        }
    }
}

/// A copy of a list of communities or people.
pub fn copy_list<T: crate::profile::relation::Relation>(list: &Vec<T>) -> (copy: Vec<T>)
    ensures
        copy.deep_view() == list.deep_view(),
{
    let mut copy: Vec<T> = Vec::new();
    let mut i: usize = 0;
    while i < list.len()
        invariant
            i <= list.len(),
            copy.deep_view() == list.deep_view().take(i as int),
        decreases list.len() - i,
    {
        let ghost before = copy.deep_view();
        let entry = list[i].duplicate();
        copy.push(entry);
        assert(copy.deep_view() =~= before.push(list[i as int].deep_view()));
        assert(copy.deep_view() =~= list.deep_view().take(i + 1));
        i += 1;
    }
    assert(list.deep_view().take(list.len() as int) =~= list.deep_view());
    copy
}

/// A saved account: whose it is, its preferences and its relations.
#[derive(Debug)]
pub struct Profile {
    pub meta: Meta,
    pub info: Info,
    pub settings: Settings,
}

/// What a `Profile` holds.
pub ghost struct ProfileView {
    pub meta: MetaView,
    pub info: InfoView,
    pub settings: SettingsView,
}

impl ProfileView {
    /// The profile of `user` as `site` reports the account, made at `now`.
    pub open spec fn made(user: UserView, site: GetSiteResponseView, now: Timestamp) -> ProfileView
        recommends
            site.my_user is Some,
    {
        ProfileView {
            meta: MetaView {
                username: user.username,
                instance: user.instance,
                date_created: now,
                date_updated: now,
            },
            info: InfoView::of_account(site.my_user->0),
            settings: SettingsView::of_site(site),
        }
    }

    /// The profile as it is written at `now` over `previous`, the one saved
    /// before: created when `previous` was, last written at `now`, and in
    /// everything else, its owner too, as it is.
    pub open spec fn synced(self, previous: ProfileView, now: Timestamp) -> ProfileView {
        ProfileView {
            meta: MetaView {
                date_created: previous.meta.date_created,
                date_updated: now,
                ..self.meta
            },
            ..self
        }
    }

    /// The profile with each of the six optional fields emptied whose name
    /// is among `names`; every other field, and every field whose name is
    /// not among them, is as in `self`. Names of no field change nothing.
    pub open spec fn ignoring(self, names: Seq<Seq<char>>) -> ProfileView {
        ProfileView {
            meta: self.meta,
            info: InfoView {
                bio: if names.contains("bio"@) {
                    None
                } else {
                    self.info.bio
                },
                display_name: if names.contains("display_name"@) {
                    None
                } else {
                    self.info.display_name
                },
                avatar: if names.contains("avatar"@) {
                    None
                } else {
                    self.info.avatar
                },
                banner: if names.contains("banner"@) {
                    None
                } else {
                    self.info.banner
                },
                ..self.info
            },
            settings: SettingsView {
                email: if names.contains("email"@) {
                    None
                } else {
                    self.settings.email
                },
                matrix_user_id: if names.contains("matrix_user_id"@) {
                    None
                } else {
                    self.settings.matrix_user_id
                },
                ..self.settings
            },
        }
    }
}

/// `name` is the name of a field that `Profile::ignore_parameters` empties.
pub open spec fn is_parameter(name: Seq<char>) -> bool {
    ||| name == "email"@
    ||| name == "matrix_user_id"@
    ||| name == "bio"@
    ||| name == "display_name"@
    ||| name == "avatar"@
    ||| name == "banner"@
}

impl DeepView for Profile {
    type V = ProfileView;

    open spec fn deep_view(&self) -> ProfileView {
        ProfileView { meta: self.meta@, info: self.info@, settings: self.settings@ }
    }
}

impl View for Profile {
    type V = ProfileView;

    open spec fn view(&self) -> ProfileView {
        self.deep_view()
    }
}

impl Profile {
    /// The profile of `user` as `site` reports the account, made at the
    /// instant `now`.
    pub fn at<T: LoginState>(user: User<T>, site: &GetSiteResponse, now: Timestamp) -> (profile:
        Profile)
        requires
            site@.my_user is Some,
        ensures
            profile@ == ProfileView::made(user@, site@, now),
            profile@.info.wf(),
    {
        Profile { meta: Meta::at(user, now), info: Info::new(site), settings: Settings::new(site) }
    }

    /// The profile of `user` as `site` reports the account, made now:
    /// created and last written at the same instant, whichever the clock
    /// gives.
    pub fn new<T: LoginState>(user: User<T>, site: &GetSiteResponse) -> (profile: Profile)
        requires
            site@.my_user is Some,
        ensures
            profile@.meta.username == user@.username,
            profile@.meta.instance == user@.instance,
            profile@.meta.date_created == profile@.meta.date_updated,
            profile@.info == InfoView::of_account(site@.my_user->0),
            profile@.info.wf(),
            profile@.settings == SettingsView::of_site(site@),
    {
        Profile::at(user, site, now())
    }

    /// Takes over from `other`, the profile saved before, the instant of
    /// its creation, and marks the profile as last written at `now`. The
    /// owner, the preferences and the relations stay those of `self`.
    pub fn sync_at(&mut self, other: Self, now: Timestamp)
        ensures
            final(self)@ == old(self)@.synced(other@, now),
    {
        self.meta.date_created = other.meta.date_created;
        self.meta.touch_at(now);
    }

    /// Takes over from `other`, the profile saved before, the instant of
    /// its creation, and marks the profile as last written now. The owner,
    /// the preferences and the relations stay those of `self`.
    pub fn sync(&mut self, other: Self)
        ensures
            final(self)@.meta.username == old(self)@.meta.username,
            final(self)@.meta.instance == old(self)@.meta.instance,
            final(self)@.meta.date_created == other@.meta.date_created,
            final(self)@.info == old(self)@.info,
            final(self)@.settings == old(self)@.settings,
    {
        self.sync_at(other, now());
    }

    /// Empties the optional field called `name`, if there is one.
    pub fn ignore_parameter(&mut self, name: &str)
        ensures
            final(self)@ == old(self)@.ignoring(seq![name@]),
    {
        proof {
            lemma_parameter_names_differ();
            assert forall|x: Seq<char>| seq![name@].contains(x) <==> x == name@ by {
                if x == name@ {
                    assert(seq![name@][0] == x);
                }
            }
        }
        if text_eq(name, "email") {
            self.settings.email = None;
        } else if text_eq(name, "matrix_user_id") {
            self.settings.matrix_user_id = None;
        } else if text_eq(name, "bio") {
            self.info.bio = None;
        } else if text_eq(name, "display_name") {
            self.info.display_name = None;
        } else if text_eq(name, "avatar") {
            self.info.avatar = None;
        } else if text_eq(name, "banner") {
            self.info.banner = None;
        }
    }

    /// Empties the optional fields named in `ignore`: the email address,
    /// the chat handle, the bio, the display name, the avatar and the
    /// banner. A name of no such field is passed over.
    pub fn ignore_parameters(self, ignore: &[String]) -> (profile: Self)
        ensures
            profile@ == self@.ignoring(ignore.deep_view()),
    {
        let ghost start = self@;
        let mut profile = self;
        let mut i: usize = 0;
        proof {
            assert(ignore.deep_view().take(0) =~= Seq::<Seq<char>>::empty());
            assert(start.ignoring(Seq::<Seq<char>>::empty()) == start);
        }
        while i < ignore.len()
            invariant
                i <= ignore.len(),
                profile@ == start.ignoring(ignore.deep_view().take(i as int)),
            decreases ignore.len() - i,
        {
            proof {
                let done = ignore.deep_view().take(i as int);
                assert(ignore.deep_view().take(i + 1) =~= done + seq![ignore[i as int]@]);
                lemma_ignoring_twice(start, done, seq![ignore[i as int]@]);
            }
            profile.ignore_parameter(ignore[i].as_str());
            i += 1;
        }
        assert(ignore.deep_view().take(ignore.len() as int) =~= ignore.deep_view());
        profile
    }
}

/// Emptying the fields named in one list and then those named in another
/// is emptying the fields named in the two lists together.
pub proof fn lemma_ignoring_twice(profile: ProfileView, first: Seq<Seq<char>>, second: Seq<Seq<char>>)
    ensures
        profile.ignoring(first).ignoring(second) == profile.ignoring(first + second),
{
    let both = first + second;
    assert forall|x: Seq<char>| both.contains(x) <==> first.contains(x) || second.contains(x) by {
        if first.contains(x) {
            let k = choose|k: int| 0 <= k < first.len() && first[k] == x;
            assert(both[k] == x);
        }
        if second.contains(x) {
            let k = choose|k: int| 0 <= k < second.len() && second[k] == x;
            assert(both[first.len() + k] == x);
        }
        if both.contains(x) {
            let k = choose|k: int| 0 <= k < both.len() && both[k] == x;
            if k < first.len() {
                assert(first[k] == x);
            } else {
                assert(second[k - first.len()] == x);
            }
        }
    }
}

impl Clone for Profile {
    fn clone(&self) -> (copy: Self)
        ensures
            copy@ == self@,
    {
        Profile { meta: self.meta.clone(), info: self.info.clone(), settings: self.settings.clone() }
    }
}

/// The six names that `Profile::ignore_parameters` knows differ from one
/// another.
pub proof fn lemma_parameter_names_differ()
    ensures
        "email"@ != "matrix_user_id"@,
        "email"@ != "bio"@,
        "email"@ != "display_name"@,
        "email"@ != "avatar"@,
        "email"@ != "banner"@,
        "matrix_user_id"@ != "bio"@,
        "matrix_user_id"@ != "display_name"@,
        "matrix_user_id"@ != "avatar"@,
        "matrix_user_id"@ != "banner"@,
        "bio"@ != "display_name"@,
        "bio"@ != "avatar"@,
        "bio"@ != "banner"@,
        "display_name"@ != "avatar"@,
        "display_name"@ != "banner"@,
        "avatar"@ != "banner"@,
{
    reveal_strlit("email");
    reveal_strlit("matrix_user_id");
    reveal_strlit("bio");
    reveal_strlit("display_name");
    reveal_strlit("avatar");
    reveal_strlit("banner");
    assert("email"@.len() == 5);
    assert("matrix_user_id"@.len() == 14);
    assert("bio"@.len() == 3);
    assert("display_name"@.len() == 12);
    assert("avatar"@.len() == 6);
    assert("banner"@.len() == 6);
    assert("avatar"@[0] == 'a');
    assert("banner"@[0] == 'b');
}

/// Tells whether two texts are the same.
pub fn text_eq(a: &str, b: &str) -> (same: bool)
    ensures
        same == (a@ == b@),
{
    a.to_owned() == b.to_owned()
}

} // verus!
