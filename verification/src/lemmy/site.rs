//! The state of an account as its instance reports it.

use vstd::prelude::*;
use crate::profile::relation::Entity;

verus! {

/// How posts are ordered.
#[derive(Clone, Copy, Debug, PartialEq, Eq, Structural)]
pub enum SortType {
    Active,
    Hot,
    New,
    Old,
    TopDay,
    TopWeek,
    TopMonth,
    TopYear,
    TopAll,
    MostComments,
    NewComments,
    TopHour,
    TopSixHour,
    TopTwelveHour,
    TopThreeMonths,
    TopSixMonths,
    TopNineMonths,
}

/// Which posts a listing shows.
#[derive(Clone, Copy, Debug, PartialEq, Eq, Structural)]
pub enum ListingType {
    All,
    Local,
    Subscribed,
}

/// A community as an instance reports it, with the handle it has there.
#[derive(Debug)]
pub struct CommunityRecord {
    pub id: i32,
    pub name: String,
    pub actor_id: String,
}

impl DeepView for CommunityRecord {
    type V = Entity;

    open spec fn deep_view(&self) -> Entity {
        Entity { name: self.name@, actor: self.actor_id@, id: Some(self.id) }
    }
}

impl View for CommunityRecord {
    type V = Entity;

    open spec fn view(&self) -> Entity {
        self.deep_view()
    }
}

/// A person as an instance reports it, with the handle it has there.
#[derive(Debug)]
pub struct PersonRecord {
    pub id: i32,
    pub name: String,
    pub actor_id: String,
    pub display_name: Option<String>,
    pub avatar: Option<String>,
    pub banner: Option<String>,
    pub bio: Option<String>,
    pub matrix_user_id: Option<String>,
    pub bot_account: bool,
}

/// What a `PersonRecord` holds.
pub ghost struct PersonRecordView {
    pub id: i32,
    pub name: Seq<char>,
    pub actor_id: Seq<char>,
    pub display_name: Option<Seq<char>>,
    pub avatar: Option<Seq<char>>,
    pub banner: Option<Seq<char>>,
    pub bio: Option<Seq<char>>,
    pub matrix_user_id: Option<Seq<char>>,
    pub bot_account: bool,
}

impl PersonRecordView {
    /// The person as a list entry.
    pub open spec fn entity(self) -> Entity {
        Entity { name: self.name, actor: self.actor_id, id: Some(self.id) }
    }
}

impl DeepView for PersonRecord {
    type V = PersonRecordView;

    open spec fn deep_view(&self) -> PersonRecordView {
        PersonRecordView {
            id: self.id,
            name: self.name@,
            actor_id: self.actor_id@,
            display_name: self.display_name.deep_view(),
            avatar: self.avatar.deep_view(),
            banner: self.banner.deep_view(),
            bio: self.bio.deep_view(),
            matrix_user_id: self.matrix_user_id.deep_view(),
            bot_account: self.bot_account,
        }
    }
}

impl View for PersonRecord {
    type V = PersonRecordView;

    open spec fn view(&self) -> PersonRecordView {
        self.deep_view()
    }
}

/// The preferences that an instance keeps for one of its own accounts.
#[derive(Debug)]
pub struct LocalUser {
    pub email: Option<String>,
    pub show_nsfw: bool,
    pub theme: String,
    pub default_sort_type: SortType,
    pub default_listing_type: ListingType,
    pub interface_language: String,
    pub show_avatars: bool,
    pub send_notifications_to_email: bool,
    pub show_scores: bool,
    pub show_bot_accounts: bool,
    pub show_read_posts: bool,
    pub show_new_post_notifs: bool,
    pub open_links_in_new_tab: bool,
}

/// What a `LocalUser` holds.
pub ghost struct LocalUserView {
    pub email: Option<Seq<char>>,
    pub show_nsfw: bool,
    pub theme: Seq<char>,
    pub default_sort_type: SortType,
    pub default_listing_type: ListingType,
    pub interface_language: Seq<char>,
    pub show_avatars: bool,
    pub send_notifications_to_email: bool,
    pub show_scores: bool,
    pub show_bot_accounts: bool,
    pub show_read_posts: bool,
    pub show_new_post_notifs: bool,
    pub open_links_in_new_tab: bool,
}

impl DeepView for LocalUser {
    type V = LocalUserView;

    open spec fn deep_view(&self) -> LocalUserView {
        LocalUserView {
            email: self.email.deep_view(),
            show_nsfw: self.show_nsfw,
            theme: self.theme@,
            default_sort_type: self.default_sort_type,
            default_listing_type: self.default_listing_type,
            interface_language: self.interface_language@,
            show_avatars: self.show_avatars,
            send_notifications_to_email: self.send_notifications_to_email,
            show_scores: self.show_scores,
            show_bot_accounts: self.show_bot_accounts,
            show_read_posts: self.show_read_posts,
            show_new_post_notifs: self.show_new_post_notifs,
            open_links_in_new_tab: self.open_links_in_new_tab,
        }
    }
}

impl View for LocalUser {
    type V = LocalUserView;

    open spec fn view(&self) -> LocalUserView {
        self.deep_view()
    }
}

/// What an instance reports of the account that asks: its preferences, its
/// public record, and the communities and people it follows or blocks.
#[derive(Debug)]
pub struct MyUserInfo {
    pub local_user: LocalUser,
    pub person: PersonRecord,
    pub follows: Vec<CommunityRecord>,
    pub community_blocks: Vec<CommunityRecord>,
    pub person_blocks: Vec<PersonRecord>,
}

/// What a `MyUserInfo` holds.
pub ghost struct MyUserInfoView {
    pub local_user: LocalUserView,
    pub person: PersonRecordView,
    pub follows: Seq<Entity>,
    pub community_blocks: Seq<Entity>,
    pub person_blocks: Seq<PersonRecordView>,
}

impl DeepView for MyUserInfo {
    type V = MyUserInfoView;

    open spec fn deep_view(&self) -> MyUserInfoView {
        MyUserInfoView {
            local_user: self.local_user@,
            person: self.person@,
            follows: self.follows.deep_view(),
            community_blocks: self.community_blocks.deep_view(),
            person_blocks: self.person_blocks.deep_view(),
        }
    }
}

impl View for MyUserInfo {
    type V = MyUserInfoView;

    open spec fn view(&self) -> MyUserInfoView {
        self.deep_view()
    }
}

/// The answer of an instance to a request for its state: the account that
/// asked, if the request carried a valid credential, the languages it reads,
/// and how many messages per second the instance accepts.
#[derive(Debug)]
pub struct GetSiteResponse {
    pub my_user: Option<MyUserInfo>,
    pub discussion_languages: Vec<i32>,
    pub message_per_second: i32,
}

/// What a `GetSiteResponse` holds.
pub ghost struct GetSiteResponseView {
    pub my_user: Option<MyUserInfoView>,
    pub discussion_languages: Seq<i32>,
    pub message_per_second: i32,
}

impl DeepView for GetSiteResponse {
    type V = GetSiteResponseView;

    open spec fn deep_view(&self) -> GetSiteResponseView {
        GetSiteResponseView {
            my_user: self.my_user.deep_view(),
            discussion_languages: self.discussion_languages@,
            message_per_second: self.message_per_second,
        }
    }
}

impl View for GetSiteResponse {
    type V = GetSiteResponseView;

    open spec fn view(&self) -> GetSiteResponseView {
        self.deep_view()
    }
}

/// A copy of an optional text.
pub fn copy_text(text: &Option<String>) -> (copy: Option<String>)
    ensures
        copy.deep_view() == text.deep_view(),
{
    match text {
        Some(t) => Some(t.clone()),
        None => None,
    }
}

/// A copy of a list of numbers.
pub fn copy_numbers(numbers: &Vec<i32>) -> (copy: Vec<i32>)
    ensures
        copy@ == numbers@,
{
    let mut copy: Vec<i32> = Vec::new();
    let mut i: usize = 0;
    while i < numbers.len()
        invariant
            i <= numbers.len(),
            copy@ == numbers@.take(i as int),
        decreases numbers.len() - i,
    {
        copy.push(numbers[i]);
        assert(copy@ =~= numbers@.take(i + 1));
        i += 1;
    }
    assert(numbers@.take(numbers.len() as int) =~= numbers@);
    copy
}

} // verus!
