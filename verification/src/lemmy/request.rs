//! Requests to an instance, as values.

use vstd::prelude::*;
use crate::lemmy::site::{ListingType, SortType};
use crate::profile::{Profile, ProfileView};

verus! {

/// How a request is sent.
#[derive(Clone, Copy, Debug, PartialEq, Eq, Structural)]
pub enum Method {
    Get,
    Post,
    Put,
}

/// What a search looks for.
#[derive(Clone, Copy, Debug, PartialEq, Eq, Structural)]
pub enum SearchType {
    All,
    Comments,
    Posts,
    Communities,
    Users,
    Url,
}

/// The new preferences and public texts of an account, as the instance
/// takes them. A field that is `None` is left as the instance has it.
#[derive(Debug)]
pub struct SaveUserSettings {
    pub show_nsfw: Option<bool>,
    pub show_scores: Option<bool>,
    pub theme: Option<String>,
    pub default_sort_type: Option<SortType>,
    pub default_listing_type: Option<ListingType>,
    pub interface_language: Option<String>,
    pub avatar: Option<String>,
    pub banner: Option<String>,
    pub display_name: Option<String>,
    pub email: Option<String>,
    pub bio: Option<String>,
    pub matrix_user_id: Option<String>,
    pub show_avatars: Option<bool>,
    pub send_notifications_to_email: Option<bool>,
    pub bot_account: Option<bool>,
    pub show_bot_accounts: Option<bool>,
    pub show_read_posts: Option<bool>,
    pub show_new_post_notifs: Option<bool>,
    pub discussion_languages: Option<Vec<i32>>,
    pub generate_totp_2fa: Option<bool>,
    pub auth: String,
    pub open_links_in_new_tab: Option<bool>,
}

/// What a `SaveUserSettings` holds.
pub ghost struct SaveUserSettingsView {
    pub show_nsfw: Option<bool>,
    pub show_scores: Option<bool>,
    pub theme: Option<Seq<char>>,
    pub default_sort_type: Option<SortType>,
    pub default_listing_type: Option<ListingType>,
    pub interface_language: Option<Seq<char>>,
    pub avatar: Option<Seq<char>>,
    pub banner: Option<Seq<char>>,
    pub display_name: Option<Seq<char>>,
    pub email: Option<Seq<char>>,
    pub bio: Option<Seq<char>>,
    pub matrix_user_id: Option<Seq<char>>,
    pub show_avatars: Option<bool>,
    pub send_notifications_to_email: Option<bool>,
    pub bot_account: Option<bool>,
    pub show_bot_accounts: Option<bool>,
    pub show_read_posts: Option<bool>,
    pub show_new_post_notifs: Option<bool>,
    pub discussion_languages: Option<Seq<i32>>,
    pub generate_totp_2fa: Option<bool>,
    pub auth: Seq<char>,
    pub open_links_in_new_tab: Option<bool>,
}

impl SaveUserSettingsView {
    /// The settings that replay `profile` in full: every preference is set
    /// to what the profile holds, the four public texts are those of the
    /// profile, second-factor login is left as it is, and the credential is
    /// still to be filled in.
    pub open spec fn of_profile(profile: ProfileView) -> SaveUserSettingsView {
        SaveUserSettingsView {
            default_sort_type: Some(profile.settings.default_sort_type),
            default_listing_type: Some(profile.settings.default_listing_type),
            theme: Some(profile.settings.theme),
            interface_language: Some(profile.settings.interface_language),
            email: profile.settings.email,
            matrix_user_id: profile.settings.matrix_user_id,
            show_nsfw: Some(profile.settings.show_nsfw),
            show_scores: Some(profile.settings.show_scores),
            show_avatars: Some(profile.settings.show_avatars),
            show_bot_accounts: Some(profile.settings.show_bot_accounts),
            show_read_posts: Some(profile.settings.show_read_posts),
            show_new_post_notifs: Some(profile.settings.show_new_post_notifs),
            open_links_in_new_tab: Some(profile.settings.open_links_in_new_tab),
            send_notifications_to_email: Some(profile.settings.send_notifications_to_email),
            bot_account: Some(profile.settings.bot_account),
            discussion_languages: Some(profile.settings.discussion_languages),
            bio: profile.info.bio,
            display_name: profile.info.display_name,
            avatar: profile.info.avatar,
            banner: profile.info.banner,
            generate_totp_2fa: None,
            auth: Seq::<char>::empty(),
        }
    }
}

/// What an optional list of numbers holds.
pub open spec fn numbers_view(numbers: Option<Vec<i32>>) -> Option<Seq<i32>> {
    match numbers {
        Some(list) => Some(list@),
        None => None,
    }
}

impl DeepView for SaveUserSettings {
    type V = SaveUserSettingsView;

    open spec fn deep_view(&self) -> SaveUserSettingsView {
        SaveUserSettingsView {
            show_nsfw: self.show_nsfw,
            show_scores: self.show_scores,
            theme: self.theme.deep_view(),
            default_sort_type: self.default_sort_type,
            default_listing_type: self.default_listing_type,
            interface_language: self.interface_language.deep_view(),
            avatar: self.avatar.deep_view(),
            banner: self.banner.deep_view(),
            display_name: self.display_name.deep_view(),
            email: self.email.deep_view(),
            bio: self.bio.deep_view(),
            matrix_user_id: self.matrix_user_id.deep_view(),
            show_avatars: self.show_avatars,
            send_notifications_to_email: self.send_notifications_to_email,
            bot_account: self.bot_account,
            show_bot_accounts: self.show_bot_accounts,
            show_read_posts: self.show_read_posts,
            show_new_post_notifs: self.show_new_post_notifs,
            discussion_languages: numbers_view(self.discussion_languages),
            generate_totp_2fa: self.generate_totp_2fa,
            auth: self.auth@,
            open_links_in_new_tab: self.open_links_in_new_tab,
        }
    }
}

impl View for SaveUserSettings {
    type V = SaveUserSettingsView;

    open spec fn view(&self) -> SaveUserSettingsView {
        self.deep_view()
    }
}

impl SaveUserSettings {
    /// The settings that replay `profile` in full, with an empty
    /// credential.
    pub fn from(profile: Profile) -> (settings: SaveUserSettings)
        ensures
            settings@ == SaveUserSettingsView::of_profile(profile@),
    {
        SaveUserSettings {
            default_sort_type: Some(profile.settings.default_sort_type),
            default_listing_type: Some(profile.settings.default_listing_type),
            theme: Some(profile.settings.theme),
            interface_language: Some(profile.settings.interface_language),
            email: match profile.settings.email {
                Some(email) => Some(email),
                None => None,
            },
            matrix_user_id: profile.settings.matrix_user_id,
            show_nsfw: Some(profile.settings.show_nsfw),
            show_scores: Some(profile.settings.show_scores),
            show_avatars: Some(profile.settings.show_avatars),
            show_bot_accounts: Some(profile.settings.show_bot_accounts),
            show_read_posts: Some(profile.settings.show_read_posts),
            show_new_post_notifs: Some(profile.settings.show_new_post_notifs),
            open_links_in_new_tab: Some(profile.settings.open_links_in_new_tab),
            send_notifications_to_email: Some(profile.settings.send_notifications_to_email),
            bot_account: Some(profile.settings.bot_account),
            discussion_languages: Some(profile.settings.discussion_languages),
            bio: profile.info.bio,
            display_name: profile.info.display_name,
            avatar: profile.info.avatar,
            banner: profile.info.banner,
            generate_totp_2fa: None,
            auth: String::new(),
        }
    }
}

/// What a request carries besides its address.
#[derive(Debug)]
pub enum Body {
    /// Nothing.
    Empty,
    /// A login with a name or email address, a password and, where the
    /// account asks for one, a second-factor token.
    Login { username_or_email: String, password: String, totp_2fa_token: Option<String> },
    /// The question for the state of the instance and of the account.
    GetSite { auth: String },
    /// New preferences and public texts.
    SaveUserSettings(SaveUserSettings),
    /// A search for `q` among things of kind `type_`, ordered by `sort`.
    Search { q: String, type_: SearchType, sort: SortType, auth: String },
    /// Follow a community, or stop following it.
    FollowCommunity { community_id: i32, follow: bool, auth: String },
    /// Block a community, or lift the block.
    BlockCommunity { community_id: i32, block: bool, auth: String },
    /// Block a person, or lift the block.
    BlockPerson { person_id: i32, block: bool, auth: String },
    /// A picture, sent as the part `part` of a form, under the file name
    /// `file_name` and as content of type `mime`, with the session's cookie.
    Image { bytes: Vec<u8>, part: String, file_name: String, mime: String, cookie: String },
}

/// What a `Body` holds.
pub ghost enum BodyView {
    Empty,
    Login { username_or_email: Seq<char>, password: Seq<char>, totp_2fa_token: Option<Seq<char>> },
    GetSite { auth: Seq<char> },
    SaveUserSettings(SaveUserSettingsView),
    Search { q: Seq<char>, type_: SearchType, sort: SortType, auth: Seq<char> },
    FollowCommunity { community_id: i32, follow: bool, auth: Seq<char> },
    BlockCommunity { community_id: i32, block: bool, auth: Seq<char> },
    BlockPerson { person_id: i32, block: bool, auth: Seq<char> },
    Image {
        bytes: Seq<u8>,
        part: Seq<char>,
        file_name: Seq<char>,
        mime: Seq<char>,
        cookie: Seq<char>,
    },
}

impl DeepView for Body {
    type V = BodyView;

    open spec fn deep_view(&self) -> BodyView {
        match self {
            Body::Empty => BodyView::Empty,
            Body::Login { username_or_email, password, totp_2fa_token } => BodyView::Login {
                username_or_email: username_or_email@,
                password: password@,
                totp_2fa_token: totp_2fa_token.deep_view(),
            },
            Body::GetSite { auth } => BodyView::GetSite { auth: auth@ },
            Body::SaveUserSettings(settings) => BodyView::SaveUserSettings(settings@),
            Body::Search { q, type_, sort, auth } => BodyView::Search {
                q: q@,
                type_: *type_,
                sort: *sort,
                auth: auth@,
            },
            Body::FollowCommunity { community_id, follow, auth } => BodyView::FollowCommunity {
                community_id: *community_id,
                follow: *follow,
                auth: auth@,
            },
            Body::BlockCommunity { community_id, block, auth } => BodyView::BlockCommunity {
                community_id: *community_id,
                block: *block,
                auth: auth@,
            },
            Body::BlockPerson { person_id, block, auth } => BodyView::BlockPerson {
                person_id: *person_id,
                block: *block,
                auth: auth@,
            },
            Body::Image { bytes, part, file_name, mime, cookie } => BodyView::Image {
                bytes: bytes@,
                part: part@,
                file_name: file_name@,
                mime: mime@,
                cookie: cookie@,
            },
        }
    }
}

impl View for Body {
    type V = BodyView;

    open spec fn view(&self) -> BodyView {
        self.deep_view()
    }
}

/// A request: how it is sent, where to, and what it carries.
#[derive(Debug)]
pub struct Request {
    pub method: Method,
    pub url: String,
    pub body: Body,
}

/// What a `Request` holds.
pub ghost struct RequestView {
    pub method: Method,
    pub url: Seq<char>,
    pub body: BodyView,
}

impl DeepView for Request {
    type V = RequestView;

    open spec fn deep_view(&self) -> RequestView {
        RequestView { method: self.method, url: self.url@, body: self.body@ }
    }
}

impl View for Request {
    type V = RequestView;

    open spec fn view(&self) -> RequestView {
        self.deep_view()
    }
}

} // verus!
