//! The preferences of an account.

use vstd::prelude::*;
use crate::lemmy::site::{
    copy_numbers, copy_text, GetSiteResponse, GetSiteResponseView, ListingType, SortType,
};

verus! {

/// The preferences of an account, as a flat record.
#[derive(Debug)]
pub struct Settings {
    pub default_sort_type: SortType,
    pub default_listing_type: ListingType,
    pub theme: String,
    pub interface_language: String,
    pub email: Option<String>,
    pub matrix_user_id: Option<String>,
    pub show_nsfw: bool,
    pub show_scores: bool,
    pub show_avatars: bool,
    pub show_bot_accounts: bool,
    pub show_read_posts: bool,
    pub show_new_post_notifs: bool,
    pub open_links_in_new_tab: bool,
    pub send_notifications_to_email: bool,
    pub bot_account: bool,
    pub discussion_languages: Vec<i32>,
}

/// What a `Settings` holds.
pub ghost struct SettingsView {
    pub default_sort_type: SortType,
    pub default_listing_type: ListingType,
    pub theme: Seq<char>,
    pub interface_language: Seq<char>,
    pub email: Option<Seq<char>>,
    pub matrix_user_id: Option<Seq<char>>,
    pub show_nsfw: bool,
    pub show_scores: bool,
    pub show_avatars: bool,
    pub show_bot_accounts: bool,
    pub show_read_posts: bool,
    pub show_new_post_notifs: bool,
    pub open_links_in_new_tab: bool,
    pub send_notifications_to_email: bool,
    pub bot_account: bool,
    pub discussion_languages: Seq<i32>,
}

impl SettingsView {
    /// The preferences that `site` reports of the account that asked.
    pub open spec fn of_site(site: GetSiteResponseView) -> SettingsView
        recommends
            site.my_user is Some,
    {
        let local_user = site.my_user->0.local_user;
        let person = site.my_user->0.person;
        SettingsView {
            default_sort_type: local_user.default_sort_type,
            default_listing_type: local_user.default_listing_type,
            theme: local_user.theme,
            interface_language: local_user.interface_language,
            email: local_user.email,
            matrix_user_id: person.matrix_user_id,
            show_nsfw: local_user.show_nsfw,
            show_scores: local_user.show_scores,
            show_avatars: local_user.show_avatars,
            show_bot_accounts: local_user.show_bot_accounts,
            show_read_posts: local_user.show_read_posts,
            show_new_post_notifs: local_user.show_new_post_notifs,
            open_links_in_new_tab: local_user.open_links_in_new_tab,
            send_notifications_to_email: local_user.send_notifications_to_email,
            bot_account: person.bot_account,
            discussion_languages: site.discussion_languages,
        }
    }
}

impl DeepView for Settings {
    type V = SettingsView;

    open spec fn deep_view(&self) -> SettingsView {
        SettingsView {
            default_sort_type: self.default_sort_type,
            default_listing_type: self.default_listing_type,
            theme: self.theme@,
            interface_language: self.interface_language@,
            email: self.email.deep_view(),
            matrix_user_id: self.matrix_user_id.deep_view(),
            show_nsfw: self.show_nsfw,
            show_scores: self.show_scores,
            show_avatars: self.show_avatars,
            show_bot_accounts: self.show_bot_accounts,
            show_read_posts: self.show_read_posts,
            show_new_post_notifs: self.show_new_post_notifs,
            open_links_in_new_tab: self.open_links_in_new_tab,
            send_notifications_to_email: self.send_notifications_to_email,
            bot_account: self.bot_account,
            discussion_languages: self.discussion_languages@,
        }
    }
}

impl View for Settings {
    type V = SettingsView;

    open spec fn view(&self) -> SettingsView {
        self.deep_view()
    }
}

impl Settings {
    /// The preferences of the account that `site` reports: those the
    /// instance keeps for the account, the chat handle and the bot flag of
    /// its public record, and the languages it reads.
    pub fn new(site: &GetSiteResponse) -> (settings: Settings)
        requires
            site@.my_user is Some,
        ensures
            settings@ == SettingsView::of_site(site@),
    {
        let account = site.my_user.as_ref().unwrap();
        let local_user = &account.local_user;
        let user = &account.person;
        Settings {
            default_sort_type: local_user.default_sort_type,
            default_listing_type: local_user.default_listing_type,
            theme: local_user.theme.clone(),
            interface_language: local_user.interface_language.clone(),
            email: copy_text(&local_user.email),
            matrix_user_id: copy_text(&user.matrix_user_id),
            show_nsfw: local_user.show_nsfw,
            show_scores: local_user.show_scores,
            show_avatars: local_user.show_avatars,
            show_bot_accounts: local_user.show_bot_accounts,
            show_read_posts: local_user.show_read_posts,
            show_new_post_notifs: local_user.show_new_post_notifs,
            open_links_in_new_tab: local_user.open_links_in_new_tab,
            send_notifications_to_email: local_user.send_notifications_to_email,
            bot_account: user.bot_account,
            discussion_languages: copy_numbers(&site.discussion_languages),
        }
    }
}

impl Clone for Settings {
    fn clone(&self) -> (copy: Self)
        ensures
            copy@ == self@,
    {
        Settings {
            default_sort_type: self.default_sort_type,
            default_listing_type: self.default_listing_type,
            theme: self.theme.clone(),
            interface_language: self.interface_language.clone(),
            email: copy_text(&self.email),
            matrix_user_id: copy_text(&self.matrix_user_id),
            show_nsfw: self.show_nsfw,
            show_scores: self.show_scores,
            show_avatars: self.show_avatars,
            show_bot_accounts: self.show_bot_accounts,
            show_read_posts: self.show_read_posts,
            show_new_post_notifs: self.show_new_post_notifs,
            open_links_in_new_tab: self.open_links_in_new_tab,
            send_notifications_to_email: self.send_notifications_to_email,
            bot_account: self.bot_account,
            discussion_languages: copy_numbers(&self.discussion_languages),
        }
    }
}

} // verus!
