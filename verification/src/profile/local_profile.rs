//! A profile under the name by which it is stored.
//!
//! The store keeps, for each name, the profile as a document and beside it
//! the avatar and the banner as pictures. Reading and writing them is left
//! to the caller; what is decided here is what gets written.

use vstd::prelude::*;
use crate::clock::{now, Timestamp};
use crate::profile::{Profile, ProfileView};

verus! {

/// Where the profiles are kept, below the home directory.
pub const PROFILE_PATH_RELATIVE: &'static str = ".bliss/profiles/";

/// The name of the document that holds a profile.
pub const PROFILE_FILENAME: &'static str = "profile.yml";

/// The name of the picture that holds a profile's avatar.
pub const AVATAR_FILENAME: &'static str = "avatar.png";

/// The name of the picture that holds a profile's banner.
pub const BANNER_FILENAME: &'static str = "banner.png";

/// A profile together with the name under which it is stored.
#[derive(Debug)]
pub struct LocalProfile {
    pub name: String,
    pub profile: Profile,
}

/// What a `LocalProfile` holds.
pub ghost struct LocalProfileView {
    pub name: Seq<char>,
    pub profile: ProfileView,
}

impl LocalProfileView {
    /// What is written when the profile is saved at `now` over `previous`,
    /// the profile stored under the name so far, if there is one.
    pub open spec fn saved(self, previous: Option<ProfileView>, now: Timestamp) -> LocalProfileView {
        match previous {
            Some(before) => LocalProfileView { profile: self.profile.synced(before, now), ..self },
            None => self,
        }
    }
}

impl DeepView for LocalProfile {
    type V = LocalProfileView;

    open spec fn deep_view(&self) -> LocalProfileView {
        LocalProfileView { name: self.name@, profile: self.profile@ }
    }
}

impl View for LocalProfile {
    type V = LocalProfileView;

    open spec fn view(&self) -> LocalProfileView {
        self.deep_view()
    }
}

impl LocalProfile {
    /// `profile`, to be stored under `name`.
    pub fn new(name: &str, profile: Profile) -> (local: Self)
        ensures
            local@ == (LocalProfileView { name: name@, profile: profile@ }),
    {
        LocalProfile { name: name.to_owned(), profile }
    }

    /// Prepares the profile for being written at the instant `now`.
    /// `previous` is the profile stored under the same name, if one could be
    /// read: the new one then takes its instant of creation, and nothing
    /// else, from it and is marked as last written at `now`. With no
    /// previous profile nothing changes.
    pub fn save_at(&mut self, previous: Option<Profile>, now: Timestamp)
        ensures
            final(self)@ == old(self)@.saved(previous.deep_view(), now),
    {
        match previous {
            Some(before) => {
                self.profile.sync_at(before, now);
            },
            None => {},
        }
    }

    /// Prepares the profile for being written now. `previous` is the
    /// profile stored under the same name, if one could be read: the new one
    /// then takes its instant of creation, and nothing else, from it. The
    /// instant of the last writing is read from the clock. With no previous
    /// profile nothing changes.
    pub fn save(&mut self, previous: Option<Profile>)
        ensures
            final(self)@.name == old(self)@.name,
            final(self)@.profile.info == old(self)@.profile.info,
            final(self)@.profile.settings == old(self)@.profile.settings,
            final(self)@.profile.meta.username == old(self)@.profile.meta.username,
            final(self)@.profile.meta.instance == old(self)@.profile.meta.instance,
            previous is None ==> final(self)@ == old(self)@,
            previous matches Some(before) ==> final(self)@.profile.meta.date_created
                == before@.meta.date_created,
    {
        if previous.is_some() {
            self.save_at(previous, now());
        }
    }
}

/// Saving over a stored profile takes from it the instant of its creation
/// and nothing else: the owner, the preferences and the relations are
/// those of the profile that is saved. The instant of the last writing
/// moves forward whenever the clock has moved past the stored one.
pub proof fn lemma_save_over_previous(
    current: LocalProfileView,
    previous: ProfileView,
    now: Timestamp,
)
    ensures
        current.saved(Some(previous), now).profile.meta.date_created == previous.meta.date_created,
        current.saved(Some(previous), now).profile.meta.date_updated == now,
        current.saved(Some(previous), now).profile.meta.username == current.profile.meta.username,
        current.saved(Some(previous), now).profile.meta.instance == current.profile.meta.instance,
        current.saved(Some(previous), now).profile.info == current.profile.info,
        current.saved(Some(previous), now).profile.settings == current.profile.settings,
        current.saved(Some(previous), now).name == current.name,
        previous.meta.date_updated.is_before(now) ==> previous.meta.date_updated.is_before(
            current.saved(Some(previous), now).profile.meta.date_updated,
        ),
{
}

/// A profile made from the live state of an account and saved under a name
/// that holds none yet counts as created and last written at the instant
/// it was made, whenever it is saved.
pub proof fn lemma_save_fresh(
    name: Seq<char>,
    user: crate::user::UserView,
    site: crate::lemmy::site::GetSiteResponseView,
    made: Timestamp,
    now: Timestamp,
)
    ensures
        ({
            let fresh = LocalProfileView { name, profile: ProfileView::made(user, site, made) };
            let saved = fresh.saved(None, now);
            saved.profile.meta.date_created == made && saved.profile.meta.date_updated == made
        }),
{
}

} // verus!
