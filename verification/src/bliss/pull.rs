//! Capturing the live state of an account into a stored profile.

use vstd::prelude::*;
use crate::bliss::error::{Error, ErrorView};
use crate::bliss::step::{
    copy_failure, not_fitting, one, outcome, say, step, unexpected, Action, ActionView, Asset, Event,
    EventView, Step, StepView,
};
use crate::bliss::util::{entry, instance_host, spec_instance_host, Level, LogEntry, LogEntryView};
use crate::clock::{now, Timestamp};
use crate::lemmy::site::copy_text;
use crate::profile::local_profile::{LocalProfile, LocalProfileView};
use crate::profile::{Profile, ProfileView};
use crate::user::{Authorized, User, UserView};

verus! {

/// How far a pull has come.
#[derive(Clone, Copy, Debug, PartialEq, Eq, Structural)]
pub enum PullStage {
    Start,
    FetchingSite,
    DownloadingAvatar,
    DownloadingBanner,
    LoadingPrevious,
    SavingProfile,
    SavingAvatar,
    SavingBanner,
    Finished,
}

/// A pull in progress: whose account is captured under which name, how far
/// the pull has come, and what it has gathered so far.
pub struct Pull {
    pub user: User<Authorized>,
    pub profile_name: String,
    pub stage: PullStage,
    pub profile: Option<Profile>,
    pub banner_url: Option<String>,
    pub avatar: Option<Vec<u8>>,
    pub banner: Option<Vec<u8>>,
    pub failure: Option<Error>,
}

/// What a `Pull` holds.
pub ghost struct PullView {
    pub user: UserView,
    pub profile_name: Seq<char>,
    pub stage: PullStage,
    pub profile: Option<ProfileView>,
    pub banner_url: Option<Seq<char>>,
    pub avatar: Option<Seq<u8>>,
    pub banner: Option<Seq<u8>>,
    pub failure: Option<ErrorView>,
}

/// What an optional picture holds.
pub open spec fn picture(bytes: Option<Vec<u8>>) -> Option<Seq<u8>> {
    match bytes {
        Some(b) => Some(b@),
        None => None,
    }
}

/// The failure of an operation on an instance that does not report the
/// account that asked.
pub open spec fn unknown_account() -> ErrorView {
    ErrorView::BlissError("The instance does not report the account"@)
}

impl DeepView for Pull {
    type V = PullView;

    open spec fn deep_view(&self) -> PullView {
        PullView {
            user: self.user@,
            profile_name: self.profile_name@,
            stage: self.stage,
            profile: self.profile.deep_view(),
            banner_url: self.banner_url.deep_view(),
            avatar: picture(self.avatar),
            banner: picture(self.banner),
            failure: self.failure.deep_view(),
        }
    }
}

impl View for Pull {
    type V = PullView;

    open spec fn view(&self) -> PullView {
        self.deep_view()
    }
}

impl PullView {
    /// The message that opens a pull.
    pub open spec fn opening(self) -> LogEntryView {
        entry(
            Level::Info,
            "Pulling "@ + self.user.username + "@"@ + spec_instance_host(self.user.instance)
                + " to local profile "@ + self.profile_name + "."@,
        )
    }

    /// Ends the pull, well or with `failure`.
    pub open spec fn stop(self, failure: Option<ErrorView>) -> (PullView, StepView) {
        (
            PullView { stage: PullStage::Finished, failure, ..self },
            step(Seq::empty(), ActionView::Finish(failure)),
        )
    }

    /// Goes on once the avatar is there, or known to be missing: fetches
    /// the banner, if the account has one.
    pub open spec fn after_avatar(self, avatar: Option<Seq<u8>>) -> (PullView, StepView) {
        let held = PullView { avatar, ..self };
        match self.banner_url {
            Some(url) => (
                PullView { stage: PullStage::DownloadingBanner, ..held },
                step(Seq::empty(), ActionView::DownloadImage(url)),
            ),
            None => held.after_banner(None),
        }
    }

    /// Goes on once the banner is there, or known to be missing: asks for
    /// the profile stored under the name so far.
    pub open spec fn after_banner(self, banner: Option<Seq<u8>>) -> (PullView, StepView) {
        (
            PullView { stage: PullStage::LoadingPrevious, banner, ..self },
            step(Seq::empty(), ActionView::LoadProfile(self.profile_name)),
        )
    }

    /// Goes on once the profile is written: writes the avatar, if there is
    /// one. `logs` is what there is to say so far.
    pub open spec fn store_avatar(self, logs: Seq<LogEntryView>) -> (PullView, StepView) {
        match self.avatar {
            Some(bytes) => (
                PullView { stage: PullStage::SavingAvatar, ..self },
                step(logs, ActionView::SaveImage(self.profile_name, Asset::Avatar, bytes)),
            ),
            None => self.store_banner(logs),
        }
    }

    /// Goes on once the avatar is dealt with: writes the banner, if there
    /// is one, and ends the pull otherwise. `logs` is what there is to say
    /// so far.
    pub open spec fn store_banner(self, logs: Seq<LogEntryView>) -> (PullView, StepView) {
        match self.banner {
            Some(bytes) => (
                PullView { stage: PullStage::SavingBanner, ..self },
                step(logs, ActionView::SaveImage(self.profile_name, Asset::Banner, bytes)),
            ),
            None => self.complete(logs),
        }
    }

    /// Ends the pull well. `logs` is what there is to say so far.
    pub open spec fn complete(self, logs: Seq<LogEntryView>) -> (PullView, StepView) {
        (
            PullView { stage: PullStage::Finished, failure: None, ..self },
            step(logs.push(entry(Level::Info, "Pulled successfully."@)), ActionView::Finish(None)),
        )
    }

    /// The pull after `event`, and the step it asks for, where the clock
    /// shows `now` when the event is taken.
    ///
    /// A pull asks the instance for the account, makes a profile of the
    /// answer, fetches the avatar and the banner that the account names,
    /// writes the profile over the one stored under the name so far, of
    /// which it keeps the instant of creation and nothing else, and then
    /// writes the pictures. Any failure on the way ends the pull, except
    /// that a stored profile that cannot be read counts as none; so does
    /// an answer of the wrong sort.
    pub open spec fn next(self, event: EventView, now: Timestamp) -> (PullView, StepView) {
        match self.stage {
            PullStage::Start => (
                PullView { stage: PullStage::FetchingSite, ..self },
                step(seq![self.opening()], ActionView::GetSite),
            ),
            PullStage::FetchingSite => match event {
                EventView::Site(Ok(site)) => match site.my_user {
                    Some(account) => {
                        let held = PullView {
                            profile: Some(ProfileView::made(self.user, site, now)),
                            banner_url: account.person.banner,
                            ..self
                        };
                        match account.person.avatar {
                            Some(url) => (
                                PullView { stage: PullStage::DownloadingAvatar, ..held },
                                step(Seq::empty(), ActionView::DownloadImage(url)),
                            ),
                            None => held.after_avatar(None),
                        }
                    },
                    None => self.stop(Some(unknown_account())),
                },
                EventView::Site(Err(error)) => self.stop(Some(error)),
                _ => self.stop(Some(unexpected())),
            },
            PullStage::DownloadingAvatar => match event {
                EventView::Image(Ok(bytes)) => self.after_avatar(bytes),
                EventView::Image(Err(error)) => self.stop(Some(error)),
                _ => self.stop(Some(unexpected())),
            },
            PullStage::DownloadingBanner => match event {
                EventView::Image(Ok(bytes)) => self.after_banner(bytes),
                EventView::Image(Err(error)) => self.stop(Some(error)),
                _ => self.stop(Some(unexpected())),
            },
            PullStage::LoadingPrevious => match (event, self.profile) {
                (EventView::Loaded(loaded), Some(profile)) => {
                    let previous = match loaded {
                        Ok(before) => Some(before),
                        Err(_) => None,
                    };
                    let local = (LocalProfileView { name: self.profile_name, profile }).saved(
                        previous,
                        now,
                    );
                    (
                        PullView {
                            stage: PullStage::SavingProfile,
                            profile: Some(local.profile),
                            ..self
                        },
                        step(Seq::empty(), ActionView::SaveProfile(local)),
                    )
                },
                _ => self.stop(Some(unexpected())),
            },
            PullStage::SavingProfile => match event {
                EventView::Done(None) => self.store_avatar(
                    seq![entry(Level::Info, "Successfully saved user profile."@)],
                ),
                EventView::Done(Some(error)) => self.stop(Some(error)),
                _ => self.stop(Some(unexpected())),
            },
            PullStage::SavingAvatar => match event {
                EventView::Done(None) => self.store_banner(
                    seq![entry(Level::Info, "Successfully saved avatar."@)],
                ),
                EventView::Done(Some(error)) => self.stop(Some(error)),
                _ => self.stop(Some(unexpected())),
            },
            PullStage::SavingBanner => match event {
                EventView::Done(None) => self.complete(
                    seq![entry(Level::Info, "Successfully saved banner."@)],
                ),
                EventView::Done(Some(error)) => self.stop(Some(error)),
                _ => self.stop(Some(unexpected())),
            },
            PullStage::Finished => (self, step(Seq::empty(), ActionView::Finish(self.failure))),
        }
    }
}

impl Pull {
    /// A pull of the account of `user` into the profile stored under
    /// `profile_name`, about to begin.
    pub fn new(user: User<Authorized>, profile_name: &str) -> (pull: Pull)
        ensures
            pull@ == (PullView {
                user: user@,
                profile_name: profile_name@,
                stage: PullStage::Start,
                profile: None,
                banner_url: None,
                avatar: None,
                banner: None,
                failure: None,
            }),
    {
        Pull {
            user,
            profile_name: profile_name.to_owned(),
            stage: PullStage::Start,
            profile: None,
            banner_url: None,
            avatar: None,
            banner: None,
            failure: None,
        }
    }

    fn stop(self, failure: Option<Error>) -> (next: (Pull, Step))
        ensures
            (next.0@, next.1@) == self@.stop(failure.deep_view()),
    {
        let kept = copy_failure(&failure);
        (
            Pull { stage: PullStage::Finished, failure: kept, ..self },
            Step::quiet(Action::Finish(outcome(failure))),
        )
    }

    fn after_avatar(self, avatar: Option<Vec<u8>>) -> (next: (Pull, Step))
        ensures
            (next.0@, next.1@) == self@.after_avatar(picture(avatar)),
    {
        let url = copy_text(&self.banner_url);
        let held = Pull { avatar, ..self };
        match url {
            Some(url) => (
                Pull { stage: PullStage::DownloadingBanner, ..held },
                Step::quiet(Action::DownloadImage(url)),
            ),
            None => held.after_banner(None),
        }
    }

    fn after_banner(self, banner: Option<Vec<u8>>) -> (next: (Pull, Step))
        ensures
            (next.0@, next.1@) == self@.after_banner(picture(banner)),
    {
        let name = self.profile_name.clone();
        (
            Pull { stage: PullStage::LoadingPrevious, banner, ..self },
            Step::quiet(Action::LoadProfile(name)),
        )
    }

    fn store_avatar(self, logs: Vec<LogEntry>) -> (next: (Pull, Step))
        ensures
            (next.0@, next.1@) == self@.store_avatar(logs.deep_view()),
    {
        match &self.avatar {
            Some(bytes) => {
                let action = Action::SaveImage(self.profile_name.clone(), Asset::Avatar, bytes.clone());
                (Pull { stage: PullStage::SavingAvatar, ..self }, say(logs, action))
            },
            None => self.store_banner(logs),
        }
    }

    fn store_banner(self, logs: Vec<LogEntry>) -> (next: (Pull, Step))
        ensures
            (next.0@, next.1@) == self@.store_banner(logs.deep_view()),
    {
        match &self.banner {
            Some(bytes) => {
                let action = Action::SaveImage(self.profile_name.clone(), Asset::Banner, bytes.clone());
                (Pull { stage: PullStage::SavingBanner, ..self }, say(logs, action))
            },
            None => self.complete(logs),
        }
    }

    fn complete(self, logs: Vec<LogEntry>) -> (next: (Pull, Step))
        ensures
            (next.0@, next.1@) == self@.complete(logs.deep_view()),
    {
        let mut logs = logs;
        let ghost before = logs.deep_view();
        let last = LogEntry::info("Pulled successfully.");
        logs.push(last);
        assert(logs.deep_view() =~= before.push(last@));
        (
            Pull { stage: PullStage::Finished, failure: None, ..self },
            say(logs, Action::Finish(Ok(()))),
        )
    }

    fn opening(&self) -> (said: LogEntry)
        ensures
            said@ == self@.opening(),
    {
        let host = instance_host(self.user.address());
        LogEntry::new(
            Level::Info,
            String::from_str("Pulling ").concat(self.user.name()).concat("@").concat(
                host.as_str(),
            ).concat(" to local profile ").concat(self.profile_name.as_str()).concat("."),
        )
    }

    /// Takes `event`, what came of the step asked for last, at the instant
    /// `now`, and says what to log and to do next.
    pub fn step_at(self, event: Event, now: Timestamp) -> (next: (Pull, Step))
        ensures
            (next.0@, next.1@) == self@.next(event@, now),
    {
        match self.stage {
            PullStage::Start => {
                let said = self.opening();
                (Pull { stage: PullStage::FetchingSite, ..self }, Step::with(said, Action::GetSite))
            },
            PullStage::FetchingSite => match event {
                Event::Site(Ok(site)) => match &site.my_user {
                    Some(account) => {
                        let profile = Profile::at(self.user.clone(), &site, now);
                        let avatar_url = copy_text(&account.person.avatar);
                        let held = Pull {
                            profile: Some(profile),
                            banner_url: copy_text(&account.person.banner),
                            ..self
                        };
                        match avatar_url {
                            Some(url) => (
                                Pull { stage: PullStage::DownloadingAvatar, ..held },
                                Step::quiet(Action::DownloadImage(url)),
                            ),
                            None => held.after_avatar(None),
                        }
                    },
                    None => self.stop(
                        Some(
                            Error::BlissError(
                                String::from_str("The instance does not report the account"),
                            ),
                        ),
                    ),
                },
                Event::Site(Err(error)) => self.stop(Some(error)),
                _ => self.stop(Some(not_fitting())),
            },
            PullStage::DownloadingAvatar => match event {
                Event::Image(Ok(bytes)) => self.after_avatar(bytes),
                Event::Image(Err(error)) => self.stop(Some(error)),
                _ => self.stop(Some(not_fitting())),
            },
            PullStage::DownloadingBanner => match event {
                Event::Image(Ok(bytes)) => self.after_banner(bytes),
                Event::Image(Err(error)) => self.stop(Some(error)),
                _ => self.stop(Some(not_fitting())),
            },
            PullStage::LoadingPrevious => match event {
                Event::Loaded(loaded) => match &self.profile {
                    Some(profile) => {
                        let previous = match loaded {
                            Ok(before) => Some(before),
                            Err(_) => None,
                        };
                        let mut local = LocalProfile::new(self.profile_name.as_str(), profile.clone());
                        local.save_at(previous, now);
                        let kept = local.profile.clone();
                        (
                            Pull { stage: PullStage::SavingProfile, profile: Some(kept), ..self },
                            Step::quiet(Action::SaveProfile(local)),
                        )
                    },
                    None => self.stop(Some(not_fitting())),
                },
                _ => self.stop(Some(not_fitting())),
            },
            PullStage::SavingProfile => match event {
                Event::Done(Ok(_)) => self.store_avatar(
                    one(LogEntry::info("Successfully saved user profile.")),
                ),
                Event::Done(Err(error)) => self.stop(Some(error)),
                _ => self.stop(Some(not_fitting())),
            },
            PullStage::SavingAvatar => match event {
                Event::Done(Ok(_)) => self.store_banner(one(LogEntry::info("Successfully saved avatar."))),
                Event::Done(Err(error)) => self.stop(Some(error)),
                _ => self.stop(Some(not_fitting())),
            },
            PullStage::SavingBanner => match event {
                Event::Done(Ok(_)) => self.complete(one(LogEntry::info("Successfully saved banner."))),
                Event::Done(Err(error)) => self.stop(Some(error)),
                _ => self.stop(Some(not_fitting())),
            },
            PullStage::Finished => {
                let again = outcome(copy_failure(&self.failure));
                (self, Step::quiet(Action::Finish(again)))
            },
        }
    }

    /// Takes `event`, what came of the step asked for last, and says what
    /// to log and to do next. The instants that go into the profile are
    /// read from the clock: the step is the one that `PullView::next`
    /// gives for some instant.
    pub fn step(self, event: Event) -> (next: (Pull, Step))
        ensures
            exists|now: Timestamp| (next.0@, next.1@) == #[trigger] self@.next(event@, now),
    {
        self.step_at(event, now())
    }
}

/// The order of the stages of a pull.
pub open spec fn stage_rank(stage: PullStage) -> int {
    match stage {
        PullStage::Start => 0,
        PullStage::FetchingSite => 1,
        PullStage::DownloadingAvatar => 2,
        PullStage::DownloadingBanner => 3,
        PullStage::LoadingPrevious => 4,
        PullStage::SavingProfile => 5,
        PullStage::SavingAvatar => 6,
        PullStage::SavingBanner => 7,
        PullStage::Finished => 8,
    }
}

/// What one step of a pull can and cannot do.
///
/// A pull goes on to a later stage with every step but the ones after its
/// end. The profile is made when the instance has reported the account,
/// out of nothing but that report, the account's name and instance, and
/// the instant. It is kept as it is until it is written. What is written
/// is that profile saved over the one that was stored under the name, and
/// nothing is written before the profile: a picture only after it.
pub proof fn lemma_pull_step(pull: PullView, event: EventView, now: Timestamp)
    ensures
        ({
            let (after, asked) = pull.next(event, now);
            &&& after.user == pull.user
            &&& after.profile_name == pull.profile_name
            &&& (pull.stage != PullStage::Finished ==> stage_rank(after.stage) > stage_rank(pull.stage))
            &&& (asked.action is Finish <==> after.stage == PullStage::Finished)
            &&& (pull.stage == PullStage::FetchingSite && after.stage != PullStage::Finished ==> {
                &&& event matches EventView::Site(Ok(site))
                &&& site.my_user is Some
                &&& after.profile == Some(ProfileView::made(pull.user, site, now))
            })
            &&& (pull.stage != PullStage::FetchingSite && pull.stage != PullStage::LoadingPrevious
                ==> after.profile == pull.profile)
            &&& (asked.action matches ActionView::SaveProfile(local) ==> {
                &&& pull.stage == PullStage::LoadingPrevious
                &&& pull.profile matches Some(profile)
                &&& event matches EventView::Loaded(loaded)
                &&& local == (LocalProfileView { name: pull.profile_name, profile }).saved(
                    match loaded {
                        Ok(before) => Some(before),
                        Err(_) => None,
                    },
                    now,
                )
                &&& after.profile == Some(local.profile)
            })
            &&& (asked.action is SaveImage ==> stage_rank(pull.stage) >= 5)
        }),
{
}

} // verus!
