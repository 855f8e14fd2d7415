//! Replaying a stored profile onto an account.

use vstd::prelude::*;
use crate::bliss::error::{Error, ErrorView};
use crate::bliss::executor::{sleep_time, spec_sleep_time, Executor, ExecutorView, Stage};
use crate::bliss::plan::spec_push_info;
use crate::bliss::Bliss;
use crate::bliss::pull::unknown_account;
use crate::bliss::step::{
    copy_failure, not_fitting, one, outcome, say, step, unexpected, Action, ActionView, Asset, Event,
    EventView, Step, StepView,
};
use crate::bliss::util::{
    entry, instance_host, log_res, outcome_entry, spec_instance_host, Level, LogEntry, LogEntryView,
};
use crate::profile::{is_parameter, text_eq, Info, InfoView, Profile, ProfileView};
use crate::user::{Authorized, User, UserView};

verus! {

/// How far a push has come.
#[derive(Clone, Copy, Debug, PartialEq, Eq, Structural)]
pub enum PushStage {
    Start,
    Loading,
    ReadingImage,
    Uploading,
    SavingSettings,
    FetchingSite,
    Executing,
    Finished,
}

/// A push in progress: which profile is replayed onto whose account and
/// how, how far the push has come, and what it holds so far.
pub struct Push {
    pub user: User<Authorized>,
    pub profile_name: String,
    /// Whether relations that the profile lacks are dissolved.
    pub subtractive: bool,
    /// The names of the fields that are not replayed.
    pub exclude: Vec<String>,
    /// The names of the pictures that are uploaded.
    pub pictures: Vec<String>,
    pub stage: PushStage,
    pub profile: Option<Profile>,
    /// How many names of `pictures` have been dealt with.
    pub extra: usize,
    pub executor: Option<Executor>,
    pub failure: Option<Error>,
}

/// What a `Push` holds.
pub ghost struct PushView {
    pub user: UserView,
    pub profile_name: Seq<char>,
    pub subtractive: bool,
    pub exclude: Seq<Seq<char>>,
    pub pictures: Seq<Seq<char>>,
    pub stage: PushStage,
    pub profile: Option<ProfileView>,
    pub extra: int,
    pub executor: Option<ExecutorView>,
    pub failure: Option<ErrorView>,
}

impl DeepView for Push {
    type V = PushView;

    open spec fn deep_view(&self) -> PushView {
        PushView {
            user: self.user@,
            profile_name: self.profile_name@,
            subtractive: self.subtractive,
            exclude: self.exclude.deep_view(),
            pictures: self.pictures.deep_view(),
            stage: self.stage,
            profile: self.profile.deep_view(),
            extra: self.extra as int,
            executor: self.executor.deep_view(),
            failure: self.failure.deep_view(),
        }
    }
}

impl View for Push {
    type V = PushView;

    open spec fn view(&self) -> PushView {
        self.deep_view()
    }
}

/// The picture that a name asks to upload, if it names one.
pub open spec fn extra_asset(name: Seq<char>) -> Option<Asset> {
    if name == "avatar"@ {
        Some(Asset::Avatar)
    } else if name == "banner"@ {
        Some(Asset::Banner)
    } else {
        None
    }
}

/// What is said of one name in the list of fields to leave out: that the
/// field is left out, and, where there is no such field, a warning.
pub open spec fn ignore_note(name: Seq<char>) -> Seq<LogEntryView> {
    let noted = entry(Level::Info, "Ignoring parameter \""@ + name + "\"..."@);
    if is_parameter(name) {
        seq![noted]
    } else {
        seq![noted, entry(Level::Warn, "Unknown parameter \""@ + name + "\". Skipping."@)]
    }
}

/// What is said of the names in the list of fields to leave out, name by
/// name.
pub open spec fn ignore_report(names: Seq<Seq<char>>) -> Seq<LogEntryView>
    decreases names.len(),
{
    if names.len() == 0 {
        Seq::empty()
    } else {
        ignore_report(names.drop_last()) + ignore_note(names.last())
    }
}

/// `profile` with the address `url` in the place of the picture `asset`.
pub open spec fn with_picture(profile: ProfileView, asset: Asset, url: Option<Seq<char>>) -> ProfileView {
    match asset {
        Asset::Avatar => ProfileView { info: InfoView { avatar: url, ..profile.info }, ..profile },
        Asset::Banner => ProfileView { info: InfoView { banner: url, ..profile.info }, ..profile },
    }
}

impl PushView {
    /// The message that opens a push.
    pub open spec fn opening(self) -> LogEntryView {
        entry(
            Level::Info,
            "Pushing "@ + self.user.username + "@"@ + spec_instance_host(self.user.instance)
                + " from local profile "@ + self.profile_name,
        )
    }

    /// Ends the push, well or with `failure`.
    pub open spec fn stop(self, failure: Option<ErrorView>) -> (PushView, StepView) {
        (
            PushView { stage: PushStage::Finished, failure, ..self },
            step(Seq::empty(), ActionView::Finish(failure)),
        )
    }

    /// Takes up the names of pictures to upload from the one at `extra`
    /// on: asks for the stored picture of the first that names one, with a
    /// warning for each name before it that names none. With no name left,
    /// the settings of `profile` are sent. `logs` is what there is to say
    /// so far.
    pub open spec fn extras(self, profile: ProfileView, logs: Seq<LogEntryView>) -> (PushView, StepView)
        decreases self.pictures.len() - self.extra,
    {
        if self.extra < 0 || self.extra >= self.pictures.len() {
            (
                PushView { stage: PushStage::SavingSettings, profile: Some(profile), ..self },
                step(
                    logs.push(entry(Level::Info, "Uploading settings..."@)),
                    ActionView::SaveUserSettings(profile),
                ),
            )
        } else {
            let name = self.pictures[self.extra];
            match extra_asset(name) {
                Some(asset) => (
                    PushView { stage: PushStage::ReadingImage, profile: Some(profile), ..self },
                    step(logs, ActionView::LoadImage(self.profile_name, asset)),
                ),
                None => (PushView { extra: self.extra + 1, ..self }).extras(
                    profile,
                    logs.push(entry(Level::Warn, "No parameter "@ + name + " found."@)),
                ),
            }
        }
    }

    /// The picture that is being uploaded.
    pub open spec fn asset(self) -> Option<Asset> {
        if 0 <= self.extra < self.pictures.len() {
            extra_asset(self.pictures[self.extra])
        } else {
            None
        }
    }

    /// Goes on once a picture is dealt with: its place in `profile` takes
    /// the address `url`, and the next name is taken up.
    pub open spec fn extra_done(
        self,
        profile: ProfileView,
        asset: Asset,
        url: Option<Seq<char>>,
        said: LogEntryView,
    ) -> (PushView, StepView) {
        (PushView { extra: self.extra + 1, ..self }).extras(with_picture(profile, asset, url), seq![said])
    }

    /// Passes on what the executor asks for; when the executor is through,
    /// the push ends well.
    pub open spec fn forward(self, ran: (ExecutorView, StepView)) -> (PushView, StepView) {
        match ran.1.action {
            ActionView::Finish(_) => (
                PushView {
                    stage: PushStage::Finished,
                    executor: Some(ran.0),
                    failure: None,
                    ..self
                },
                step(
                    ran.1.logs.push(entry(Level::Info, "Pushed successfully."@)),
                    ActionView::Finish(None),
                ),
            ),
            _ => (PushView { stage: PushStage::Executing, executor: Some(ran.0), ..self }, ran.1),
        }
    }

    /// The push after `event`, and the step it asks for.
    ///
    /// A push reads the stored profile, empties the fields that are to be
    /// left out, uploads the pictures that are asked for and puts their
    /// addresses into the profile, sends the settings of the profile, asks
    /// the destination for the account's relations, and then makes the
    /// changes that its plan holds, one by one. A profile that cannot be
    /// read, settings that are refused and a destination that does not
    /// answer end the push, and so does an answer of the wrong sort. A
    /// picture that is missing or cannot be uploaded is passed over with a
    /// warning; a change that fails is logged by the executor.
    pub open spec fn next(self, event: EventView) -> (PushView, StepView) {
        match self.stage {
            PushStage::Start => (
                PushView { stage: PushStage::Loading, ..self },
                step(seq![self.opening()], ActionView::LoadProfile(self.profile_name)),
            ),
            PushStage::Loading => match event {
                EventView::Loaded(Ok(profile)) => (PushView { extra: 0, ..self }).extras(
                    profile.ignoring(self.exclude),
                    ignore_report(self.exclude),
                ),
                EventView::Loaded(Err(error)) => self.stop(Some(error)),
                _ => self.stop(Some(unexpected())),
            },
            PushStage::ReadingImage => match (event, self.profile, self.asset()) {
                (EventView::Image(Ok(Some(bytes))), Some(_), Some(asset)) => (
                    PushView { stage: PushStage::Uploading, ..self },
                    step(
                        seq![entry(Level::Info, "Uploading "@ + asset.spec_name() + "..."@)],
                        ActionView::UploadImage(bytes),
                    ),
                ),
                (EventView::Image(Ok(None)), Some(profile), Some(asset)) => self.extra_done(
                    profile,
                    asset,
                    None,
                    entry(Level::Warn, "No "@ + asset.spec_name() + " found."@),
                ),
                (EventView::Image(Err(error)), _, _) => self.stop(Some(error)),
                _ => self.stop(Some(unexpected())),
            },
            PushStage::Uploading => match (event, self.profile, self.asset()) {
                (EventView::Uploaded(Ok(Some(url))), Some(profile), Some(asset)) => self.extra_done(
                    profile,
                    asset,
                    Some(url),
                    entry(Level::Info, "Success."@),
                ),
                (EventView::Uploaded(Ok(None)), Some(profile), Some(asset)) => self.extra_done(
                    profile,
                    asset,
                    None,
                    entry(Level::Warn, "Fail."@),
                ),
                (EventView::Uploaded(Err(error)), Some(profile), Some(asset)) => self.extra_done(
                    profile,
                    asset,
                    None,
                    outcome_entry(Some(error), Level::Warn),
                ),
                _ => self.stop(Some(unexpected())),
            },
            PushStage::SavingSettings => match event {
                EventView::Done(None) => (
                    PushView { stage: PushStage::FetchingSite, ..self },
                    step(
                        seq![entry(Level::Info, "Successfully uploaded settings."@)],
                        ActionView::GetSite,
                    ),
                ),
                EventView::Done(Some(error)) => self.stop(Some(error)),
                _ => self.stop(Some(unexpected())),
            },
            PushStage::FetchingSite => match (event, self.profile) {
                (EventView::Site(Ok(site)), Some(profile)) => match site.my_user {
                    Some(account) => {
                        let executor = ExecutorView {
                            queue: spec_push_info(
                                profile.info,
                                InfoView::of_account(account),
                                self.subtractive,
                            ),
                            position: 0,
                            stage: Stage::Ready,
                            sleep_time: spec_sleep_time(site.message_per_second),
                        };
                        self.forward(executor.next(EventView::Start))
                    },
                    None => self.stop(Some(unknown_account())),
                },
                (EventView::Site(Err(error)), _) => self.stop(Some(error)),
                _ => self.stop(Some(unexpected())),
            },
            PushStage::Executing => match self.executor {
                Some(executor) => self.forward(executor.next(event)),
                None => self.stop(Some(unexpected())),
            },
            PushStage::Finished => (self, step(Seq::empty(), ActionView::Finish(self.failure))),
        }
    }
}

/// A copy of a list of names.
pub fn copy_names(names: &[String]) -> (copy: Vec<String>)
    ensures
        copy.deep_view() == names.deep_view(),
{
    let mut copy: Vec<String> = Vec::new();
    let mut i: usize = 0;
    while i < names.len()
        invariant
            i <= names.len(),
            copy.deep_view() == names.deep_view().take(i as int),
        decreases names.len() - i,
    {
        let ghost before = copy.deep_view();
        copy.push(names[i].clone());
        assert(copy.deep_view() =~= before.push(names[i as int]@));
        assert(copy.deep_view() =~= names.deep_view().take(i + 1));
        i += 1;
    }
    assert(names.deep_view().take(names.len() as int) =~= names.deep_view());
    copy
}

/// Tells whether `name` is the name of a field that can be left out.
pub fn names_parameter(name: &str) -> (known: bool)
    ensures
        known == is_parameter(name@),
{
    text_eq(name, "email") || text_eq(name, "matrix_user_id") || text_eq(name, "bio") || text_eq(
        name,
        "display_name",
    ) || text_eq(name, "avatar") || text_eq(name, "banner")
}

/// Says, name by name, which fields are left out, with a warning for each
/// name that is the name of no field.
pub fn report_ignored(names: &Vec<String>) -> (logs: Vec<LogEntry>)
    ensures
        logs.deep_view() == ignore_report(names.deep_view()),
{
    let mut logs: Vec<LogEntry> = Vec::new();
    let mut i: usize = 0;
    assert(logs.deep_view() =~= Seq::<LogEntryView>::empty());
    assert(names.deep_view().take(0) =~= Seq::<Seq<char>>::empty());
    while i < names.len()
        invariant
            i <= names.len(),
            logs.deep_view() == ignore_report(names.deep_view().take(i as int)),
        decreases names.len() - i,
    {
        let ghost before = logs.deep_view();
        let name = names[i].as_str();
        proof {
            let next = names.deep_view().take(i + 1);
            assert(next.drop_last() =~= names.deep_view().take(i as int));
            assert(next.last() == name@);
        }
        let noted = LogEntry::new(
            Level::Info,
            String::from_str("Ignoring parameter \"").concat(name).concat("\"..."),
        );
        logs.push(noted);
        assert(logs.deep_view() =~= before.push(noted@));
        if !names_parameter(name) {
            let warned = LogEntry::new(
                Level::Warn,
                String::from_str("Unknown parameter \"").concat(name).concat("\". Skipping."),
            );
            logs.push(warned);
            assert(logs.deep_view() =~= before + seq![noted@, warned@]);
        } else {
            assert(logs.deep_view() =~= before + seq![noted@]);
        }
        i += 1;
    }
    assert(names.deep_view().take(names.len() as int) =~= names.deep_view());
    logs
}

/// Puts the address `url` into `profile` in the place of the picture
/// `asset`.
pub fn set_picture(profile: Profile, asset: Asset, url: Option<String>) -> (changed: Profile)
    ensures
        changed@ == with_picture(profile@, asset, url.deep_view()),
{
    let mut changed = profile;
    match asset {
        Asset::Avatar => {
            changed.info.avatar = url;
        },
        Asset::Banner => {
            changed.info.banner = url;
        },
    }
    changed
}

/// Tells which picture `name` asks to upload, if it names one.
pub fn asset_named(name: &str) -> (asset: Option<Asset>)
    ensures
        asset == extra_asset(name@),
{
    if text_eq(name, "avatar") {
        Some(Asset::Avatar)
    } else if text_eq(name, "banner") {
        Some(Asset::Banner)
    } else {
        None
    }
}

impl Push {
    /// A push of the profile stored under `profile_name` onto the account
    /// of `user`, about to begin. With `subtractive`, relations of the
    /// account that the profile lacks are dissolved. The fields named in
    /// `exclude` are not replayed; the pictures named in `pictures` are
    /// uploaded.
    pub fn new(
        user: User<Authorized>,
        profile_name: &str,
        subtractive: bool,
        exclude: &[String],
        pictures: &[String],
    ) -> (push: Push)
        ensures
            push@ == (PushView {
                user: user@,
                profile_name: profile_name@,
                subtractive,
                exclude: exclude.deep_view(),
                pictures: pictures.deep_view(),
                stage: PushStage::Start,
                profile: None,
                extra: 0,
                executor: None,
                failure: None,
            }),
    {
        Push {
            user,
            profile_name: profile_name.to_owned(),
            subtractive,
            exclude: copy_names(exclude),
            pictures: copy_names(pictures),
            stage: PushStage::Start,
            profile: None,
            extra: 0,
            executor: None,
            failure: None,
        }
    }

    fn stop(self, failure: Option<Error>) -> (next: (Push, Step))
        ensures
            (next.0@, next.1@) == self@.stop(failure.deep_view()),
    {
        let kept = copy_failure(&failure);
        (
            Push { stage: PushStage::Finished, failure: kept, ..self },
            Step::quiet(Action::Finish(outcome(failure))),
        )
    }

    fn opening(&self) -> (said: LogEntry)
        ensures
            said@ == self@.opening(),
    {
        let host = instance_host(self.user.address());
        LogEntry::new(
            Level::Info,
            String::from_str("Pushing ").concat(self.user.name()).concat("@").concat(
                host.as_str(),
            ).concat(" from local profile ").concat(self.profile_name.as_str()),
        )
    }

    fn extras(self, profile: Profile, logs: Vec<LogEntry>) -> (next: (Push, Step))
        ensures
            (next.0@, next.1@) == self@.extras(profile@, logs.deep_view()),
    {
        let ghost start = self@;
        let ghost said = logs.deep_view();
        let mut this = self;
        let mut lines = logs;
        while this.extra < this.pictures.len()
            invariant
                start == self@,
                said == logs.deep_view(),
                (PushView { extra: this@.extra, ..start }) == this@,
                this@.extras(profile@, lines.deep_view()) == start.extras(profile@, said),
            decreases this.pictures.len() - this.extra,
        {
            let ghost before = lines.deep_view();
            assert(this@.pictures[this.extra as int] == this.pictures[this.extra as int]@);
            let name = this.pictures[this.extra].as_str();
            match asset_named(name) {
                Some(asset) => {
                    let action = Action::LoadImage(this.profile_name.clone(), asset);
                    let asked = say(lines, action);
                    let waiting = Push { stage: PushStage::ReadingImage, profile: Some(profile), ..this };
                    assert((waiting@, asked@) == this@.extras(profile@, before));
                    return (waiting, asked);
                },
                None => {
                    let warned = LogEntry::new(
                        Level::Warn,
                        String::from_str("No parameter ").concat(name).concat(" found."),
                    );
                    lines.push(warned);
                    assert(lines.deep_view() =~= before.push(warned@));
                    this.extra = this.extra + 1;
                },
            }
        }
        let ghost before = lines.deep_view();
        let last = LogEntry::info("Uploading settings...");
        lines.push(last);
        assert(lines.deep_view() =~= before.push(last@));
        let action = Action::SaveUserSettings(profile.clone());
        (Push { stage: PushStage::SavingSettings, profile: Some(profile), ..this }, say(lines, action))
    }

    fn held(&self) -> (profile: Option<Profile>)
        ensures
            profile.deep_view() == self@.profile,
    {
        match &self.profile {
            Some(profile) => Some(profile.clone()),
            None => None,
        }
    }

    fn asset(&self) -> (asset: Option<Asset>)
        ensures
            asset == self@.asset(),
    {
        if self.extra < self.pictures.len() {
            assert(self@.pictures[self.extra as int] == self.pictures[self.extra as int]@);
            asset_named(self.pictures[self.extra].as_str())
        } else {
            None
        }
    }

    fn extra_done(self, profile: Profile, asset: Asset, url: Option<String>, said: LogEntry) -> (next: (
        Push,
        Step,
    ))
        requires
            self.extra < self.pictures.len(),
        ensures
            (next.0@, next.1@) == self@.extra_done(profile@, asset, url.deep_view(), said@),
    {
        let moved = Push { extra: self.extra + 1, ..self };
        moved.extras(set_picture(profile, asset, url), one(said))
    }

    fn forward(self, ran: (Executor, Step)) -> (next: (Push, Step))
        ensures
            (next.0@, next.1@) == self@.forward((ran.0@, ran.1@)),
    {
        let (executor, asked) = ran;
        match asked.action {
            Action::Finish(_) => {
                let mut logs = asked.logs;
                let ghost before = logs.deep_view();
                let last = LogEntry::info("Pushed successfully.");
                logs.push(last);
                assert(logs.deep_view() =~= before.push(last@));
                (
                    Push {
                        stage: PushStage::Finished,
                        executor: Some(executor),
                        failure: None,
                        ..self
                    },
                    say(logs, Action::Finish(Ok(()))),
                )
            },
            _ => (Push { stage: PushStage::Executing, executor: Some(executor), ..self }, asked),
        }
    }

    fn on_loading(self, event: Event) -> (next: (Push, Step))
        requires
            self.stage == PushStage::Loading,
        ensures
            (next.0@, next.1@) == self@.next(event@),
    {
        match event {
            Event::Loaded(Ok(profile)) => {
                let logs = report_ignored(&self.exclude);
                let profile = profile.ignore_parameters(self.exclude.as_slice());
                let ready = Push { extra: 0, ..self };
                ready.extras(profile, logs)
            },
            Event::Loaded(Err(error)) => self.stop(Some(error)),
            _ => self.stop(Some(not_fitting())),
        }
    }

    fn on_reading(self, event: Event) -> (next: (Push, Step))
        requires
            self.stage == PushStage::ReadingImage,
        ensures
            (next.0@, next.1@) == self@.next(event@),
    {
        let asset = self.asset();
        let held = self.held();
        match event {
            Event::Image(Ok(Some(bytes))) => match (held, asset) {
                (Some(_), Some(asset)) => {
                    let said = LogEntry::new(
                        Level::Info,
                        String::from_str("Uploading ").concat(asset.name()).concat("..."),
                    );
                    (
                        Push { stage: PushStage::Uploading, ..self },
                        Step::with(said, Action::UploadImage(bytes)),
                    )
                },
                _ => self.stop(Some(not_fitting())),
            },
            Event::Image(Ok(None)) => match (held, asset) {
                (Some(profile), Some(asset)) => {
                    let said = LogEntry::new(
                        Level::Warn,
                        String::from_str("No ").concat(asset.name()).concat(" found."),
                    );
                    self.extra_done(profile, asset, None, said)
                },
                _ => self.stop(Some(not_fitting())),
            },
            Event::Image(Err(error)) => self.stop(Some(error)),
            _ => self.stop(Some(not_fitting())),
        }
    }

    fn on_uploading(self, event: Event) -> (next: (Push, Step))
        requires
            self.stage == PushStage::Uploading,
        ensures
            (next.0@, next.1@) == self@.next(event@),
    {
        let asset = self.asset();
        let held = self.held();
        match (event, held, asset) {
            (Event::Uploaded(uploaded), Some(profile), Some(asset)) => match uploaded {
                Ok(Some(url)) => self.extra_done(profile, asset, Some(url), LogEntry::info("Success.")),
                Ok(None) => self.extra_done(profile, asset, None, LogEntry::warn("Fail.")),
                Err(error) => {
                    let failed: Result<(), Error> = Err(error);
                    let said = log_res(&failed);
                    self.extra_done(profile, asset, None, said)
                },
            },
            _ => self.stop(Some(not_fitting())),
        }
    }

    fn on_saving(self, event: Event) -> (next: (Push, Step))
        requires
            self.stage == PushStage::SavingSettings,
        ensures
            (next.0@, next.1@) == self@.next(event@),
    {
        match event {
            Event::Done(Ok(_)) => (
                Push { stage: PushStage::FetchingSite, ..self },
                Step::with(LogEntry::info("Successfully uploaded settings."), Action::GetSite),
            ),
            Event::Done(Err(error)) => self.stop(Some(error)),
            _ => self.stop(Some(not_fitting())),
        }
    }

    fn on_fetching(self, event: Event) -> (next: (Push, Step))
        requires
            self.stage == PushStage::FetchingSite,
        ensures
            (next.0@, next.1@) == self@.next(event@),
    {
        match event {
            Event::Site(Ok(site)) => match &self.profile {
                Some(profile) => {
                    if site.my_user.is_some() {
                        let dst_info = Info::new(&site);
                        let queue = Bliss::push_info(&profile.info, &dst_info, self.subtractive);
                        let executor = Executor::new(queue, sleep_time(site.message_per_second));
                        let ran = executor.step(Event::Start);
                        self.forward(ran)
                    } else {
                        self.stop(
                            Some(
                                Error::BlissError(
                                    String::from_str("The instance does not report the account"),
                                ),
                            ),
                        )
                    }
                },
                None => self.stop(Some(not_fitting())),
            },
            Event::Site(Err(error)) => self.stop(Some(error)),
            _ => self.stop(Some(not_fitting())),
        }
    }

    fn on_executing(self, event: Event) -> (next: (Push, Step))
        requires
            self.stage == PushStage::Executing,
        ensures
            (next.0@, next.1@) == self@.next(event@),
    {
        let executor = self.executor;
        let rest = Push { executor: None, ..self };
        match executor {
            Some(executor) => {
                let ran = executor.step(event);
                rest.forward(ran)
            },
            None => rest.stop(Some(not_fitting())),
        }
    }

    /// Takes `event`, what came of the step asked for last, and says what
    /// to log and to do next.
    pub fn step(self, event: Event) -> (next: (Push, Step))
        ensures
            (next.0@, next.1@) == self@.next(event@),
    {
        match self.stage {
            PushStage::Start => {
                let said = self.opening();
                let action = Action::LoadProfile(self.profile_name.clone());
                (Push { stage: PushStage::Loading, ..self }, Step::with(said, action))
            },
            PushStage::Loading => self.on_loading(event),
            PushStage::ReadingImage => self.on_reading(event),
            PushStage::Uploading => self.on_uploading(event),
            PushStage::SavingSettings => self.on_saving(event),
            PushStage::FetchingSite => self.on_fetching(event),
            PushStage::Executing => self.on_executing(event),
            PushStage::Finished => {
                let again = outcome(copy_failure(&self.failure));
                (self, Step::quiet(Action::Finish(again)))
            },
        }
    }
}

/// The order of the stages of a push.
pub open spec fn stage_rank(stage: PushStage) -> int {
    match stage {
        PushStage::Start => 0,
        PushStage::Loading => 1,
        PushStage::ReadingImage => 2,
        PushStage::Uploading => 2,
        PushStage::SavingSettings => 3,
        PushStage::FetchingSite => 4,
        PushStage::Executing => 5,
        PushStage::Finished => 6,
    }
}

/// Taking up the pictures ends in asking for a stored picture or in
/// sending the settings of the profile as it stands then.
pub proof fn lemma_extras(push: PushView, profile: ProfileView, logs: Seq<LogEntryView>)
    ensures
        ({
            let (after, asked) = push.extras(profile, logs);
            &&& after.profile == Some(profile)
            &&& after.subtractive == push.subtractive
            &&& (after.stage == PushStage::ReadingImage && asked.action is LoadImage) || (after.stage
                == PushStage::SavingSettings && asked.action == ActionView::SaveUserSettings(profile))
        }),
    decreases push.pictures.len() - push.extra,
{
    if 0 <= push.extra < push.pictures.len() {
        let name = push.pictures[push.extra];
        if extra_asset(name) is None {
            lemma_extras(
                PushView { extra: push.extra + 1, ..push },
                profile,
                logs.push(entry(Level::Warn, "No parameter "@ + name + " found."@)),
            );
        }
    }
}

/// What one step of a push can and cannot do.
///
/// A push never falls back to an earlier stage. The settings are sent on
/// entering `PushStage::SavingSettings` and at no other time, so they are
/// sent at most once; what is sent is the profile that the push holds then.
/// A relation is changed only after that, while the executor runs. Whether
/// the push dissolves relations is fixed from the start.
pub proof fn lemma_push_step(push: PushView, event: EventView)
    ensures
        ({
            let (after, asked) = push.next(event);
            &&& stage_rank(after.stage) >= stage_rank(push.stage)
            &&& after.subtractive == push.subtractive
            &&& (asked.action is SaveUserSettings ==> after.stage == PushStage::SavingSettings
                && stage_rank(push.stage) < 3 && after.profile == Some(asked.action->SaveUserSettings_0))
            &&& (crate::bliss::executor::changes_relation(asked.action) ==> stage_rank(push.stage) >= 4
                && after.stage == PushStage::Executing)
            &&& (asked.action is Finish <==> after.stage == PushStage::Finished)
        }),
{
    let (after, asked) = push.next(event);
    match push.stage {
        PushStage::Loading => {
            if let EventView::Loaded(Ok(profile)) = event {
                lemma_extras(
                    PushView { extra: 0, ..push },
                    profile.ignoring(push.exclude),
                    ignore_report(push.exclude),
                );
            }
        },
        PushStage::ReadingImage => {
            if let (EventView::Image(Ok(None)), Some(profile), Some(asset)) = (
                event,
                push.profile,
                push.asset(),
            ) {
                lemma_extras(
                    PushView { extra: push.extra + 1, ..push },
                    with_picture(profile, asset, None),
                    seq![entry(Level::Warn, "No "@ + asset.spec_name() + " found."@)],
                );
            }
        },
        PushStage::Uploading => {
            if let (EventView::Uploaded(uploaded), Some(profile), Some(asset)) = (
                event,
                push.profile,
                push.asset(),
            ) {
                match uploaded {
                    Ok(Some(url)) => lemma_extras(
                        PushView { extra: push.extra + 1, ..push },
                        with_picture(profile, asset, Some(url)),
                        seq![entry(Level::Info, "Success."@)],
                    ),
                    Ok(None) => lemma_extras(
                        PushView { extra: push.extra + 1, ..push },
                        with_picture(profile, asset, None),
                        seq![entry(Level::Warn, "Fail."@)],
                    ),
                    Err(error) => lemma_extras(
                        PushView { extra: push.extra + 1, ..push },
                        with_picture(profile, asset, None),
                        seq![outcome_entry(Some(error), Level::Warn)],
                    ),
                }
            }
        },
        PushStage::FetchingSite => {
            if let (EventView::Site(Ok(site)), Some(profile)) = (event, push.profile) {
                if let Some(account) = site.my_user {
                    let executor = ExecutorView {
                        queue: spec_push_info(profile.info, InfoView::of_account(account), push.subtractive),
                        position: 0,
                        stage: Stage::Ready,
                        sleep_time: spec_sleep_time(site.message_per_second),
                    };
                    crate::bliss::executor::lemma_executor_step(executor, EventView::Start);
                }
            }
        },
        PushStage::Executing => {
            if let Some(executor) = push.executor {
                crate::bliss::executor::lemma_executor_step(executor, event);
            }
        },
        _ => {},
    }
}

/// A second push without removals changes nothing. Where a first push of
/// the profile without removals has made all its changes, and the
/// destination then reports the relations that these have left it with, in
/// whatever order, the second push ends as soon as it has that report: it
/// asks for no search, no change and no pause.
pub proof fn lemma_second_push_changes_nothing(
    push: PushView,
    before: InfoView,
    site: crate::lemmy::site::GetSiteResponseView,
)
    requires
        push.stage == PushStage::FetchingSite,
        !push.subtractive,
        push.profile is Some,
        site.my_user is Some,
        InfoView::of_account(site.my_user->0).relations() == crate::bliss::plan::run(
            before.relations(),
            spec_push_info(push.profile->0.info, before, false),
        ),
    ensures
        push.next(EventView::Site(Ok(site))).0.stage == PushStage::Finished,
        push.next(EventView::Site(Ok(site))).1.action == ActionView::Finish(None),
{
    let info = push.profile->0.info;
    let after = InfoView::of_account(site.my_user->0);
    crate::bliss::plan::lemma_second_push_is_empty(info, before, after);
}

} // verus!
