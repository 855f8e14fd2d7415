//! What an operation asks of its caller, and what the caller answers.
//!
//! A pull or a push is run by its caller step by step: the operation says
//! what is to be done next, the caller does it (a remote call, a read or
//! write of the store, a pause) and reports what came of it.

use vstd::prelude::*;
use crate::bliss::error::{Error, ErrorView};
use crate::bliss::util::{failure_of, LogEntry, LogEntryView};
use crate::lemmy::site::{
    CommunityRecord, GetSiteResponse, GetSiteResponseView, PersonRecord, PersonRecordView,
};
use crate::profile::community::Community;
use crate::profile::local_profile::{
    LocalProfile, LocalProfileView, AVATAR_FILENAME, BANNER_FILENAME,
};
use crate::profile::person::Person;
use crate::profile::relation::Entity;
use crate::profile::{Profile, ProfileView};

verus! {

/// A picture that is stored beside a profile.
#[derive(Clone, Copy, Debug, PartialEq, Eq, Structural)]
pub enum Asset {
    Avatar,
    Banner,
}

impl Asset {
    /// How messages call the picture.
    pub open spec fn spec_name(self) -> Seq<char> {
        match self {
            Asset::Avatar => "avatar"@,
            Asset::Banner => "banner"@,
        }
    }

    /// The name of the file that holds the picture.
    pub open spec fn spec_filename(self) -> Seq<char> {
        match self {
            Asset::Avatar => "avatar.png"@,
            Asset::Banner => "banner.png"@,
        }
    }

    /// How messages call the picture.
    pub fn name(&self) -> (name: &'static str)
        ensures
            name@ == self.spec_name(),
    {
        match self {
            Asset::Avatar => "avatar",
            Asset::Banner => "banner",
        }
    }

    /// The name of the file that holds the picture.
    pub fn filename(&self) -> (name: &'static str)
        ensures
            name@ == self.spec_filename(),
    {
        match self {
            Asset::Avatar => AVATAR_FILENAME,
            Asset::Banner => BANNER_FILENAME,
        }
    }
}

/// What the caller is to do next.
#[derive(Debug)]
pub enum Action {
    /// Ask the instance for its state and that of the account.
    GetSite,
    /// Search the instance for communities by the name of this one.
    SearchCommunity(Community),
    /// Search the instance for people by the name of this one.
    SearchPerson(Person),
    /// Follow the community with this handle, or stop following it.
    FollowCommunity { id: i32, follow: bool },
    /// Block the community with this handle, or lift the block.
    BlockCommunity { id: i32, block: bool },
    /// Block the person with this handle, or lift the block.
    BlockPerson { id: i32, block: bool },
    /// Set the preferences and public texts of the account to those of
    /// this profile.
    SaveUserSettings(Profile),
    /// Upload this picture to the instance.
    UploadImage(Vec<u8>),
    /// Fetch the picture at this address.
    DownloadImage(String),
    /// Read the profile stored under this name.
    LoadProfile(String),
    /// Write this profile under its name.
    SaveProfile(LocalProfile),
    /// Read a picture stored beside the profile of this name.
    LoadImage(String, Asset),
    /// Write a picture beside the profile of this name.
    SaveImage(String, Asset, Vec<u8>),
    /// Wait this many milliseconds.
    Sleep(u64),
    /// Stop: the operation has ended, well or with this failure.
    Finish(Result<(), Error>),
}

/// What an `Action` holds.
pub ghost enum ActionView {
    GetSite,
    SearchCommunity(Entity),
    SearchPerson(Entity),
    FollowCommunity { id: i32, follow: bool },
    BlockCommunity { id: i32, block: bool },
    BlockPerson { id: i32, block: bool },
    SaveUserSettings(ProfileView),
    UploadImage(Seq<u8>),
    DownloadImage(Seq<char>),
    LoadProfile(Seq<char>),
    SaveProfile(LocalProfileView),
    LoadImage(Seq<char>, Asset),
    SaveImage(Seq<char>, Asset, Seq<u8>),
    Sleep(u64),
    Finish(Option<ErrorView>),
}

/// What an answer holds.
pub open spec fn answer<T: DeepView>(result: Result<T, Error>) -> Result<T::V, ErrorView> {
    match result {
        Ok(value) => Ok(value.deep_view()),
        Err(error) => Err(error@),
    }
}

impl DeepView for Action {
    type V = ActionView;

    open spec fn deep_view(&self) -> ActionView {
        match self {
            Action::GetSite => ActionView::GetSite,
            Action::SearchCommunity(c) => ActionView::SearchCommunity(c@),
            Action::SearchPerson(p) => ActionView::SearchPerson(p@),
            Action::FollowCommunity { id, follow } => ActionView::FollowCommunity {
                id: *id,
                follow: *follow,
            },
            Action::BlockCommunity { id, block } => ActionView::BlockCommunity { id: *id, block: *block },
            Action::BlockPerson { id, block } => ActionView::BlockPerson { id: *id, block: *block },
            Action::SaveUserSettings(profile) => ActionView::SaveUserSettings(profile@),
            Action::UploadImage(bytes) => ActionView::UploadImage(bytes@),
            Action::DownloadImage(url) => ActionView::DownloadImage(url@),
            Action::LoadProfile(name) => ActionView::LoadProfile(name@),
            Action::SaveProfile(local) => ActionView::SaveProfile(local@),
            Action::LoadImage(name, asset) => ActionView::LoadImage(name@, *asset),
            Action::SaveImage(name, asset, bytes) => ActionView::SaveImage(name@, *asset, bytes@),
            Action::Sleep(time) => ActionView::Sleep(*time),
            Action::Finish(result) => ActionView::Finish(failure_of(*result)),
        }
    }
}

impl View for Action {
    type V = ActionView;

    open spec fn view(&self) -> ActionView {
        self.deep_view()
    }
}

/// What came of the action that the caller was asked for.
#[derive(Debug)]
pub enum Event {
    /// Nothing was asked yet: the operation begins.
    Start,
    /// The answer to `Action::GetSite`.
    Site(Result<GetSiteResponse, Error>),
    /// The answer to `Action::SearchCommunity`.
    Communities(Result<Vec<CommunityRecord>, Error>),
    /// The answer to `Action::SearchPerson`.
    People(Result<Vec<PersonRecord>, Error>),
    /// The outcome of an action that answers with nothing but success or
    /// failure: a change of a relation, of the settings, or a write.
    Done(Result<(), Error>),
    /// The answer to `Action::UploadImage`: the address of the uploaded
    /// picture, if the instance gave one.
    Uploaded(Result<Option<String>, Error>),
    /// The answer to `Action::DownloadImage` or `Action::LoadImage`: the
    /// picture, if there is one.
    Image(Result<Option<Vec<u8>>, Error>),
    /// The answer to `Action::LoadProfile`.
    Loaded(Result<Profile, Error>),
    /// The pause asked for by `Action::Sleep` is over.
    Slept,
}

/// What an `Event` holds.
pub ghost enum EventView {
    Start,
    Site(Result<GetSiteResponseView, ErrorView>),
    Communities(Result<Seq<Entity>, ErrorView>),
    People(Result<Seq<PersonRecordView>, ErrorView>),
    Done(Option<ErrorView>),
    Uploaded(Result<Option<Seq<char>>, ErrorView>),
    Image(Result<Option<Seq<u8>>, ErrorView>),
    Loaded(Result<ProfileView, ErrorView>),
    Slept,
}

impl DeepView for Event {
    type V = EventView;

    open spec fn deep_view(&self) -> EventView {
        match self {
            Event::Start => EventView::Start,
            Event::Site(result) => EventView::Site(answer(*result)),
            Event::Communities(result) => EventView::Communities(answer(*result)),
            Event::People(result) => EventView::People(answer(*result)),
            Event::Done(result) => EventView::Done(failure_of(*result)),
            Event::Uploaded(result) => EventView::Uploaded(answer(*result)),
            Event::Image(result) => EventView::Image(
                match result {
                    Ok(Some(bytes)) => Ok(Some(bytes@)),
                    Ok(None) => Ok(None),
                    Err(error) => Err(error@),
                },
            ),
            Event::Loaded(result) => EventView::Loaded(answer(*result)),
            Event::Slept => EventView::Slept,
        }
    }
}

impl View for Event {
    type V = EventView;

    open spec fn view(&self) -> EventView {
        self.deep_view()
    }
}

/// One step of an operation: the messages to log, then what to do next.
#[derive(Debug)]
pub struct Step {
    pub logs: Vec<LogEntry>,
    pub action: Action,
}

/// What a `Step` holds.
pub ghost struct StepView {
    pub logs: Seq<LogEntryView>,
    pub action: ActionView,
}

impl DeepView for Step {
    type V = StepView;

    open spec fn deep_view(&self) -> StepView {
        StepView { logs: self.logs.deep_view(), action: self.action@ }
    }
}

impl View for Step {
    type V = StepView;

    open spec fn view(&self) -> StepView {
        self.deep_view()
    }
}

/// The step that logs `logs` and asks for `action`.
pub open spec fn step(logs: Seq<LogEntryView>, action: ActionView) -> StepView {
    StepView { logs, action }
}

impl Step {
    /// The step that asks for `action` and logs nothing.
    pub fn quiet(action: Action) -> (made: Step)
        ensures
            made@ == step(Seq::empty(), action@),
    {
        let made = Step { logs: Vec::new(), action };
        assert(made.logs.deep_view() =~= Seq::<LogEntryView>::empty());
        made
    }

    /// The step that logs `entry` and asks for `action`.
    pub fn with(entry: LogEntry, action: Action) -> (made: Step)
        ensures
            made@ == step(seq![entry@], action@),
    {
        let mut logs: Vec<LogEntry> = Vec::new();
        logs.push(entry);
        let made = Step { logs, action };
        assert(made.logs.deep_view() =~= seq![entry@]);
        made
    }
}

/// The failure that an answer of the wrong sort counts as.
pub open spec fn unexpected() -> ErrorView {
    ErrorView::BlissError("The answer does not fit the request"@)
}

/// A copy of an optional failure.
pub fn copy_failure(failure: &Option<Error>) -> (copy: Option<Error>)
    ensures
        copy.deep_view() == failure.deep_view(),
{
    match failure {
        Some(error) => Some(error.clone()),
        None => None,
    }
}

/// The outcome that ends an operation with `failure`, or well.
pub fn outcome(failure: Option<Error>) -> (result: Result<(), Error>)
    ensures
        failure_of(result) == failure.deep_view(),
{
    match failure {
        Some(error) => Err(error),
        None => Ok(()),
    }
}

/// A step with the given messages.
pub fn say(logs: Vec<LogEntry>, action: Action) -> (made: Step)
    ensures
        made@ == step(logs.deep_view(), action@),
{
    Step { logs, action }
}

/// One message, as a list.
pub fn one(said: LogEntry) -> (logs: Vec<LogEntry>)
    ensures
        logs.deep_view() == seq![said@],
{
    let mut logs: Vec<LogEntry> = Vec::new();
    logs.push(said);
    assert(logs.deep_view() =~= seq![said@]);
    logs
}

/// The failure that an answer of the wrong sort counts as.
pub fn not_fitting() -> (error: Error)
    ensures
        error@ == unexpected(),
{
    Error::BlissError(String::from_str("The answer does not fit the request"))
}

} // verus!
