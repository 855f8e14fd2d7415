//! Making the changes of a plan one at a time, with a pause after each.
//!
//! The pause keeps the destination's limit on messages per second. Each
//! change is tried once, and each begins with a search of the destination
//! for its community or person: the handle that a change is sent to is
//! the one found there, never one that was recorded. Where the community
//! or person cannot be found, or the instance refuses, the failure is
//! logged and the next change is taken up after the same pause.

use vstd::prelude::*;
use crate::bliss::error::{Error, ErrorView};
use crate::bliss::plan::{Kind, Mutation, MutationView};
use crate::bliss::resolve::{found_or_missing, lookup_view, resolve};
use crate::bliss::Bliss;
use crate::bliss::step::{
    not_fitting, step, unexpected, Action, ActionView, Event, EventView, Step, StepView,
};
use crate::bliss::util::{entry, log_res, outcome_entry, Level, LogEntry, LogEntryView};
use crate::profile::people;

verus! {

/// The pause after each change, in milliseconds, on an instance that
/// accepts `rate` messages per second: a thousand divided by the rate,
/// rounded up. For a rate of zero it is the longest pause there is, for a
/// negative rate none at all.
pub open spec fn spec_sleep_time(rate: i32) -> u64 {
    if rate > 0 {
        ((1000 + rate - 1) / (rate as int)) as u64
    } else if rate == 0 {
        u64::MAX
    } else {
        0
    }
}

/// Computes the pause after each change, in milliseconds, from the number
/// of messages per second that the instance accepts.
pub fn sleep_time(rate: i32) -> (time: u64)
    ensures
        time == spec_sleep_time(rate),
{
    if rate > 0 {
        let rate: u64 = rate as u64;
        (999 + rate) / rate
    } else if rate == 0 {
        u64::MAX
    } else {
        0
    }
}

/// For a positive rate the pause is the least number of milliseconds in
/// which at most the accepted number of messages falls into any second:
/// that many pauses make up a second, and one millisecond less would not.
pub proof fn lemma_sleep_time_is_ceiling(rate: i32)
    requires
        rate > 0,
    ensures
        spec_sleep_time(rate) * rate >= 1000,
        (spec_sleep_time(rate) - 1) * rate < 1000,
        1 <= spec_sleep_time(rate) <= 1000,
{
    let r = rate as int;
    let q = (1000 + r - 1) / r;
    assert(q * r <= 999 + r && 999 + r < (q + 1) * r && 1 <= q <= 1000) by (nonlinear_arith)
        requires
            r > 0,
            q == (999 + r) / r,
    ;
    assert(q * r >= 1000 && (q - 1) * r < 1000) by (nonlinear_arith)
        requires
            r > 0,
            q * r <= 999 + r,
            999 + r < (q + 1) * r,
    ;
}

/// Where the executor stands with the change at its position.
#[derive(Clone, Copy, Debug, PartialEq, Eq, Structural)]
pub enum Stage {
    /// The change has not been taken up.
    Ready,
    /// The destination is being searched for the community or person.
    Searching,
    /// The change has been sent to the destination.
    Calling,
    /// The change has been tried; the pause after it is running.
    Pausing,
    /// Every change has been tried.
    Finished,
}

/// The changes to make, how far the executor has come with them, and the
/// pause it keeps after each.
#[derive(Debug)]
pub struct Executor {
    pub queue: Vec<Mutation>,
    pub position: usize,
    pub stage: Stage,
    pub sleep_time: u64,
}

/// What an `Executor` holds.
pub ghost struct ExecutorView {
    pub queue: Seq<MutationView>,
    pub position: int,
    pub stage: Stage,
    pub sleep_time: u64,
}

/// The word that a message uses for a kind of change.
pub open spec fn verb(kind: Kind) -> Seq<char> {
    match kind {
        Kind::FollowCommunity => "Following "@,
        Kind::UnfollowCommunity => "Unfollowing "@,
        Kind::BlockCommunity => "Blocking "@,
        Kind::UnblockCommunity => "Unblocking "@,
        Kind::BlockPerson => "Blocking "@,
        Kind::UnblockPerson => "Unblocking "@,
    }
}

/// The message that says which change is taken up.
pub open spec fn announcement(change: MutationView) -> LogEntryView {
    entry(Level::Info, verb(change.kind) + change.target.name + "..."@)
}

/// The remote call that makes a change of kind `kind` to the community or
/// person with handle `id`.
pub open spec fn call(kind: Kind, id: i32) -> ActionView {
    match kind {
        Kind::FollowCommunity => ActionView::FollowCommunity { id, follow: true },
        Kind::UnfollowCommunity => ActionView::FollowCommunity { id, follow: false },
        Kind::BlockCommunity => ActionView::BlockCommunity { id, block: true },
        Kind::UnblockCommunity => ActionView::BlockCommunity { id, block: false },
        Kind::BlockPerson => ActionView::BlockPerson { id, block: true },
        Kind::UnblockPerson => ActionView::BlockPerson { id, block: false },
    }
}

/// The search that looks for the community or person of a change.
pub open spec fn search(change: MutationView) -> ActionView {
    if change.kind.on_person() {
        ActionView::SearchPerson(change.target)
    } else {
        ActionView::SearchCommunity(change.target)
    }
}

impl ExecutorView {
    /// The change at the position, if the queue reaches that far.
    pub open spec fn current(self) -> Option<MutationView> {
        if 0 <= self.position < self.queue.len() {
            Some(self.queue[self.position])
        } else {
            None
        }
    }

    /// Takes up the change at the position: announces it and searches the
    /// destination for its community or person, whether the change
    /// establishes a relation or dissolves one. Past the end of the queue
    /// the executor finishes.
    pub open spec fn begin(self) -> (ExecutorView, StepView) {
        match self.current() {
            None => (
                ExecutorView { stage: Stage::Finished, ..self },
                step(Seq::empty(), ActionView::Finish(None)),
            ),
            Some(change) => (
                ExecutorView { stage: Stage::Searching, ..self },
                step(seq![announcement(change)], search(change)),
            ),
        }
    }

    /// Gives the change at the position up: logs the failure as a warning
    /// and pauses.
    pub open spec fn fail(self, error: ErrorView) -> (ExecutorView, StepView) {
        (
            ExecutorView { stage: Stage::Pausing, ..self },
            step(seq![outcome_entry(Some(error), Level::Warn)], ActionView::Sleep(self.sleep_time)),
        )
    }

    /// Goes on after a search: sends the change to the handle found, or
    /// gives the change up.
    pub open spec fn looked_up(self, kind: Kind, found: Result<i32, ErrorView>) -> (
        ExecutorView,
        StepView,
    ) {
        match found {
            Ok(id) => (
                ExecutorView { stage: Stage::Calling, ..self },
                step(Seq::empty(), call(kind, id)),
            ),
            Err(error) => self.fail(error),
        }
    }

    /// The executor after `event`, and the step it asks for.
    pub open spec fn next(self, event: EventView) -> (ExecutorView, StepView) {
        match self.current() {
            None => (
                ExecutorView { stage: Stage::Finished, ..self },
                step(Seq::empty(), ActionView::Finish(None)),
            ),
            Some(change) => match self.stage {
                Stage::Ready => self.begin(),
                Stage::Searching => match event {
                    EventView::Communities(Ok(found)) => if change.kind.on_person() {
                        self.fail(unexpected())
                    } else {
                        self.looked_up(
                            change.kind,
                            found_or_missing(
                                resolve(change.target, found),
                                "Unable to find community: "@,
                                change.target.actor,
                            ),
                        )
                    },
                    EventView::People(Ok(found)) => if change.kind.on_person() {
                        self.looked_up(
                            change.kind,
                            found_or_missing(
                                resolve(change.target, people(found)),
                                "Unable to find user: "@,
                                change.target.actor,
                            ),
                        )
                    } else {
                        self.fail(unexpected())
                    },
                    EventView::Communities(Err(error)) => self.fail(error),
                    EventView::People(Err(error)) => self.fail(error),
                    _ => self.fail(unexpected()),
                },
                Stage::Calling => match event {
                    EventView::Done(None) => (
                        ExecutorView { stage: Stage::Pausing, ..self },
                        step(
                            seq![outcome_entry(None, Level::Warn)],
                            ActionView::Sleep(self.sleep_time),
                        ),
                    ),
                    EventView::Done(Some(error)) => self.fail(error),
                    _ => self.fail(unexpected()),
                },
                Stage::Pausing => match event {
                    EventView::Slept => (ExecutorView {
                        position: self.position + 1,
                        stage: Stage::Ready,
                        ..self
                    }).begin(),
                    _ => (self, step(Seq::empty(), ActionView::Sleep(self.sleep_time))),
                },
                Stage::Finished => (self, step(Seq::empty(), ActionView::Finish(None))),
            },
        }
    }
}

impl DeepView for Executor {
    type V = ExecutorView;

    open spec fn deep_view(&self) -> ExecutorView {
        ExecutorView {
            queue: self.queue.deep_view(),
            position: self.position as int,
            stage: self.stage,
            sleep_time: self.sleep_time,
        }
    }
}

impl View for Executor {
    type V = ExecutorView;

    open spec fn view(&self) -> ExecutorView {
        self.deep_view()
    }
}

fn announce(change: &Mutation) -> (made: LogEntry)
    ensures
        made@ == announcement(change@),
{
    let word = match change.kind() {
        Kind::FollowCommunity => "Following ",
        Kind::UnfollowCommunity => "Unfollowing ",
        Kind::BlockCommunity => "Blocking ",
        Kind::UnblockCommunity => "Unblocking ",
        Kind::BlockPerson => "Blocking ",
        Kind::UnblockPerson => "Unblocking ",
    };
    LogEntry::new(Level::Info, String::from_str(word).concat(change.name()).concat("..."))
}

fn call_for(kind: Kind, id: i32) -> (action: Action)
    ensures
        action@ == call(kind, id),
{
    match kind {
        Kind::FollowCommunity => Action::FollowCommunity { id, follow: true },
        Kind::UnfollowCommunity => Action::FollowCommunity { id, follow: false },
        Kind::BlockCommunity => Action::BlockCommunity { id, block: true },
        Kind::UnblockCommunity => Action::BlockCommunity { id, block: false },
        Kind::BlockPerson => Action::BlockPerson { id, block: true },
        Kind::UnblockPerson => Action::BlockPerson { id, block: false },
    }
}

fn search_for(change: &Mutation) -> (action: Action)
    ensures
        action@ == search(change@),
{
    match change {
        Mutation::FollowCommunity(c) => Action::SearchCommunity(c.clone()),
        Mutation::BlockCommunity(c) => Action::SearchCommunity(c.clone()),
        Mutation::UnfollowCommunity(c) => Action::SearchCommunity(c.clone()),
        Mutation::UnblockCommunity(c) => Action::SearchCommunity(c.clone()),
        Mutation::BlockPerson(p) => Action::SearchPerson(p.clone()),
        Mutation::UnblockPerson(p) => Action::SearchPerson(p.clone()),
    }
}

impl Executor {
    /// An executor that has `queue` before it and pauses `sleep_time`
    /// milliseconds after each change.
    pub fn new(queue: Vec<Mutation>, sleep_time: u64) -> (executor: Executor)
        ensures
            executor@ == (ExecutorView {
                queue: queue.deep_view(),
                position: 0,
                stage: Stage::Ready,
                sleep_time,
            }),
    {
        Executor { queue, position: 0, stage: Stage::Ready, sleep_time }
    }

    fn finish(self) -> (next: (Executor, Step))
        ensures
            next.0@ == (ExecutorView { stage: Stage::Finished, ..self@ }),
            next.1@ == step(Seq::empty(), ActionView::Finish(None)),
    {
        (Executor { stage: Stage::Finished, ..self }, Step::quiet(Action::Finish(Ok(()))))
    }

    fn begin(self) -> (next: (Executor, Step))
        ensures
            (next.0@, next.1@) == self@.begin(),
    {
        if self.position >= self.queue.len() {
            return self.finish();
        }
        assert(self@.queue[self.position as int] == self.queue[self.position as int]@);
        let change = &self.queue[self.position];
        let said = announce(change);
        let action = search_for(change);
        (Executor { stage: Stage::Searching, ..self }, Step::with(said, action))
    }

    fn fail(self, error: Error) -> (next: (Executor, Step))
        ensures
            (next.0@, next.1@) == self@.fail(error@),
    {
        let time = self.sleep_time;
        let failed: Result<(), Error> = Err(error);
        let said = log_res(&failed);
        (Executor { stage: Stage::Pausing, ..self }, Step::with(said, Action::Sleep(time)))
    }

    fn looked_up(self, kind: Kind, found: Result<i32, Error>) -> (next: (Executor, Step))
        ensures
            (next.0@, next.1@) == self@.looked_up(kind, lookup_view(found)),
    {
        match found {
            Ok(id) => (Executor { stage: Stage::Calling, ..self }, Step::quiet(call_for(kind, id))),
            Err(error) => self.fail(error),
        }
    }

    /// Takes `event`, what came of the step asked for last, and says what
    /// to log and to do next.
    ///
    /// From `Stage::Ready` the change at the position is announced and its
    /// community or person searched for. The answer to the search decides
    /// whether the change is sent, and to which handle. Whatever comes of a
    /// change that was taken up,
    /// a pause of `sleep_time` follows; only when that is over does the
    /// executor move to the next change. An answer of the wrong sort counts
    /// as a failure of the change; during a pause it is passed over and the
    /// pause asked for again.
    pub fn step(self, event: Event) -> (next: (Executor, Step))
        ensures
            (next.0@, next.1@) == self@.next(event@),
    {
        if self.position >= self.queue.len() {
            return self.finish();
        }
        assert(self@.queue[self.position as int] == self.queue[self.position as int]@);
        let kind = self.queue[self.position].kind();
        match self.stage {
            Stage::Ready => self.begin(),
            Stage::Searching => match event {
                Event::Communities(Ok(found)) => match &self.queue[self.position] {
                    Mutation::FollowCommunity(c) => {
                        let looked = Bliss::find_community(c, &found);
                        self.looked_up(kind, looked)
                    },
                    Mutation::BlockCommunity(c) => {
                        let looked = Bliss::find_community(c, &found);
                        self.looked_up(kind, looked)
                    },
                    Mutation::UnfollowCommunity(c) => {
                        let looked = Bliss::find_community(c, &found);
                        self.looked_up(kind, looked)
                    },
                    Mutation::UnblockCommunity(c) => {
                        let looked = Bliss::find_community(c, &found);
                        self.looked_up(kind, looked)
                    },
                    _ => self.fail(not_fitting()),
                },
                Event::People(Ok(found)) => match &self.queue[self.position] {
                    Mutation::BlockPerson(p) => {
                        let looked = Bliss::find_person(p, &found);
                        self.looked_up(kind, looked)
                    },
                    Mutation::UnblockPerson(p) => {
                        let looked = Bliss::find_person(p, &found);
                        self.looked_up(kind, looked)
                    },
                    _ => self.fail(not_fitting()),
                },
                Event::Communities(Err(error)) => self.fail(error),
                Event::People(Err(error)) => self.fail(error),
                _ => self.fail(not_fitting()),
            },
            Stage::Calling => match event {
                Event::Done(Ok(_)) => {
                    let time = self.sleep_time;
                    let went: Result<(), Error> = Ok(());
                    (
                        Executor { stage: Stage::Pausing, ..self },
                        Step::with(log_res(&went), Action::Sleep(time)),
                    )
                },
                Event::Done(Err(error)) => self.fail(error),
                _ => self.fail(not_fitting()),
            },
            Stage::Pausing => match event {
                Event::Slept => {
                    let moved = Executor {
                        position: self.position + 1,
                        stage: Stage::Ready,
                        ..self
                    };
                    moved.begin()
                },
                _ => {
                    let time = self.sleep_time;
                    (self, Step::quiet(Action::Sleep(time)))
                },
            },
            Stage::Finished => (self, Step::quiet(Action::Finish(Ok(())))),
        }
    }
}

/// Whether an action changes a relation on the destination.
pub open spec fn changes_relation(action: ActionView) -> bool {
    action is FollowCommunity || action is BlockCommunity || action is BlockPerson
}

/// The handle that an action which changes a relation is sent to.
pub open spec fn call_handle(action: ActionView) -> i32 {
    match action {
        ActionView::FollowCommunity { id, .. } => id,
        ActionView::BlockCommunity { id, .. } => id,
        ActionView::BlockPerson { id, .. } => id,
        _ => 0,
    }
}

/// How far an executor has come: the changes it has left behind count
/// first, then how far it is with the change at its position.
pub open spec fn progress(executor: ExecutorView) -> int {
    5 * executor.position + match executor.stage {
        Stage::Ready => 0int,
        Stage::Searching => 1,
        Stage::Calling => 2,
        Stage::Pausing => 3,
        Stage::Finished => 4,
    }
}

/// What one step of an executor can and cannot do.
///
/// The queue and the pause never change, and the executor never falls
/// back. The position moves only forward, by one, and only when a pause is
/// over. A change is sent only for the change at the position, only in
/// answer to a search that has found its community or person, and only on
/// entering `Stage::Calling`, which is a step forward: since the executor
/// never falls back, each change is sent at most once. Whatever comes of a
/// search or of a change that was sent, the executor either sends the
/// change it has found or pauses for its `sleep_time`; after a change has
/// been sent it always pauses.
pub proof fn lemma_executor_step(executor: ExecutorView, event: EventView)
    ensures
        ({
            let (after, asked) = executor.next(event);
            &&& after.queue == executor.queue
            &&& after.sleep_time == executor.sleep_time
            &&& progress(after) >= progress(executor)
            &&& (after.position == executor.position || (after.position == executor.position + 1
                && executor.stage == Stage::Pausing && event is Slept))
            &&& (changes_relation(asked.action) ==> {
                &&& executor.stage == Stage::Searching
                &&& after.stage == Stage::Calling
                &&& progress(after) > progress(executor)
                &&& executor.current() is Some
                &&& finds(executor.current()->0, event, call_handle(asked.action))
                &&& asked.action == call(executor.current()->0.kind, call_handle(asked.action))
            })
            &&& (executor.current() is Some && executor.stage == Stage::Ready ==> after.stage
                == Stage::Searching && asked.action == search(executor.current()->0))
            &&& (executor.current() is Some && executor.stage == Stage::Calling ==> after.stage
                == Stage::Pausing && asked.action == ActionView::Sleep(executor.sleep_time))
            &&& (executor.current() is Some && executor.stage == Stage::Searching ==> (after.stage
                == Stage::Pausing && asked.action == ActionView::Sleep(executor.sleep_time)) || (
            after.stage == Stage::Calling && changes_relation(asked.action)))
            &&& (asked.action is Finish <==> after.stage == Stage::Finished)
        }),
{
    if executor.current() is Some {
        if executor.stage == Stage::Pausing && event is Slept {
            let moved = ExecutorView {
                position: executor.position + 1,
                stage: Stage::Ready,
                ..executor
            };
            assert(executor.next(event) == moved.begin());
        }
    }
}

/// An executor with nothing in its queue finishes at once: it asks for no
/// search, no change and no pause, and says nothing.
pub proof fn lemma_empty_queue_finishes(executor: ExecutorView, event: EventView)
    requires
        executor.queue.len() == 0,
    ensures
        executor.next(event).0.stage == Stage::Finished,
        executor.next(event).1 == step(Seq::empty(), ActionView::Finish(None)),
{
}

/// The answer to a search for the community or person of `change` in which
/// exactly one entry has its name and actor address, with the handle `id`.
pub open spec fn finds(change: MutationView, event: EventView, id: i32) -> bool {
    match event {
        EventView::Communities(Ok(found)) => !change.kind.on_person() && resolve(change.target, found)
            == Some(id),
        EventView::People(Ok(found)) => change.kind.on_person() && resolve(
            change.target,
            people(found),
        ) == Some(id),
        _ => false,
    }
}

/// How a change goes through when nothing fails.
///
/// The change at the position is announced and its community or person
/// searched for. Once the search has found it, the change is sent to the
/// handle found. When the destination has accepted the change, `Success`
/// is logged and the executor pauses for its `sleep_time`. When the pause
/// is over it takes up the next change. So each change of the queue has
/// one search, is sent once, to the handle found, and has one pause after
/// it.
pub proof fn lemma_change_goes_through(executor: ExecutorView, found: EventView, id: i32)
    requires
        executor.stage == Stage::Ready,
        executor.current() is Some,
        finds(executor.current()->0, found, id),
    ensures
        ({
            let change = executor.current()->0;
            let (taken, first) = executor.next(EventView::Start);
            let (sent, second) = taken.next(found);
            let (paused, third) = sent.next(EventView::Done(None));
            let (moved, fourth) = paused.next(EventView::Slept);
            &&& taken.stage == Stage::Searching
            &&& first == step(seq![announcement(change)], search(change))
            &&& sent.stage == Stage::Calling
            &&& second == step(Seq::empty(), call(change.kind, id))
            &&& third == step(seq![entry(Level::Info, "Success"@)], ActionView::Sleep(executor.sleep_time))
            &&& (moved, fourth) == (ExecutorView {
                position: executor.position + 1,
                stage: Stage::Ready,
                ..executor
            }).begin()
        }),
{
}

} // verus!
