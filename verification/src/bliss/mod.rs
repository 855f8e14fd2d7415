//! Orchestration of pulling and pushing a profile.
//!
//! A `Bliss` is a session on one instance together with the name of a
//! stored profile. It starts the two operations, `pull` and `push`; each is
//! then run by the caller step by step.

use vstd::prelude::*;
use crate::bliss::error::{Error, ErrorView};
use crate::bliss::pull::{Pull, PullStage, PullView};
use crate::bliss::push::{Push, PushStage, PushView};
use crate::lemmy::api::Api;
use crate::lemmy::{LemmyError, LemmyErrorView};
use crate::user::{Authorized, User};

pub mod error;
pub mod executor;
pub mod plan;
pub mod pull;
pub mod push;
pub mod resolve;
pub mod step;
pub mod util;

verus! {

/// A session on an instance, the builder of its requests, and the name of
/// the stored profile that it pulls to or pushes from.
pub struct Bliss {
    pub user: User<Authorized>,
    pub api: Api,
    pub profile_name: String,
}

/// What logging in came to, as far as a `Bliss` depends on it: the failure
/// that is reported where the login failed.
pub open spec fn login_failure(error: LemmyErrorView) -> ErrorView {
    ErrorView::BlissError("Failed while trying to login: "@ + error.message())
}

impl Bliss {
    /// Makes the session from what the login came to. A failed login is
    /// reported as the failure of the whole run.
    pub fn new(login: Result<User<Authorized>, LemmyError>, profile_name: &str) -> (bliss: Result<
        Bliss,
        Error,
    >)
        ensures
            login matches Ok(user) ==> (bliss matches Ok(made) && made.user@ == user@
                && made.profile_name@ == profile_name@),
            login matches Err(error) ==> (bliss matches Err(failure) && failure@ == login_failure(
                error@,
            )),
    {
        match login {
            Ok(user) => Ok(Bliss { user, api: Api::new(), profile_name: profile_name.to_owned() }),
            Err(err) => Err(
                Error::BlissError(
                    String::from_str("Failed while trying to login: ").concat(err.message().as_str()),
                ),
            ),
        }
    }

    /// Begins a pull of the account into the stored profile.
    pub fn pull(&self) -> (pull: Pull)
        ensures
            pull@ == (PullView {
                user: self.user@,
                profile_name: self.profile_name@,
                stage: PullStage::Start,
                profile: None,
                banner_url: None,
                avatar: None,
                banner: None,
                failure: None,
            }),
    {
        Pull::new(self.user.clone(), self.profile_name.as_str())
    }

    /// Begins a push of the stored profile onto the account. With
    /// `subtractive`, relations of the account that the profile lacks are
    /// dissolved. The fields named in `exclude` are not replayed; the
    /// pictures named in `extra` are uploaded first.
    pub fn push(&self, subtractive: bool, exclude: &[String], extra: &[String]) -> (push: Push)
        ensures
            push@ == (PushView {
                user: self.user@,
                profile_name: self.profile_name@,
                subtractive,
                exclude: exclude.deep_view(),
                pictures: extra.deep_view(),
                stage: PushStage::Start,
                profile: None,
                extra: 0,
                executor: None,
                failure: None,
            }),
    {
        Push::new(self.user.clone(), self.profile_name.as_str(), subtractive, exclude, extra)
    }
}

} // verus!
