//! The requests that the synchronizer sends to an instance, and what it
//! makes of the answers.
//!
//! Nothing is sent from here: a request is a value that the caller hands to
//! its transport.

use vstd::prelude::*;
use crate::lemmy::image::{UploadImageResponse, UploadImageResponseView};
use crate::lemmy::request::{
    Body, BodyView, Method, Request, RequestView, SaveUserSettings, SaveUserSettingsView, SearchType,
};
use crate::lemmy::site::SortType;
use crate::lemmy::LemmyError;
use crate::lemmy::LemmyErrorView;
use crate::profile::community::Community;
use crate::profile::person::Person;
use crate::profile::Profile;
use crate::user::{Authorized, NotAuthorized, User, UserView};

verus! {

/// The path under which an instance serves its interface.
pub const API_BASE: &'static str = "/api/v3";

/// What `url::Url::join` gives for the address `base` and the reference
/// `reference`, as text: the address that `reference` denotes when read
/// from `base`, or `None` where `base` is no absolute address or the two
/// do not make one.
pub uninterp spec fn url_joined(base: Seq<char>, reference: Seq<char>) -> Option<Seq<char>>;

/// Resolves a reference against an address. `base` is parsed with
/// `url::Url::parse`, `reference` is resolved against it with
/// `url::Url::join`, and the result is returned in its normalized text
/// form. `None` stands for a failure of either of the two. The result
/// depends on the two texts alone; the contract names it and claims no more.
#[verifier::external_body]
fn join_url(base: &str, reference: &str) -> (joined: Option<String>)
    ensures
        joined.deep_view() == url_joined(base@, reference@),
{
    match url::Url::parse(base) {
        Ok(parsed) => match parsed.join(reference) {
            Ok(joined) => Some(String::from(joined)),
            Err(_) => None,
        },
        Err(_) => None,
    }
}

/// The address of the interface function `path` on the instance at
/// `instance`.
pub open spec fn spec_api_path(instance: Seq<char>, path: Seq<char>) -> Option<Seq<char>> {
    url_joined(instance, "/api/v3"@ + "/"@ + path)
}

/// Computes the address of the interface function `path` on the instance
/// at `instance`: `path` below the interface's base path, resolved against
/// the instance's address. `None` where the address of the instance cannot
/// carry a path.
pub fn api_path(instance: &str, path: &str) -> (url: Option<String>)
    ensures
        url.deep_view() == spec_api_path(instance@, path@),
{
    let path = String::from_str(API_BASE).concat("/").concat(path);
    join_url(instance, path.as_str())
}

/// The builder of the requests to an instance.
#[derive(Clone, Copy, Debug, PartialEq, Eq, Structural)]
pub struct Api;

/// The request that is sent with `method` and `body` to the interface
/// function `path` of the instance at `instance`, if that has an address.
pub open spec fn spec_call(
    instance: Seq<char>,
    method: Method,
    path: Seq<char>,
    body: BodyView,
) -> Option<RequestView> {
    match spec_api_path(instance, path) {
        Some(url) => Some(RequestView { method, url, body }),
        None => None,
    }
}

/// Whether a status code of an answer stands for success.
pub open spec fn is_success(status: u16) -> bool {
    200 <= status < 300
}

/// What the upload of a picture to the instance at `instance` came to,
/// given the answer of the picture service.
pub open spec fn spec_uploaded(instance: Seq<char>, response: UploadImageResponseView) -> Result<
    Option<Seq<char>>,
    LemmyErrorView,
> {
    if response.msg != "ok"@ {
        Err(LemmyErrorView::ResponeError("Msg is "@ + response.msg))
    } else if response.files.len() == 0 {
        Ok(None)
    } else {
        Ok(url_joined(instance, "pictrs/image/"@ + response.files[0].file))
    }
}

/// What the outcome of an upload holds.
pub open spec fn uploaded_view(outcome: Result<Option<String>, LemmyError>) -> Result<
    Option<Seq<char>>,
    LemmyErrorView,
> {
    match outcome {
        Ok(url) => Ok(url.deep_view()),
        Err(e) => Err(e@),
    }
}

impl Api {
    /// A builder of requests.
    pub fn new() -> (api: Self) {
        Api
    }

    fn call(&self, instance: &str, method: Method, path: &str, body: Body) -> (request: Option<
        Request,
    >)
        ensures
            request.deep_view() == spec_call(instance@, method, path@, body@),
    {
        match api_path(instance, path) {
            Some(url) => Some(Request { method, url, body }),
            None => None,
        }
    }

    /// The request that logs `user` in with `password` and, where given,
    /// the second-factor token `token`.
    pub fn login(&self, user: &User<NotAuthorized>, password: String, token: Option<String>) -> (request:
        Option<Request>)
        ensures
            request.deep_view() == spec_call(
                user@.instance,
                Method::Post,
                "user/login"@,
                BodyView::Login {
                    username_or_email: user@.username,
                    password: password@,
                    totp_2fa_token: token.deep_view(),
                },
            ),
    {
        let body = Body::Login {
            username_or_email: user.name().to_owned(),
            password,
            totp_2fa_token: token,
        };
        self.call(user.address(), Method::Post, "user/login", body)
    }

    /// What a login came to: the session of `user` with the credential
    /// `jwt` that the instance answered with, or a failure where it
    /// answered without one.
    pub fn authorize(&self, user: User<NotAuthorized>, jwt: Option<String>) -> (session: Result<
        User<Authorized>,
        LemmyError,
    >)
        ensures
            jwt matches Some(token) ==> (session matches Ok(s) && s@ == (UserView {
                token: Some(token@),
                ..user@
            })),
            jwt is None ==> (session matches Err(e) && e@ == LemmyErrorView::ResponeError(
                "No token in the answer to the login"@,
            )),
    {
        match jwt {
            Some(token) => Ok(user.authorize(token)),
            None => Err(
                LemmyError::ResponeError(String::from_str("No token in the answer to the login")),
            ),
        }
    }

    /// The request for the state of the instance and of the account of
    /// `user`.
    pub fn site(&self, user: &User<Authorized>) -> (request: Option<Request>)
        ensures
            request.deep_view() == spec_call(
                user@.instance,
                Method::Get,
                "site"@,
                BodyView::GetSite { auth: user.spec_token() },
            ),
    {
        let body = Body::GetSite { auth: user.token().to_owned() };
        self.call(user.address(), Method::Get, "site", body)
    }

    /// The request that sets the preferences and public texts of `user` to
    /// those of `profile`.
    pub fn save_user_settings(&self, user: &User<Authorized>, profile: Profile) -> (request: Option<
        Request,
    >)
        ensures
            request.deep_view() == spec_call(
                user@.instance,
                Method::Put,
                "user/save_user_settings"@,
                BodyView::SaveUserSettings(
                    SaveUserSettingsView {
                        auth: user.spec_token(),
                        ..SaveUserSettingsView::of_profile(profile@)
                    },
                ),
            ),
    {
        let mut settings = SaveUserSettings::from(profile);
        settings.auth = user.token().to_owned();
        self.call(user.address(), Method::Put, "user/save_user_settings", Body::SaveUserSettings(settings))
    }

    /// The request that searches the instance of `user` for communities by
    /// the name of `community`, best of all time first.
    pub fn search_community(&self, user: &User<Authorized>, community: &Community) -> (request:
        Option<Request>)
        ensures
            request.deep_view() == spec_call(
                user@.instance,
                Method::Get,
                "search"@,
                BodyView::Search {
                    q: community@.name,
                    type_: SearchType::Communities,
                    sort: SortType::TopAll,
                    auth: user.spec_token(),
                },
            ),
    {
        let body = Body::Search {
            q: community.name.clone(),
            type_: SearchType::Communities,
            sort: SortType::TopAll,
            auth: user.token().to_owned(),
        };
        self.call(user.address(), Method::Get, "search", body)
    }

    /// The request that searches the instance of `user` for people by the
    /// name of `person`, best of all time first.
    pub fn search_person(&self, user: &User<Authorized>, person: &Person) -> (request: Option<
        Request,
    >)
        ensures
            request.deep_view() == spec_call(
                user@.instance,
                Method::Get,
                "search"@,
                BodyView::Search {
                    q: person@.name,
                    type_: SearchType::Users,
                    sort: SortType::TopAll,
                    auth: user.spec_token(),
                },
            ),
    {
        let body = Body::Search {
            q: person.username.clone(),
            type_: SearchType::Users,
            sort: SortType::TopAll,
            auth: user.token().to_owned(),
        };
        self.call(user.address(), Method::Get, "search", body)
    }

    /// The request that makes `user` follow the community with handle `id`,
    /// or stop following it.
    pub fn follow_community(&self, user: &User<Authorized>, id: i32, follow: bool) -> (request:
        Option<Request>)
        ensures
            request.deep_view() == spec_call(
                user@.instance,
                Method::Post,
                "community/follow"@,
                BodyView::FollowCommunity { community_id: id, follow, auth: user.spec_token() },
            ),
    {
        let body = Body::FollowCommunity { community_id: id, follow, auth: user.token().to_owned() };
        self.call(user.address(), Method::Post, "community/follow", body)
    }

    /// The request that makes `user` block the community with handle `id`,
    /// or lift the block.
    pub fn block_community(&self, user: &User<Authorized>, id: i32, block: bool) -> (request:
        Option<Request>)
        ensures
            request.deep_view() == spec_call(
                user@.instance,
                Method::Post,
                "community/block"@,
                BodyView::BlockCommunity { community_id: id, block, auth: user.spec_token() },
            ),
    {
        let body = Body::BlockCommunity { community_id: id, block, auth: user.token().to_owned() };
        self.call(user.address(), Method::Post, "community/block", body)
    }

    /// The request that makes `user` block the person with handle `id`, or
    /// lift the block.
    pub fn block_person(&self, user: &User<Authorized>, id: i32, block: bool) -> (request: Option<
        Request,
    >)
        ensures
            request.deep_view() == spec_call(
                user@.instance,
                Method::Post,
                "user/block"@,
                BodyView::BlockPerson { person_id: id, block, auth: user.spec_token() },
            ),
    {
        let body = Body::BlockPerson { person_id: id, block, auth: user.token().to_owned() };
        self.call(user.address(), Method::Post, "user/block", body)
    }

    /// The request that fetches the picture at `url`; none where there is
    /// no picture.
    pub fn download_image(&self, url: &Option<String>) -> (request: Option<Request>)
        ensures
            request.deep_view() == match url.deep_view() {
                Some(address) => Some(
                    RequestView { method: Method::Get, url: address, body: BodyView::Empty },
                ),
                None => None,
            },
    {
        match url {
            Some(address) => Some(
                Request { method: Method::Get, url: address.clone(), body: Body::Empty },
            ),
            None => None,
        }
    }

    /// The request that uploads the picture `bytes` to the picture service
    /// of the instance of `user`: a form whose part `images[]` holds the
    /// picture as a file called `image`, sent with the session's cookie.
    pub fn upload_image(&self, user: &User<Authorized>, bytes: Vec<u8>) -> (request: Option<
        Request,
    >)
        ensures
            request.deep_view() == match url_joined(user@.instance, "pictrs/image"@) {
                Some(url) => Some(
                    RequestView {
                        method: Method::Post,
                        url,
                        body: BodyView::Image {
                            bytes: bytes@,
                            part: "images[]"@,
                            file_name: "image"@,
                            mime: "image/png"@,
                            cookie: "jwt="@ + user.spec_token(),
                        },
                    },
                ),
                None => None,
            },
    {
        match join_url(user.address(), "pictrs/image") {
            Some(url) => {
                let cookie = String::from_str("jwt=").concat(user.token());
                let body = Body::Image {
                    bytes,
                    part: String::from_str("images[]"),
                    file_name: String::from_str("image"),
                    mime: String::from_str("image/png"),
                    cookie,
                };
                Some(Request { method: Method::Post, url, body })
            },
            None => None,
        }
    }

    /// Judges the status of the answer to an upload: a code from 200 to 299
    /// is a success, any other a failure that quotes `shown`, the status as
    /// the transport shows it.
    pub fn upload_status(&self, status: u16, shown: &str) -> (outcome: Result<(), LemmyError>)
        ensures
            is_success(status) ==> outcome is Ok,
            !is_success(status) ==> (outcome matches Err(e) && e@ == LemmyErrorView::ResponeError(
                "Status is "@ + shown@,
            )),
    {
        if 200 <= status && status < 300 {
            Ok(())
        } else {
            Err(LemmyError::ResponeError(String::from_str("Status is ").concat(shown)))
        }
    }

    /// What an upload to the instance of `user` came to, given the answer
    /// of the picture service: a failure unless the service says `ok`;
    /// otherwise the address of the first file it stored, or nothing where
    /// it stored none or the file's name makes no address.
    pub fn uploaded_image(&self, user: &User<Authorized>, response: &UploadImageResponse) -> (outcome:
        Result<Option<String>, LemmyError>)
        ensures
            uploaded_view(outcome) == spec_uploaded(user@.instance, response@),
    {
        if !crate::profile::text_eq(response.msg.as_str(), "ok") {
            return Err(
                LemmyError::ResponeError(String::from_str("Msg is ").concat(response.msg.as_str())),
            );
        }
        if response.files.len() == 0 {
            return Ok(None);
        }
        assert(response@.files[0] == response.files[0]@);
        let path = String::from_str("pictrs/image/").concat(response.files[0].file.as_str());
        Ok(join_url(user.address(), path.as_str()))
    }
}

} // verus!
