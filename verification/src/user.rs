//! An account on an instance, before and after login.
//!
//! The login state is part of the type: only a `User<Authorized>` carries a
//! bearer credential. The credential lies in `Authorized`, which cannot be
//! built outside this module, so the only way to a session is
//! `User::authorize`.

use vstd::prelude::*;

verus! {

/// What a login state holds of a credential.
pub trait LoginState {
    /// The bearer credential, where the state has one.
    spec fn credential(&self) -> Option<Seq<char>>;
}

/// Login state of an account that has not been authenticated.
#[derive(Clone, Copy, Debug, PartialEq, Eq, Structural)]
pub struct NotAuthorized;

/// Login state of an authenticated account. It holds the bearer credential
/// and cannot be built outside this module.
pub struct Authorized {
    jwt: String,
}

impl LoginState for NotAuthorized {
    open spec fn credential(&self) -> Option<Seq<char>> {
        None
    }
}

impl Authorized {
    /// The bearer credential that the state holds.
    pub closed spec fn jwt(&self) -> Seq<char> {
        self.jwt@
    }
}

impl LoginState for Authorized {
    open spec fn credential(&self) -> Option<Seq<char>> {
        Some(self.jwt())
    }
}

/// An account: its name and the address of its instance, in login state
/// `AuthState`.
pub struct User<AuthState = NotAuthorized> {
    pub username: String,
    pub instance: String,
    pub state: AuthState,
}

/// What an account is: its name, the address of its instance, and its
/// bearer credential once it has logged in.
pub ghost struct UserView {
    pub username: Seq<char>,
    pub instance: Seq<char>,
    pub token: Option<Seq<char>>,
}

impl<AuthState: LoginState> View for User<AuthState> {
    type V = UserView;

    open spec fn view(&self) -> UserView {
        UserView {
            username: self.username@,
            instance: self.instance@,
            token: self.state.credential(),
        }
    }
}

impl<AuthState: LoginState> User<AuthState> {
    /// The account's name.
    pub fn name(&self) -> (name: &str)
        ensures
            name@ == self@.username,
    {
        self.username.as_str()
    }

    /// The address of the account's instance.
    pub fn address(&self) -> (address: &str)
        ensures
            address@ == self@.instance,
    {
        self.instance.as_str()
    }
}

impl User<NotAuthorized> {
    /// A handle for `username` on the instance at `url`, not yet logged in.
    pub fn new(username: &str, url: String) -> (user: User<NotAuthorized>)
        ensures
            user@ == (UserView { username: username@, instance: url@, token: None }),
    {
        User { username: username.to_owned(), instance: url, state: NotAuthorized }
    }

    /// Turns the handle into a session that carries the credential `jwt`.
    pub fn authorize(self, jwt: String) -> (session: User<Authorized>)
        ensures
            session@ == (UserView { token: Some(jwt@), ..self@ }),
    {
        User { username: self.username, instance: self.instance, state: Authorized { jwt } }
    }
}

impl User<Authorized> {
    /// The bearer credential of the session.
    pub open spec fn spec_token(&self) -> Seq<char> {
        self@.token->0
    }

    /// The bearer credential obtained at login.
    pub fn token(&self) -> (token: &str)
        ensures
            self@.token == Some(token@),
            token@ == self.spec_token(),
    {
        self.state.jwt.as_str()
    }
}

impl Clone for User<NotAuthorized> {
    fn clone(&self) -> (copy: Self)
        ensures
            copy@ == self@,
    {
        User { username: self.username.clone(), instance: self.instance.clone(), state: NotAuthorized }
    }
}

impl Clone for User<Authorized> {
    fn clone(&self) -> (copy: Self)
        ensures
            copy@ == self@,
    {
        User {
            username: self.username.clone(),
            instance: self.instance.clone(),
            state: Authorized { jwt: self.state.jwt.clone() },
        }
    }
}

} // verus!
