//! Who is signed in, and the login that waits for its callback.

use vstd::prelude::*;

use crate::account::AccountStore;
use crate::device::{DeviceAuthSlots, SlotsView};
use crate::outside::fresh_id;
use crate::text::{before_first, clone_opt, opt_text, str_eq, take_before};

verus! {

/// The user who is signed in.
#[derive(Debug)]
pub struct User {
    pub id: String,
    pub email: String,
    pub name: String,
    pub avatar: Option<String>,
    pub provider: String,
}

pub struct UserView {
    pub id: Seq<char>,
    pub email: Seq<char>,
    pub name: Seq<char>,
    pub avatar: Option<Seq<char>>,
    pub provider: Seq<char>,
}

impl View for User {
    type V = UserView;

    open spec fn view(&self) -> UserView {
        UserView {
            id: self.id@,
            email: self.email@,
            name: self.name@,
            avatar: opt_text(self.avatar),
            provider: self.provider@,
        }
    }
}

impl Clone for User {
    fn clone(&self) -> (r: Self)
        ensures
            r@ == self@,
    {
        User {
            id: self.id.clone(),
            email: self.email.clone(),
            name: self.name.clone(),
            avatar: clone_opt(&self.avatar),
            provider: self.provider.clone(),
        }
    }
}

/// The view of a user who may not be there.
pub open spec fn user_slot(u: Option<User>) -> Option<UserView> {
    match u {
        Some(u) => Some(u@),
        None => None,
    }
}

/// The session: the user and the tokens that speak for them.
#[derive(Debug)]
pub struct AuthState {
    pub user: Option<User>,
    pub csrf_token: Option<String>,
    pub access_token: Option<String>,
    pub refresh_token: Option<String>,
}

pub struct AuthView {
    pub user: Option<UserView>,
    pub csrf_token: Option<Seq<char>>,
    pub access_token: Option<Seq<char>>,
    pub refresh_token: Option<Seq<char>>,
}

impl View for AuthState {
    type V = AuthView;

    open spec fn view(&self) -> AuthView {
        AuthView {
            user: user_slot(self.user),
            csrf_token: opt_text(self.csrf_token),
            access_token: opt_text(self.access_token),
            refresh_token: opt_text(self.refresh_token),
        }
    }
}

/// A social login that was sent to the browser and waits for its callback.
#[derive(Debug)]
pub struct PendingLogin {
    pub provider: String,
    pub code_verifier: String,
    pub state: String,
    pub machineid: String,
}

pub struct PendingLoginView {
    pub provider: Seq<char>,
    pub code_verifier: Seq<char>,
    pub state: Seq<char>,
    pub machineid: Seq<char>,
}

impl View for PendingLogin {
    type V = PendingLoginView;

    open spec fn view(&self) -> PendingLoginView {
        PendingLoginView {
            provider: self.provider@,
            code_verifier: self.code_verifier@,
            state: self.state@,
            machineid: self.machineid@,
        }
    }
}

impl Clone for PendingLogin {
    fn clone(&self) -> (r: Self)
        ensures
            r@ == self@,
    {
        PendingLogin {
            provider: self.provider.clone(),
            code_verifier: self.code_verifier.clone(),
            state: self.state.clone(),
            machineid: self.machineid.clone(),
        }
    }
}

/// The view of a login that may not be pending.
pub open spec fn login_slot(p: Option<PendingLogin>) -> Option<PendingLoginView> {
    match p {
        Some(p) => Some(p@),
        None => None,
    }
}

/// All that the application keeps between two commands. The caller guards it
/// with a lock.
pub struct AppState {
    pub store: AccountStore,
    pub auth: AuthState,
    pub pending_login: Option<PendingLogin>,
}

/// The user who is signed in, if any.
pub fn get_current_user(state: &AppState) -> (r: Option<User>)
    ensures
        user_slot(r) == state.auth@.user,
{
    match &state.auth.user {
        Some(u) => Some(u.clone()),
        None => None,
    }
}

/// Signs the user out: the user, the cross-site token and the access token
/// are forgotten, and so is the address of a device authorization. The
/// refresh token, the accounts and a pending login stay.
pub fn logout(state: &mut AppState, slots: &mut DeviceAuthSlots)
    ensures
        final(state).auth@ == (AuthView {
            user: None,
            csrf_token: None,
            access_token: None,
            refresh_token: old(state).auth@.refresh_token,
        }),
        final(state).store@ == old(state).store@,
        login_slot(final(state).pending_login) == login_slot(old(state).pending_login),
        final(slots)@ == (SlotsView { url: None, ..old(slots)@ }),
{
    state.auth.user = None;
    state.auth.csrf_token = None;
    state.auth.access_token = None;
    slots.clear_url();
}

/// The name shown for a user: what stands before the first `@` of the
/// address.
pub open spec fn display_name(email: Seq<char>) -> Seq<char> {
    before_first(email, '@')
}

/// The user that a login signs in.
pub open spec fn signed_in(id: Seq<char>, email: Seq<char>, provider: Seq<char>) -> UserView {
    UserView { id, email, name: display_name(email), avatar: None, provider }
}

/// Signs a user in after a login: a user with a fresh identifier, the two
/// tokens, and no login pending any more. The cross-site token and the
/// accounts stay.
pub fn update_auth_state(
    state: &mut AppState,
    email: &str,
    provider: &str,
    access_token: &str,
    refresh_token: &str,
)
    ensures
        final(state).auth@.user is Some,
        final(state).auth@.user->0 == signed_in(
            final(state).auth@.user->0.id,
            email@,
            provider@,
        ),
        final(state).auth@.user->0.id.len() == 36,
        final(state).auth@.access_token == Some(access_token@),
        final(state).auth@.refresh_token == Some(refresh_token@),
        final(state).auth@.csrf_token == old(state).auth@.csrf_token,
        final(state).pending_login is None,
        final(state).store@ == old(state).store@,
{
    state.auth.user = Some(
        User {
            id: fresh_id(),
            email: String::from_str(email),
            name: String::from_str(take_before(email, '@')),
            avatar: None,
            provider: String::from_str(provider),
        },
    );
    state.auth.access_token = Some(String::from_str(access_token));
    state.auth.refresh_token = Some(String::from_str(refresh_token));
    state.pending_login = None;
}

/// Signs a user in with credentials that were handed over from outside: as
/// after a login, and the cross-site token is taken too.
pub fn import_auth_state(
    state: &mut AppState,
    email: &str,
    provider: &str,
    access_token: &str,
    refresh_token: &str,
    csrf_token: &str,
)
    ensures
        final(state).auth@.user is Some,
        final(state).auth@.user->0 == signed_in(
            final(state).auth@.user->0.id,
            email@,
            provider@,
        ),
        final(state).auth@.access_token == Some(access_token@),
        final(state).auth@.refresh_token == Some(refresh_token@),
        final(state).auth@.csrf_token == Some(csrf_token@),
        final(state).pending_login is None,
        final(state).store@ == old(state).store@,
{
    update_auth_state(state, email, provider, access_token, refresh_token);
    state.auth.csrf_token = Some(String::from_str(csrf_token));
}

/// Why the callback of a social login is turned down.
#[derive(Debug, Clone, Copy, PartialEq, Eq, Structural)]
pub enum CallbackError {
    /// No login waits for a callback.
    NoPendingLogin,
    /// The callback does not belong to the login that waits.
    StateMismatch,
}

impl CallbackError {
    pub open spec fn message_text(self) -> Seq<char> {
        match self {
            CallbackError::NoPendingLogin => "No pending login found"@,
            CallbackError::StateMismatch => "State mismatch"@,
        }
    }

    pub fn message(&self) -> (r: String)
        ensures
            r@ == self.message_text(),
    {
        let text = match self {
            CallbackError::NoPendingLogin => "No pending login found",
            CallbackError::StateMismatch => "State mismatch",
        };
        String::from_str(text)
    }
}

/// Matches a callback to the login that waits for it. The callback is taken
/// only where a login is pending and the callback carries its state.
pub fn accept_callback(state: &AppState, callback_state: &str) -> (r: Result<
    PendingLogin,
    CallbackError,
>)
    ensures
        match login_slot(state.pending_login) {
            None => r == Err::<PendingLogin, CallbackError>(CallbackError::NoPendingLogin),
            Some(p) => if p.state == callback_state@ {
                r is Ok && r->Ok_0@ == p
            } else {
                r == Err::<PendingLogin, CallbackError>(CallbackError::StateMismatch)
            },
        },
{
    match &state.pending_login {
        None => Err(CallbackError::NoPendingLogin),
        Some(p) => {
            if str_eq(p.state.as_str(), callback_state) {
                Ok(p.clone())
            } else {
                Err(CallbackError::StateMismatch)
            }
        },
    }
}

} // verus!
