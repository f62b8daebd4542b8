use kiro_account_manager::account::AccountStore;
use kiro_account_manager::device::{
    begin_authorization, ClientRegistration, DeviceAuthSlots, DeviceAuthorization,
};
use kiro_account_manager::session::{
    accept_callback, get_current_user, import_auth_state, logout, update_auth_state, AppState,
    AuthState, CallbackError, PendingLogin,
};

fn fresh() -> AppState {
    AppState {
        store: AccountStore::new(Vec::new()),
        auth: AuthState { user: None, csrf_token: None, access_token: None, refresh_token: None },
        pending_login: None,
    }
}

fn pending(state: &str) -> PendingLogin {
    PendingLogin {
        provider: "Google".to_string(),
        code_verifier: "verifier".to_string(),
        state: state.to_string(),
        machineid: "machine".to_string(),
    }
}

#[test]
fn a_login_signs_the_user_in() {
    let mut state = fresh();
    assert!(get_current_user(&state).is_none());
    state.pending_login = Some(pending("s"));
    state.auth.csrf_token = Some("csrf".to_string());
    update_auth_state(&mut state, "alice@example.com", "Google", "at", "rt");
    let user = get_current_user(&state).unwrap();
    assert_eq!(user.id.len(), 36);
    assert_eq!(user.email, "alice@example.com");
    assert_eq!(user.name, "alice");
    assert_eq!(user.avatar, None);
    assert_eq!(user.provider, "Google");
    assert_eq!(state.auth.access_token, Some("at".to_string()));
    assert_eq!(state.auth.refresh_token, Some("rt".to_string()));
    assert_eq!(state.auth.csrf_token, Some("csrf".to_string()));
    assert!(state.pending_login.is_none());
}

#[test]
fn the_name_of_a_user_without_an_at_sign_is_the_whole_address() {
    let mut state = fresh();
    update_auth_state(&mut state, "nobody", "Github", "at", "rt");
    assert_eq!(get_current_user(&state).unwrap().name, "nobody");
    update_auth_state(&mut state, "@host", "Github", "at", "rt");
    assert_eq!(get_current_user(&state).unwrap().name, "");
}

#[test]
fn imported_credentials_bring_their_cross_site_token() {
    let mut state = fresh();
    state.pending_login = Some(pending("s"));
    import_auth_state(&mut state, "bob@b.com", "Github", "at", "rt", "csrf");
    assert_eq!(get_current_user(&state).unwrap().name, "bob");
    assert_eq!(state.auth.access_token, Some("at".to_string()));
    assert_eq!(state.auth.refresh_token, Some("rt".to_string()));
    assert_eq!(state.auth.csrf_token, Some("csrf".to_string()));
    assert!(state.pending_login.is_none());
}

#[test]
fn logout_forgets_the_user_and_the_address_but_not_the_refresh_token() {
    let mut state = fresh();
    let mut slots = DeviceAuthSlots::new();
    begin_authorization(
        &mut slots,
        &ClientRegistration { client_id: "c".to_string(), client_secret: "s".to_string() },
        &DeviceAuthorization {
            verification_uri: "https://d.test/".to_string(),
            verification_uri_complete: None,
            user_code: "U".to_string(),
            device_code: "D".to_string(),
            expires_in: 60,
            interval: None,
        },
        "r",
        0,
    );
    import_auth_state(&mut state, "bob@b.com", "Github", "at", "rt", "csrf");
    state.pending_login = Some(pending("s"));
    logout(&mut state, &mut slots);
    assert!(get_current_user(&state).is_none());
    assert_eq!(state.auth.csrf_token, None);
    assert_eq!(state.auth.access_token, None);
    assert_eq!(state.auth.refresh_token, Some("rt".to_string()));
    assert!(state.pending_login.is_some());
    assert_eq!(slots.current_url(), None);
    assert!(slots.pending.is_some());
}

#[test]
fn a_callback_is_taken_only_with_the_state_of_the_pending_login() {
    let mut state = fresh();
    assert!(matches!(accept_callback(&state, "s"), Err(CallbackError::NoPendingLogin)));
    state.pending_login = Some(pending("s"));
    assert!(matches!(accept_callback(&state, "other"), Err(CallbackError::StateMismatch)));
    assert!(matches!(accept_callback(&state, ""), Err(CallbackError::StateMismatch)));
    let p = accept_callback(&state, "s").unwrap();
    assert_eq!(p.provider, "Google");
    assert_eq!(p.code_verifier, "verifier");
    assert_eq!(p.state, "s");
    assert_eq!(p.machineid, "machine");
    assert!(state.pending_login.is_some());
    assert_eq!(CallbackError::NoPendingLogin.message(), "No pending login found");
    assert_eq!(CallbackError::StateMismatch.message(), "State mismatch");
}
