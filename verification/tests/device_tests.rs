use kiro_account_manager::account::AccountStore;
use kiro_account_manager::device::{
    announce_authorization, background_step, begin_authorization, classify_token_response,
    complete_device_login,
    deadline_passed, device_credential, next_interval, poll_kind, prepare_poll, prepare_poll_now,
    reconcile_device_login, start_pending, ClientRegistration, DeviceAuthSlots,
    DeviceAuthorization, DevicePollResult, PollError, PollKind, PollPlan, PollerStep, TokenGrant,
};
use serde_json::Value;

fn registration() -> ClientRegistration {
    ClientRegistration { client_id: "cid".to_string(), client_secret: "csecret".to_string() }
}

fn authorization(complete: Option<&str>, interval: Option<i64>) -> DeviceAuthorization {
    DeviceAuthorization {
        verification_uri: "https://device.test/".to_string(),
        verification_uri_complete: complete.map(|s| s.to_string()),
        user_code: "ABCD-EFGH".to_string(),
        device_code: "dcode".to_string(),
        expires_in: 600,
        interval,
    }
}

fn grant() -> TokenGrant {
    TokenGrant {
        access_token: "at".to_string(),
        refresh_token: "rt".to_string(),
        id_token: Some("it".to_string()),
        aws_sso_app_session_id: Some("sid".to_string()),
        expires_in: 3600,
    }
}

#[test]
fn a_started_authorization_becomes_the_pending_one() {
    let mut slots = DeviceAuthSlots::new();
    assert!(slots.pending.is_none());
    assert_eq!(slots.current_url(), None);
    let started = begin_authorization(
        &mut slots,
        &registration(),
        &authorization(Some("https://device.test/?code=ABCD"), None),
        "us-east-1",
        1_700_000_000,
    );
    assert_eq!(started.url, "https://device.test/?code=ABCD");
    assert_eq!(started.device_code, "dcode");
    assert_eq!(started.expires_in, 600);
    assert_eq!(started.interval, 5);
    assert_eq!(slots.current_url(), Some("https://device.test/?code=ABCD".to_string()));
    let p = slots.pending.as_ref().unwrap();
    assert_eq!(p.device_code, "dcode");
    assert_eq!(p.client_id, "cid");
    assert_eq!(p.client_secret, "csecret");
    assert_eq!(p.region, "us-east-1");
    assert_eq!(p.expires_at, 1_700_000_600);
}

#[test]
fn a_second_start_overwrites_the_pending_authorization() {
    let mut slots = DeviceAuthSlots::new();
    begin_authorization(&mut slots, &registration(), &authorization(None, Some(7)), "r1", 10);
    let mut second = authorization(None, Some(9));
    second.device_code = "other".to_string();
    let started = begin_authorization(&mut slots, &registration(), &second, "r2", 20);
    assert_eq!(started.interval, 9);
    assert_eq!(started.url, "https://device.test/");
    assert_eq!(slots.pending.as_ref().unwrap().device_code, "other");
    assert_eq!(slots.pending.as_ref().unwrap().region, "r2");
    assert_eq!(slots.pending.as_ref().unwrap().expires_at, 620);
}

#[test]
fn an_announced_authorization_shows_its_address_only() {
    let mut slots = DeviceAuthSlots::new();
    let info = announce_authorization(&mut slots, registration(), authorization(None, None));
    assert_eq!(info.verification_uri, "https://device.test/");
    assert_eq!(info.verification_uri_complete, None);
    assert_eq!(info.user_code, "ABCD-EFGH");
    assert_eq!(info.device_code, "dcode");
    assert_eq!(info.client_id, "cid");
    assert_eq!(info.client_secret, "csecret");
    assert_eq!(info.expires_in, 600);
    assert_eq!(info.interval, 5);
    assert_eq!(slots.current_url(), Some("https://device.test/".to_string()));
    assert!(slots.pending.is_none());
    slots.clear_url();
    assert_eq!(slots.current_url(), None);
}

#[test]
fn the_answer_of_the_token_endpoint_is_classified() {
    let kind = |code: &str| poll_kind(&classify_token_response(None, Some(code.to_string())));
    assert_eq!(kind("authorization_pending"), PollKind::Pending);
    assert_eq!(kind("slow_down"), PollKind::SlowDown);
    assert_eq!(kind("expired_token"), PollKind::Expired);
    assert_eq!(kind("access_denied"), PollKind::Denied);
    assert_eq!(kind("server_error"), PollKind::Transient);
    assert_eq!(poll_kind(&classify_token_response(None, None)), PollKind::Transient);
    assert_eq!(
        poll_kind(&classify_token_response(Some(grant()), Some("slow_down".to_string()))),
        PollKind::Success
    );
    match classify_token_response(Some(grant()), None) {
        Ok(DevicePollResult::Success(g)) => {
            assert_eq!(g.access_token, "at");
            assert_eq!(g.refresh_token, "rt");
            assert_eq!(g.expires_in, 3600);
        }
        _ => panic!("a token means success"),
    }
    match classify_token_response(None, Some("server_error".to_string())) {
        Err(e) => assert_eq!(e, "Token polling failed: server_error"),
        Ok(_) => panic!("an unknown code says nothing"),
    }
    match classify_token_response(None, None) {
        Err(e) => assert_eq!(e, "Token polling failed: no token and no error code"),
        Ok(_) => panic!("an empty answer says nothing"),
    }
    assert_eq!(poll_kind(&Err("connection reset".to_string())), PollKind::Transient);
}

#[test]
fn slowing_down_lengthens_the_interval_and_pending_does_not() {
    assert_eq!(next_interval(5, PollKind::SlowDown), 10);
    assert_eq!(next_interval(10, PollKind::SlowDown), 15);
    assert_eq!(next_interval(0, PollKind::SlowDown), 5);
    assert!(next_interval(7, PollKind::SlowDown) > 7);
    assert_eq!(next_interval(5, PollKind::Pending), 5);
    assert_eq!(next_interval(5, PollKind::Transient), 5);
    assert_eq!(next_interval(5, PollKind::Success), 5);
    assert_eq!(next_interval(u64::MAX - 5, PollKind::SlowDown), u64::MAX);
    assert_eq!(next_interval(u64::MAX, PollKind::Pending), u64::MAX);
}

#[test]
fn pending_pending_expired_clears_the_authorization() {
    let mut slots = DeviceAuthSlots::new();
    begin_authorization(&mut slots, &registration(), &authorization(None, None), "us-east-1", 100);
    for (answer, still_pending) in [
        ("authorization_pending", true),
        ("authorization_pending", true),
        ("expired_token", false),
    ] {
        match prepare_poll(&mut slots, 200) {
            Ok(PollPlan::Ask(p)) => assert_eq!(p.device_code, "dcode"),
            _ => panic!("the pending authorization is asked about"),
        }
        let outcome = classify_token_response(None, Some(answer.to_string()));
        slots.settle(poll_kind(&outcome));
        assert_eq!(slots.pending.is_some(), still_pending);
        assert_eq!(slots.current_url().is_some(), still_pending);
    }
    match prepare_poll(&mut slots, 200) {
        Err(e) => {
            assert_eq!(e, PollError::NoPendingAuthorization);
            assert_eq!(e.message(), "no pending authorization");
        }
        Ok(_) => panic!("nothing is pending any more"),
    }
}

#[test]
fn an_authorization_out_of_time_is_forgotten_without_asking() {
    let mut slots = DeviceAuthSlots::new();
    begin_authorization(&mut slots, &registration(), &authorization(None, None), "r", 100);
    assert!(matches!(prepare_poll(&mut slots, 700), Ok(PollPlan::Ask(_))));
    assert!(slots.pending.is_some());
    assert!(matches!(prepare_poll(&mut slots, 701), Ok(PollPlan::Expired)));
    assert!(slots.pending.is_none());
    assert_eq!(slots.current_url(), None);
    assert!(matches!(prepare_poll(&mut slots, 701), Err(PollError::NoPendingAuthorization)));
}

#[test]
fn every_terminal_outcome_clears_both_slots() {
    for (kind, cleared) in [
        (PollKind::Success, true),
        (PollKind::Expired, true),
        (PollKind::Denied, true),
        (PollKind::Pending, false),
        (PollKind::SlowDown, false),
        (PollKind::Transient, false),
    ] {
        let mut slots = DeviceAuthSlots::new();
        begin_authorization(&mut slots, &registration(), &authorization(None, None), "r", 0);
        slots.settle(kind);
        assert_eq!(slots.pending.is_none(), cleared);
        assert_eq!(slots.current_url().is_none(), cleared);
    }
    let mut slots = DeviceAuthSlots::new();
    begin_authorization(&mut slots, &registration(), &authorization(None, None), "r", 0);
    slots.clear();
    assert!(slots.pending.is_none());
    assert_eq!(slots.current_url(), None);
}

#[test]
fn what_the_background_poller_does_after_each_outcome() {
    let fresh = || {
        let mut slots = DeviceAuthSlots::new();
        begin_authorization(&mut slots, &registration(), &authorization(None, None), "r", 0);
        slots
    };
    let mut s = fresh();
    assert_eq!(background_step(&mut s, 5, PollKind::Pending), PollerStep::Again(5));
    assert!(s.pending.is_some());
    assert_eq!(background_step(&mut s, 5, PollKind::SlowDown), PollerStep::Again(10));
    assert_eq!(background_step(&mut s, 10, PollKind::Transient), PollerStep::Again(10));
    assert!(s.pending.is_some());
    assert_eq!(background_step(&mut s, 10, PollKind::Success), PollerStep::Stop);
    assert!(s.pending.is_none());
    let mut s = fresh();
    assert_eq!(background_step(&mut s, 5, PollKind::Denied), PollerStep::Stop);
    assert!(s.pending.is_none());
    let mut s = fresh();
    assert_eq!(background_step(&mut s, 5, PollKind::Expired), PollerStep::Stop);
    assert_eq!(s.current_url(), None);
}

#[test]
fn the_deadline_passes_after_the_seconds_of_expiry() {
    assert!(!deadline_passed(0, 0, 600));
    assert!(!deadline_passed(599, 999_999_999, 600));
    assert!(!deadline_passed(600, 0, 600));
    assert!(deadline_passed(600, 1, 600));
    assert!(deadline_passed(601, 0, 600));
    assert!(deadline_passed(0, 1, 0));
    assert!(!deadline_passed(0, 0, 0));
}

#[test]
fn the_credential_of_a_device_grant() {
    let c = device_credential(
        grant(),
        "cid",
        "csecret",
        "eu-west-1",
        Some("uid".to_string()),
        Value::Null,
        "2030/01/01 00:00:00".to_string(),
    );
    assert_eq!(c.access_token, "at");
    assert_eq!(c.refresh_token, "rt");
    assert_eq!(c.user_id, Some("uid".to_string()));
    assert_eq!(c.expires_at, Some("2030/01/01 00:00:00".to_string()));
    assert_eq!(c.profile_arn, None);
    assert_eq!(c.csrf_token, None);
    assert_eq!(
        c.client_id_hash,
        Some("dfde074bf0fcd0c747aef5b3ce27b842c69d7610d79fa6f917dc13ab15c7d751".to_string())
    );
    assert_eq!(c.client_id, Some("cid".to_string()));
    assert_eq!(c.client_secret, Some("csecret".to_string()));
    assert_eq!(c.region, Some("eu-west-1".to_string()));
    assert_eq!(c.sso_session_id, Some("sid".to_string()));
    assert_eq!(c.id_token, Some("it".to_string()));
    assert_eq!(c.usage_data, Value::Null);
    assert!(!c.banned);
}

#[test]
fn a_device_grant_is_reconciled_into_the_store() {
    let mut store = AccountStore::new(Vec::new());
    let a = reconcile_device_login(
        &mut store,
        grant(),
        "cid",
        "csecret",
        "us-east-1",
        None,
        None,
        Value::Null,
        "2030/01/01 00:00:00".to_string(),
    );
    assert_eq!(a.email, "user@builder.id");
    assert_eq!(a.label, "Kiro BuilderId 账号");
    assert_eq!(a.provider, Some("BuilderId".to_string()));
    assert_eq!(a.status, "正常");
    assert_eq!(store.accounts.len(), 1);
    let mut again = grant();
    again.access_token = "at2".to_string();
    let b = reconcile_device_login(
        &mut store,
        again,
        "cid2",
        "csecret2",
        "us-east-1",
        Some("user@builder.id".to_string()),
        Some("uid".to_string()),
        Value::Bool(true),
        "2031/01/01 00:00:00".to_string(),
    );
    assert_eq!(b.id, a.id);
    assert_eq!(store.accounts.len(), 1);
    assert_eq!(store.accounts[0].access_token, Some("at2".to_string()));
    assert_eq!(store.accounts[0].client_id, Some("cid2".to_string()));
    assert_eq!(store.accounts[0].usage_data, Some(Value::Bool(true)));
    let c = reconcile_device_login(
        &mut store,
        grant(),
        "cid",
        "csecret",
        "us-east-1",
        Some("real@b.com".to_string()),
        None,
        Value::Null,
        "t".to_string(),
    );
    assert_eq!(c.email, "real@b.com");
    assert_eq!(store.accounts.len(), 2);
    assert_eq!(store.accounts[0].id, c.id);
}

#[test]
fn the_present_moment_is_used_where_none_is_given() {
    let mut slots = DeviceAuthSlots::new();
    assert!(matches!(prepare_poll_now(&mut slots), Err(PollError::NoPendingAuthorization)));
    let started =
        start_pending(&mut slots, &registration(), &authorization(None, Some(3)), "r").unwrap();
    assert_eq!(started.interval, 3);
    let expires_at = slots.pending.as_ref().unwrap().expires_at;
    assert!(expires_at > 1_600_000_600);
    assert!(matches!(prepare_poll_now(&mut slots), Ok(PollPlan::Ask(_))));

    let mut past = authorization(None, None);
    past.expires_in = -10;
    start_pending(&mut slots, &registration(), &past, "r").unwrap();
    assert!(matches!(prepare_poll_now(&mut slots), Ok(PollPlan::Expired)));
    assert!(slots.pending.is_none());

    let mut endless = authorization(None, None);
    endless.expires_in = i64::MAX;
    assert!(start_pending(&mut slots, &registration(), &endless, "r").is_none());
    assert!(slots.pending.is_none());
}

#[test]
fn a_poller_sees_whether_its_authorization_is_still_the_pending_one() {
    let mut slots = DeviceAuthSlots::new();
    assert!(!slots.is_pending("dcode"));
    begin_authorization(&mut slots, &registration(), &authorization(None, None), "r", 0);
    assert!(slots.is_pending("dcode"));
    assert!(!slots.is_pending("other"));
    slots.clear();
    assert!(!slots.is_pending("dcode"));
}

#[test]
fn a_device_login_is_completed_with_the_moment_of_expiry() {
    let mut store = AccountStore::new(Vec::new());
    let a = complete_device_login(
        &mut store,
        grant(),
        "cid",
        "csecret",
        "us-east-1",
        None,
        None,
        Value::Null,
    )
    .unwrap();
    let stamp = a.expires_at.clone().unwrap();
    assert_eq!(stamp.len(), 19);
    assert_eq!(&stamp[4..5], "/");
    assert_eq!(&stamp[10..11], " ");
    assert_eq!(store.accounts.len(), 1);
    assert_eq!(store.accounts[0].expires_at, Some(stamp));
    assert_eq!(store.accounts[0].email, "user@builder.id");

    let mut endless = grant();
    endless.expires_in = i64::MAX;
    assert!(complete_device_login(
        &mut store,
        endless,
        "cid",
        "csecret",
        "us-east-1",
        None,
        None,
        Value::Null
    )
    .is_none());
    assert_eq!(store.accounts.len(), 1);
    assert_eq!(store.accounts[0].access_token, Some("at".to_string()));
}

#[test]
fn a_token_that_outlasts_every_span_of_time_is_not_brought_in() {
    for seconds in [i64::MAX / 1000 + 1, -(i64::MAX / 1000) - 1, i64::MIN] {
        let mut store = AccountStore::new(Vec::new());
        let mut g = grant();
        g.expires_in = seconds;
        let r = complete_device_login(&mut store, g, "c", "s", "r", None, None, Value::Null);
        assert!(r.is_none());
        assert!(store.accounts.is_empty());
    }
}

#[test]
fn an_authorization_is_started_for_every_time_of_expiry_that_fits_the_clock() {
    let latest: i64 = (i32::MAX as i64 - 719_163) * 86_400 + 86_399;
    let earliest: i64 = (i32::MIN as i64 - 719_163) * 86_400;
    for expires_in in [0, 600, -600, i64::MAX - latest, i64::MIN - earliest] {
        let mut slots = DeviceAuthSlots::new();
        let mut a = authorization(None, None);
        a.expires_in = expires_in;
        let started = start_pending(&mut slots, &registration(), &a, "r").unwrap();
        assert_eq!(started.expires_in, expires_in);
        let now = slots.pending.as_ref().unwrap().expires_at - expires_in;
        assert!(earliest <= now && now <= latest);
        assert!(now > 1_600_000_000);
    }
}
