//! The device-code grant: what is kept while an authorization is pending,
//! how an answer of the token endpoint is read, and what each answer does to
//! the pending authorization and to the pace of polling.
//!
//! Nothing here talks to the network. The caller asks the token endpoint and
//! hands the answer in; two callers that share one [`DeviceAuthSlots`] behind
//! a lock ask one after the other.

use vstd::prelude::*;

use crate::account::{
    account_label, derive_identity, first_with_key, upsert, upserted, Account, AccountStore,
    Credential, CredentialView, LoginFlow,
};
use crate::outside::{
    earliest_second, hex_encode, hex_lower, is_span, latest_second, local_timestamp_after, sha256,
    sha256_digest, unix_now,
};
use crate::text::{clone_opt, opt_text, str_eq};

verus! {

/// The start page of the provider, whose fingerprint links an account to the
/// client that was registered for it.
pub open spec fn start_url() -> Seq<char> {
    "https://view.awsapps.com/start"@
}

/// The region in which a device authorization is started when none is named.
pub open spec fn default_region() -> Seq<char> {
    "us-east-1"@
}

/// The provider tag of accounts that come from a device-code grant.
pub open spec fn device_provider() -> Seq<char> {
    "BuilderId"@
}

/// The seconds between two polls where the provider names none.
pub const DEFAULT_INTERVAL: i64 = 5;

/// The seconds by which the pace of polling slows when the provider asks.
pub const SLOW_DOWN_STEP: u64 = 5;

/// The device authorization that waits for the user: the one-time device
/// code, the client that was registered for it, and when it expires.
#[derive(Debug)]
pub struct PendingDeviceAuth {
    pub device_code: String,
    pub client_id: String,
    pub client_secret: String,
    pub region: String,
    /// Seconds since the Unix epoch.
    pub expires_at: i64,
}

pub struct PendingView {
    pub device_code: Seq<char>,
    pub client_id: Seq<char>,
    pub client_secret: Seq<char>,
    pub region: Seq<char>,
    pub expires_at: i64,
}

impl View for PendingDeviceAuth {
    type V = PendingView;

    open spec fn view(&self) -> PendingView {
        PendingView {
            device_code: self.device_code@,
            client_id: self.client_id@,
            client_secret: self.client_secret@,
            region: self.region@,
            expires_at: self.expires_at,
        }
    }
}

impl Clone for PendingDeviceAuth {
    fn clone(&self) -> (r: Self)
        ensures
            r@ == self@,
    {
        PendingDeviceAuth {
            device_code: self.device_code.clone(),
            client_id: self.client_id.clone(),
            client_secret: self.client_secret.clone(),
            region: self.region.clone(),
            expires_at: self.expires_at,
        }
    }
}

/// What a caller is told of a device authorization that was started.
#[derive(Debug)]
pub struct DeviceAuthInfo {
    pub verification_uri: String,
    pub verification_uri_complete: Option<String>,
    pub user_code: String,
    pub device_code: String,
    pub client_id: String,
    pub client_secret: String,
    pub expires_in: i64,
    pub interval: i64,
}

pub struct DeviceAuthInfoView {
    pub verification_uri: Seq<char>,
    pub verification_uri_complete: Option<Seq<char>>,
    pub user_code: Seq<char>,
    pub device_code: Seq<char>,
    pub client_id: Seq<char>,
    pub client_secret: Seq<char>,
    pub expires_in: i64,
    pub interval: i64,
}

impl View for DeviceAuthInfo {
    type V = DeviceAuthInfoView;

    open spec fn view(&self) -> DeviceAuthInfoView {
        DeviceAuthInfoView {
            verification_uri: self.verification_uri@,
            verification_uri_complete: opt_text(self.verification_uri_complete),
            user_code: self.user_code@,
            device_code: self.device_code@,
            client_id: self.client_id@,
            client_secret: self.client_secret@,
            expires_in: self.expires_in,
            interval: self.interval,
        }
    }
}

/// The client that the provider registered.
#[derive(Debug)]
pub struct ClientRegistration {
    pub client_id: String,
    pub client_secret: String,
}

/// The provider's answer to the start of a device authorization.
#[derive(Debug)]
pub struct DeviceAuthorization {
    pub verification_uri: String,
    pub verification_uri_complete: Option<String>,
    pub user_code: String,
    pub device_code: String,
    pub expires_in: i64,
    pub interval: Option<i64>,
}

/// The token that a completed authorization grants.
#[derive(Debug)]
pub struct TokenGrant {
    pub access_token: String,
    pub refresh_token: String,
    pub id_token: Option<String>,
    pub aws_sso_app_session_id: Option<String>,
    pub expires_in: i64,
}

pub struct TokenGrantView {
    pub access_token: Seq<char>,
    pub refresh_token: Seq<char>,
    pub id_token: Option<Seq<char>>,
    pub aws_sso_app_session_id: Option<Seq<char>>,
    pub expires_in: i64,
}

impl View for TokenGrant {
    type V = TokenGrantView;

    open spec fn view(&self) -> TokenGrantView {
        TokenGrantView {
            access_token: self.access_token@,
            refresh_token: self.refresh_token@,
            id_token: opt_text(self.id_token),
            aws_sso_app_session_id: opt_text(self.aws_sso_app_session_id),
            expires_in: self.expires_in,
        }
    }
}

/// What one poll of the token endpoint says.
#[derive(Debug)]
pub enum DevicePollResult {
    /// The user has authorized the device; here is the token.
    Success(TokenGrant),
    /// The user has not decided yet.
    Pending,
    /// The user has not decided yet, and polls come too fast.
    SlowDown,
    /// The device code is no longer valid.
    Expired,
    /// The user has refused.
    Denied,
}

/// The kinds of outcome of a poll. `Transient` stands for an answer that
/// says nothing of the authorization: the network failed, or the provider
/// answered with something unknown.
#[derive(Debug, Clone, Copy, PartialEq, Eq, Structural)]
pub enum PollKind {
    Success,
    Pending,
    SlowDown,
    Expired,
    Denied,
    Transient,
}

impl PollKind {
    /// Whether the outcome ends the authorization.
    pub open spec fn is_terminal(self) -> bool {
        self == PollKind::Success || self == PollKind::Expired || self == PollKind::Denied
    }
}

/// The kind of a poll's outcome; a failed poll is of the transient kind.
pub open spec fn kind_of(outcome: Result<DevicePollResult, String>) -> PollKind {
    match outcome {
        Ok(DevicePollResult::Success(_)) => PollKind::Success,
        Ok(DevicePollResult::Pending) => PollKind::Pending,
        Ok(DevicePollResult::SlowDown) => PollKind::SlowDown,
        Ok(DevicePollResult::Expired) => PollKind::Expired,
        Ok(DevicePollResult::Denied) => PollKind::Denied,
        Err(_) => PollKind::Transient,
    }
}

/// Tells the kind of a poll's outcome.
pub fn poll_kind(outcome: &Result<DevicePollResult, String>) -> (r: PollKind)
    ensures
        r == kind_of(*outcome),
{
    match outcome {
        Ok(DevicePollResult::Success(_)) => PollKind::Success,
        Ok(DevicePollResult::Pending) => PollKind::Pending,
        Ok(DevicePollResult::SlowDown) => PollKind::SlowDown,
        Ok(DevicePollResult::Expired) => PollKind::Expired,
        Ok(DevicePollResult::Denied) => PollKind::Denied,
        Err(_) => PollKind::Transient,
    }
}

/// What the error code of the token endpoint means, where it means
/// anything.
pub open spec fn kind_of_code(code: Seq<char>) -> Option<PollKind> {
    if code == "authorization_pending"@ {
        Some(PollKind::Pending)
    } else if code == "slow_down"@ {
        Some(PollKind::SlowDown)
    } else if code == "expired_token"@ {
        Some(PollKind::Expired)
    } else if code == "access_denied"@ {
        Some(PollKind::Denied)
    } else {
        None
    }
}

/// The words of a poll that could not be classified.
pub open spec fn unclassified_text(code: Option<Seq<char>>) -> Seq<char> {
    match code {
        Some(code) => "Token polling failed: "@ + code,
        None => "Token polling failed: no token and no error code"@,
    }
}

/// Reads the answer of the token endpoint. A token means success, whatever
/// else the answer holds; without a token the error code decides; an answer
/// with neither, or with an unknown code, says nothing of the authorization.
pub fn classify_token_response(grant: Option<TokenGrant>, error_code: Option<String>) -> (r: Result<
    DevicePollResult,
    String,
>)
    ensures
        match grant {
            Some(g) => r == Ok::<DevicePollResult, String>(DevicePollResult::Success(g)),
            None => match opt_text(error_code) {
                Some(code) => match kind_of_code(code) {
                    Some(kind) => r is Ok && kind_of(r) == kind,
                    None => r is Err && r->Err_0@ == unclassified_text(Some(code)),
                },
                None => r is Err && r->Err_0@ == unclassified_text(None),
            },
        },
{
    match grant {
        Some(g) => Ok(DevicePollResult::Success(g)),
        None => match error_code {
            Some(code) => {
                let c = code.as_str();
                if str_eq(c, "authorization_pending") {
                    Ok(DevicePollResult::Pending)
                } else if str_eq(c, "slow_down") {
                    Ok(DevicePollResult::SlowDown)
                } else if str_eq(c, "expired_token") {
                    Ok(DevicePollResult::Expired)
                } else if str_eq(c, "access_denied") {
                    Ok(DevicePollResult::Denied)
                } else {
                    Err(String::from_str("Token polling failed: ").concat(c))
                }
            },
            None => Err(String::from_str("Token polling failed: no token and no error code")),
        },
    }
}

/// The hex-written SHA-256 digest of the UTF-8 bytes of `s`.
pub open spec fn fingerprint_of(s: Seq<char>) -> Seq<char> {
    hex_lower(sha256_digest(vstd::utf8::encode_utf8(s)))
}

/// The fingerprint of `s`: its SHA-256 digest in lower-case hexadecimal.
pub fn fingerprint(s: &str) -> (r: String)
    ensures
        r@ == fingerprint_of(s@),
{
    let digest = sha256(s.as_bytes());
    hex_encode(digest.as_slice())
}

/// The one authorization that can be pending, and the address at which the
/// user authorizes it, as others may read it.
pub struct DeviceAuthSlots {
    pub pending: Option<PendingDeviceAuth>,
    pub url: Option<String>,
}

pub struct SlotsView {
    pub pending: Option<PendingView>,
    pub url: Option<Seq<char>>,
}

impl View for DeviceAuthSlots {
    type V = SlotsView;

    open spec fn view(&self) -> SlotsView {
        SlotsView {
            pending: match self.pending {
                Some(p) => Some(p@),
                None => None,
            },
            url: opt_text(self.url),
        }
    }
}

/// Slots that hold nothing.
pub open spec fn empty_slots() -> SlotsView {
    SlotsView { pending: None, url: None }
}

/// The slots after a poll of the given kind: an outcome that ends the
/// authorization empties both, any other leaves them.
pub open spec fn after_poll(s: SlotsView, kind: PollKind) -> SlotsView {
    if kind.is_terminal() {
        empty_slots()
    } else {
        s
    }
}

/// The interval after a poll of the given kind: asked to slow down, the
/// caller waits [`SLOW_DOWN_STEP`] seconds longer from now on; every other
/// outcome leaves the interval as it is.
pub open spec fn interval_after(interval: u64, kind: PollKind) -> int {
    if kind == PollKind::SlowDown {
        interval + 5
    } else {
        interval as int
    }
}

/// The address that the user is sent to: the complete one where the provider
/// gave it, the plain one otherwise.
pub open spec fn address_of(complete: Option<Seq<char>>, plain: Seq<char>) -> Seq<char> {
    match complete {
        Some(u) => u,
        None => plain,
    }
}

/// The interval that the provider names, or the default.
pub open spec fn interval_of(named: Option<i64>) -> i64 {
    match named {
        Some(i) => i,
        None => 5,
    }
}

impl DeviceAuthSlots {
    /// Slots in which nothing is pending.
    pub fn new() -> (r: Self)
        ensures
            r@ == empty_slots(),
    {
        DeviceAuthSlots { pending: None, url: None }
    }

    /// Forgets the pending authorization and its address.
    pub fn clear(&mut self)
        ensures
            final(self)@ == empty_slots(),
    {
        self.pending = None;
        self.url = None;
    }

    /// Forgets the address and keeps the pending authorization.
    pub fn clear_url(&mut self)
        ensures
            final(self)@ == (SlotsView { url: None, ..old(self)@ }),
    {
        self.url = None;
    }

    /// The address at which the user authorizes the device, if one is shown.
    pub fn current_url(&self) -> (r: Option<String>)
        ensures
            opt_text(r) == self@.url,
    {
        clone_opt(&self.url)
    }

    /// Whether the authorization with this device code is still the pending
    /// one. A poller asks before each poll, and stops where it is not.
    pub fn is_pending(&self, device_code: &str) -> (r: bool)
        ensures
            r == (self@.pending is Some && self@.pending->0.device_code == device_code@),
    {
        match &self.pending {
            Some(p) => str_eq(p.device_code.as_str(), device_code),
            None => false,
        }
    }

    /// Takes the outcome of a poll into the slots. After a success the
    /// caller brings the token into the account store first.
    pub fn settle(&mut self, kind: PollKind)
        ensures
            final(self)@ == after_poll(old(self)@, kind),
    {
        match kind {
            PollKind::Success | PollKind::Expired | PollKind::Denied => {
                self.clear();
            },
            PollKind::Pending | PollKind::SlowDown | PollKind::Transient => {},
        }
    }
}

/// What a caller is told of an authorization that the loopback surface
/// started: the address, the device code, the seconds until expiry and the
/// interval of polling.
#[derive(Debug)]
pub struct StartedAuth {
    pub url: String,
    pub device_code: String,
    pub expires_in: i64,
    pub interval: i64,
}

/// Makes an authorization that the provider has started the pending one. An
/// authorization that was pending before is overwritten. The new one expires
/// `expires_in` seconds after `now`, and its address is shown.
pub fn begin_authorization(
    slots: &mut DeviceAuthSlots,
    registration: &ClientRegistration,
    authorization: &DeviceAuthorization,
    region: &str,
    now: i64,
) -> (r: StartedAuth)
    requires
        i64::MIN <= now + authorization.expires_in <= i64::MAX,
    ensures
        final(slots)@ == (SlotsView {
            pending: Some(
                PendingView {
                    device_code: authorization.device_code@,
                    client_id: registration.client_id@,
                    client_secret: registration.client_secret@,
                    region: region@,
                    expires_at: (now + authorization.expires_in) as i64,
                },
            ),
            url: Some(
                address_of(
                    opt_text(authorization.verification_uri_complete),
                    authorization.verification_uri@,
                ),
            ),
        }),
        r.url@ == address_of(
            opt_text(authorization.verification_uri_complete),
            authorization.verification_uri@,
        ),
        r.device_code@ == authorization.device_code@,
        r.expires_in == authorization.expires_in,
        r.interval == interval_of(authorization.interval),
{
    let url = match &authorization.verification_uri_complete {
        Some(u) => u.clone(),
        None => authorization.verification_uri.clone(),
    };
    let interval = match authorization.interval {
        Some(i) => i,
        None => DEFAULT_INTERVAL,
    };
    slots.pending = Some(
        PendingDeviceAuth {
            device_code: authorization.device_code.clone(),
            client_id: registration.client_id.clone(),
            client_secret: registration.client_secret.clone(),
            region: String::from_str(region),
            expires_at: now + authorization.expires_in,
        },
    );
    slots.url = Some(url.clone());
    StartedAuth {
        url,
        device_code: authorization.device_code.clone(),
        expires_in: authorization.expires_in,
        interval,
    }
}

/// Shows the address of an authorization that the provider has started,
/// without making it the pending one: the caller keeps the device code and
/// polls with it. Returns all that the caller needs for that.
pub fn announce_authorization(
    slots: &mut DeviceAuthSlots,
    registration: ClientRegistration,
    authorization: DeviceAuthorization,
) -> (r: DeviceAuthInfo)
    ensures
        final(slots)@ == (SlotsView {
            url: Some(
                address_of(
                    opt_text(authorization.verification_uri_complete),
                    authorization.verification_uri@,
                ),
            ),
            ..old(slots)@
        }),
        r@ == (DeviceAuthInfoView {
            verification_uri: authorization.verification_uri@,
            verification_uri_complete: opt_text(authorization.verification_uri_complete),
            user_code: authorization.user_code@,
            device_code: authorization.device_code@,
            client_id: registration.client_id@,
            client_secret: registration.client_secret@,
            expires_in: authorization.expires_in,
            interval: interval_of(authorization.interval),
        }),
{
    let url = match &authorization.verification_uri_complete {
        Some(u) => u.clone(),
        None => authorization.verification_uri.clone(),
    };
    slots.url = Some(url);
    DeviceAuthInfo {
        verification_uri: authorization.verification_uri,
        verification_uri_complete: authorization.verification_uri_complete,
        user_code: authorization.user_code,
        device_code: authorization.device_code,
        client_id: registration.client_id,
        client_secret: registration.client_secret,
        expires_in: authorization.expires_in,
        interval: match authorization.interval {
            Some(i) => i,
            None => DEFAULT_INTERVAL,
        },
    }
}

/// Why a poll on demand was not made.
#[derive(Debug, Clone, Copy, PartialEq, Eq, Structural)]
pub enum PollError {
    /// No authorization is pending.
    NoPendingAuthorization,
}

impl PollError {
    pub open spec fn message_text(self) -> Seq<char> {
        "no pending authorization"@
    }

    pub fn message(&self) -> (r: String)
        ensures
            r@ == self.message_text(),
    {
        String::from_str("no pending authorization")
    }
}

/// What a poll on demand has to do next.
#[derive(Debug)]
pub enum PollPlan {
    /// Ask the token endpoint about this authorization.
    Ask(PendingDeviceAuth),
    /// The authorization has run out of time; there is nothing to ask.
    Expired,
}

/// Decides whether a poll on demand asks the token endpoint. Without a
/// pending authorization there is nothing to poll; one whose time has run
/// out at `now` is forgotten together with its address; any other is handed
/// out to be asked about.
pub fn prepare_poll(slots: &mut DeviceAuthSlots, now: i64) -> (r: Result<PollPlan, PollError>)
    ensures
        match old(slots)@.pending {
            None => r == Err::<PollPlan, PollError>(PollError::NoPendingAuthorization)
                && final(slots)@ == old(slots)@,
            Some(p) => if now > p.expires_at {
                r == Ok::<PollPlan, PollError>(PollPlan::Expired) && final(slots)@
                    == empty_slots()
            } else {
                r is Ok && (r->Ok_0 matches PollPlan::Ask(q) && q@ == p) && final(slots)@
                    == old(slots)@
            },
        },
{
    let pending = match &slots.pending {
        Some(p) => p.clone(),
        None => {
            return Err(PollError::NoPendingAuthorization);
        },
    };
    if now > pending.expires_at {
        slots.clear();
        return Ok(PollPlan::Expired);
    }
    Ok(PollPlan::Ask(pending))
}

/// The interval at which the caller polls after an outcome of the given
/// kind.
pub fn next_interval(interval: u64, kind: PollKind) -> (r: u64)
    requires
        kind == PollKind::SlowDown ==> interval + 5 <= u64::MAX,
    ensures
        r == interval_after(interval, kind),
        kind == PollKind::SlowDown ==> r > interval,
        kind == PollKind::Pending ==> r == interval,
{
    match kind {
        PollKind::SlowDown => interval + SLOW_DOWN_STEP,
        _ => interval,
    }
}

/// Whether the time of an authorization has run out: more than `expires_in`
/// seconds have passed since it was started.
pub fn deadline_passed(elapsed_secs: u64, elapsed_subsec_nanos: u32, expires_in: i64) -> (r: bool)
    requires
        expires_in >= 0,
    ensures
        r == (elapsed_secs > expires_in || (elapsed_secs == expires_in && elapsed_subsec_nanos
            > 0)),
{
    let limit: u64 = expires_in as u64;
    elapsed_secs > limit || (elapsed_secs == limit && elapsed_subsec_nanos > 0)
}

/// What the background poller does after a poll.
#[derive(Debug, Clone, Copy, PartialEq, Eq, Structural)]
pub enum PollerStep {
    /// Sleep for so many seconds and poll again.
    Again(u64),
    /// The authorization is over, with a token or without: stop.
    Stop,
}

/// The step that follows an outcome of the given kind.
pub open spec fn step_after(interval: u64, kind: PollKind) -> PollerStep {
    if kind.is_terminal() {
        PollerStep::Stop
    } else {
        PollerStep::Again(interval_after(interval, kind) as u64)
    }
}

/// Takes the outcome of a background poll into the slots and says what the
/// poller does next. A transient failure is tried again at the same pace, as
/// often as it happens. A granted token has been brought into the account
/// store by the caller before the slots are cleared here.
pub fn background_step(slots: &mut DeviceAuthSlots, interval: u64, kind: PollKind) -> (r:
    PollerStep)
    requires
        kind == PollKind::SlowDown ==> interval + 5 <= u64::MAX,
    ensures
        final(slots)@ == after_poll(old(slots)@, kind),
        r == step_after(interval, kind),
{
    slots.settle(kind);
    match kind {
        PollKind::Success | PollKind::Expired | PollKind::Denied => PollerStep::Stop,
        PollKind::Pending | PollKind::SlowDown | PollKind::Transient => PollerStep::Again(
            next_interval(interval, kind),
        ),
    }
}

/// What a granted token, the client it was granted to and the usage snapshot
/// make of a credential.
pub open spec fn device_credential_view(
    grant: TokenGrantView,
    client_id: Seq<char>,
    client_secret: Seq<char>,
    region: Seq<char>,
    user_id: Option<Seq<char>>,
    usage_data: serde_json::Value,
    expires_at: Seq<char>,
) -> CredentialView {
    CredentialView {
        access_token: grant.access_token,
        refresh_token: grant.refresh_token,
        user_id,
        expires_at: Some(expires_at),
        profile_arn: None,
        csrf_token: None,
        client_id_hash: Some(fingerprint_of(start_url())),
        client_id: Some(client_id),
        client_secret: Some(client_secret),
        region: Some(region),
        sso_session_id: grant.aws_sso_app_session_id,
        id_token: grant.id_token,
        usage_data,
        banned: false,
    }
}

/// The credential of a completed device-code grant. The account is linked to
/// the registered client by the fingerprint of the provider's start page.
pub fn device_credential(
    grant: TokenGrant,
    client_id: &str,
    client_secret: &str,
    region: &str,
    user_id: Option<String>,
    usage_data: serde_json::Value,
    expires_at: String,
) -> (r: Credential)
    ensures
        r@ == device_credential_view(
            grant@,
            client_id@,
            client_secret@,
            region@,
            opt_text(user_id),
            usage_data,
            expires_at@,
        ),
{
    Credential {
        access_token: grant.access_token,
        refresh_token: grant.refresh_token,
        user_id,
        expires_at: Some(expires_at),
        profile_arn: None,
        csrf_token: None,
        client_id_hash: Some(fingerprint("https://view.awsapps.com/start")),
        client_id: Some(String::from_str(client_id)),
        client_secret: Some(String::from_str(client_secret)),
        region: Some(String::from_str(region)),
        sso_session_id: grant.aws_sso_app_session_id,
        id_token: grant.id_token,
        usage_data,
        banned: false,
    }
}

/// The identity under which a device-code grant is stored.
pub open spec fn device_identity(told: Option<Seq<char>>) -> Seq<char> {
    match told {
        Some(e) => e,
        None => "user@builder.id"@,
    }
}

/// Brings a completed device-code grant into the account store, under the
/// identity that the usage snapshot tells or a placeholder where it tells
/// none. Returns the account as it stands in the store.
pub fn reconcile_device_login(
    store: &mut AccountStore,
    grant: TokenGrant,
    client_id: &str,
    client_secret: &str,
    region: &str,
    told_email: Option<String>,
    user_id: Option<String>,
    usage_data: serde_json::Value,
    expires_at: String,
) -> (r: Account)
    ensures
        final(store)@ == upserted(
            old(store)@,
            r@.id,
            r@.added_at,
            device_identity(opt_text(told_email)),
            device_provider(),
            LoginFlow::DeviceCode,
            "Kiro "@ + device_provider() + " 账号"@,
            device_credential_view(
                grant@,
                client_id@,
                client_secret@,
                region@,
                opt_text(user_id),
                usage_data,
                expires_at@,
            ),
        ),
        r@ == first_with_key(
            final(store)@,
            device_identity(opt_text(told_email)),
            device_provider(),
        ),
        r@.email == device_identity(opt_text(told_email)),
        r@.access_token == Some(grant@.access_token),
        r@.refresh_token == Some(grant@.refresh_token),
        r@.expires_at == Some(expires_at@),
{
    let email = derive_identity(&told_email, LoginFlow::DeviceCode, "BuilderId", "");
    let label = account_label("BuilderId");
    let credential = device_credential(
        grant,
        client_id,
        client_secret,
        region,
        user_id,
        usage_data,
        expires_at,
    );
    proof {
        crate::account_laws::match_or_none(old(store)@, email@, device_provider());
    }
    upsert(store, email.as_str(), "BuilderId", LoginFlow::DeviceCode, label.as_str(), credential)
}

/// Makes an authorization that the provider has started the pending one,
/// counting its time from the present moment. Where the moment of expiry
/// cannot be written as seconds since the epoch, nothing is changed and
/// nothing returned. That cannot happen to a time of expiry that can be added
/// to every moment the clock may show.
pub fn start_pending(
    slots: &mut DeviceAuthSlots,
    registration: &ClientRegistration,
    authorization: &DeviceAuthorization,
    region: &str,
) -> (r: Option<StartedAuth>)
    ensures
        i64::MIN - earliest_second() <= authorization.expires_in <= i64::MAX - latest_second()
            ==> r is Some,
        match r {
            Some(started) => {
                &&& final(slots)@.pending is Some
                &&& final(slots)@.pending->0 == (PendingView {
                    device_code: authorization.device_code@,
                    client_id: registration.client_id@,
                    client_secret: registration.client_secret@,
                    region: region@,
                    expires_at: final(slots)@.pending->0.expires_at,
                })
                &&& earliest_second() <= final(slots)@.pending->0.expires_at
                    - authorization.expires_in <= latest_second()
                &&& final(slots)@.url == Some(
                    address_of(
                        opt_text(authorization.verification_uri_complete),
                        authorization.verification_uri@,
                    ),
                )
                &&& started.url@ == address_of(
                    opt_text(authorization.verification_uri_complete),
                    authorization.verification_uri@,
                )
                &&& started.device_code@ == authorization.device_code@
                &&& started.expires_in == authorization.expires_in
                &&& started.interval == interval_of(authorization.interval)
            },
            None => final(slots)@ == old(slots)@,
        },
{
    let now = unix_now();
    match now.checked_add(authorization.expires_in) {
        Some(_) => Some(begin_authorization(slots, registration, authorization, region, now)),
        None => None,
    }
}

/// Decides at the present moment whether a poll on demand asks the token
/// endpoint. Without a pending authorization there is nothing to poll.
pub fn prepare_poll_now(slots: &mut DeviceAuthSlots) -> (r: Result<PollPlan, PollError>)
    ensures
        match old(slots)@.pending {
            None => r == Err::<PollPlan, PollError>(PollError::NoPendingAuthorization)
                && final(slots)@ == old(slots)@,
            Some(p) => r is Ok && match r->Ok_0 {
                PollPlan::Expired => final(slots)@ == empty_slots(),
                PollPlan::Ask(q) => q@ == p && final(slots)@ == old(slots)@,
            },
        },
{
    prepare_poll(slots, unix_now())
}

/// Brings a completed device-code grant into the account store, with the
/// moment at which its token expires counted from now. Where that moment
/// cannot be written down, the store stays as it is and nothing is returned:
/// always where the token lasts longer than any span of time that can be
/// added to a moment, and otherwise where the clock stands too near the end
/// of the calendar.
pub fn complete_device_login(
    store: &mut AccountStore,
    grant: TokenGrant,
    client_id: &str,
    client_secret: &str,
    region: &str,
    told_email: Option<String>,
    user_id: Option<String>,
    usage_data: serde_json::Value,
) -> (r: Option<Account>)
    ensures
        match r {
            Some(a) => {
                &&& a@.expires_at is Some
                &&& final(store)@ == upserted(
                    old(store)@,
                    a@.id,
                    a@.added_at,
                    device_identity(opt_text(told_email)),
                    device_provider(),
                    LoginFlow::DeviceCode,
                    "Kiro "@ + device_provider() + " 账号"@,
                    device_credential_view(
                        grant@,
                        client_id@,
                        client_secret@,
                        region@,
                        opt_text(user_id),
                        usage_data,
                        a@.expires_at->0,
                    ),
                )
                &&& a@ == first_with_key(
                    final(store)@,
                    device_identity(opt_text(told_email)),
                    device_provider(),
                )
                &&& is_span(grant.expires_in)
            },
            None => final(store)@ == old(store)@,
        },
        !is_span(grant.expires_in) ==> r is None,
{
    match local_timestamp_after(grant.expires_in) {
        Some(stamp) => Some(
            reconcile_device_login(
                store,
                grant,
                client_id,
                client_secret,
                region,
                told_email,
                user_id,
                usage_data,
                stamp,
            ),
        ),
        None => None,
    }
}

} // verus!
