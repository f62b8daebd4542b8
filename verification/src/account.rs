//! The account store and the one way in which a credential enters it.
//!
//! Every login, whatever its flow, ends in [`upsert`]: the record of the same
//! identity and provider is refreshed in place, or a new record is put at the
//! head of the store.

use vstd::prelude::*;

use crate::outside::{fresh_id, local_timestamp, lowercased, to_lowercase};
use crate::text::{clone_opt, join3, opt_is, opt_text, starts_with, str_eq};

verus! {

/// One account: who it belongs to, the provider that vouches for it, its
/// credentials and what links it to the provider.
#[derive(Debug)]
pub struct Account {
    pub id: String,
    pub email: String,
    pub label: String,
    pub status: String,
    pub added_at: String,
    pub provider: Option<String>,
    pub user_id: Option<String>,
    pub access_token: Option<String>,
    pub refresh_token: Option<String>,
    pub csrf_token: Option<String>,
    pub expires_at: Option<String>,
    pub profile_arn: Option<String>,
    pub client_id_hash: Option<String>,
    pub client_id: Option<String>,
    pub client_secret: Option<String>,
    pub region: Option<String>,
    pub sso_session_id: Option<String>,
    pub id_token: Option<String>,
    /// What the provider last told of the account's usage, kept as it came.
    pub usage_data: Option<serde_json::Value>,
}

pub struct AccountView {
    pub id: Seq<char>,
    pub email: Seq<char>,
    pub label: Seq<char>,
    pub status: Seq<char>,
    pub added_at: Seq<char>,
    pub provider: Option<Seq<char>>,
    pub user_id: Option<Seq<char>>,
    pub access_token: Option<Seq<char>>,
    pub refresh_token: Option<Seq<char>>,
    pub csrf_token: Option<Seq<char>>,
    pub expires_at: Option<Seq<char>>,
    pub profile_arn: Option<Seq<char>>,
    pub client_id_hash: Option<Seq<char>>,
    pub client_id: Option<Seq<char>>,
    pub client_secret: Option<Seq<char>>,
    pub region: Option<Seq<char>>,
    pub sso_session_id: Option<Seq<char>>,
    pub id_token: Option<Seq<char>>,
    pub usage_data: Option<serde_json::Value>,
}

impl View for Account {
    type V = AccountView;

    open spec fn view(&self) -> AccountView {
        AccountView {
            id: self.id@,
            email: self.email@,
            label: self.label@,
            status: self.status@,
            added_at: self.added_at@,
            provider: opt_text(self.provider),
            user_id: opt_text(self.user_id),
            access_token: opt_text(self.access_token),
            refresh_token: opt_text(self.refresh_token),
            csrf_token: opt_text(self.csrf_token),
            expires_at: opt_text(self.expires_at),
            profile_arn: opt_text(self.profile_arn),
            client_id_hash: opt_text(self.client_id_hash),
            client_id: opt_text(self.client_id),
            client_secret: opt_text(self.client_secret),
            region: opt_text(self.region),
            sso_session_id: opt_text(self.sso_session_id),
            id_token: opt_text(self.id_token),
            usage_data: self.usage_data,
        }
    }
}

fn clone_payload(v: &Option<serde_json::Value>) -> (r: Option<serde_json::Value>)
    ensures
        r == *v,
{
    match v {
        Some(x) => Some(x.clone()),
        None => None,
    }
}

impl Clone for Account {
    fn clone(&self) -> (r: Self)
        ensures
            r@ == self@,
    {
        Account {
            id: self.id.clone(),
            email: self.email.clone(),
            label: self.label.clone(),
            status: self.status.clone(),
            added_at: self.added_at.clone(),
            provider: clone_opt(&self.provider),
            user_id: clone_opt(&self.user_id),
            access_token: clone_opt(&self.access_token),
            refresh_token: clone_opt(&self.refresh_token),
            csrf_token: clone_opt(&self.csrf_token),
            expires_at: clone_opt(&self.expires_at),
            profile_arn: clone_opt(&self.profile_arn),
            client_id_hash: clone_opt(&self.client_id_hash),
            client_id: clone_opt(&self.client_id),
            client_secret: clone_opt(&self.client_secret),
            region: clone_opt(&self.region),
            sso_session_id: clone_opt(&self.sso_session_id),
            id_token: clone_opt(&self.id_token),
            usage_data: clone_payload(&self.usage_data),
        }
    }
}

/// The status of an account in good standing.
pub open spec fn normal_status() -> Seq<char> {
    "正常"@
}

/// The status of an account that the provider has banned.
pub open spec fn banned_status() -> Seq<char> {
    "已封禁"@
}

/// The status that a ban signal calls for.
pub open spec fn status_for(banned: bool) -> Seq<char> {
    if banned {
        banned_status()
    } else {
        normal_status()
    }
}

/// An account that holds nothing but its identity.
pub open spec fn blank_account(
    id: Seq<char>,
    added_at: Seq<char>,
    email: Seq<char>,
    label: Seq<char>,
) -> AccountView {
    AccountView {
        id,
        email,
        label,
        status: normal_status(),
        added_at,
        provider: None,
        user_id: None,
        access_token: None,
        refresh_token: None,
        csrf_token: None,
        expires_at: None,
        profile_arn: None,
        client_id_hash: None,
        client_id: None,
        client_secret: None,
        region: None,
        sso_session_id: None,
        id_token: None,
        usage_data: None,
    }
}

impl Account {
    /// An account with the given identifier and time of entry, in good
    /// standing, without provider or credentials.
    pub fn stamped(id: String, added_at: String, email: String, label: String) -> (r: Self)
        ensures
            r@ == blank_account(id@, added_at@, email@, label@),
    {
        Account {
            id,
            email,
            label,
            status: String::from_str("正常"),
            added_at,
            provider: None,
            user_id: None,
            access_token: None,
            refresh_token: None,
            csrf_token: None,
            expires_at: None,
            profile_arn: None,
            client_id_hash: None,
            client_id: None,
            client_secret: None,
            region: None,
            sso_session_id: None,
            id_token: None,
            usage_data: None,
        }
    }

    /// An account with a fresh identifier, entered now.
    pub fn new(email: String, label: String) -> (r: Self)
        ensures
            r@ == blank_account(r@.id, r@.added_at, email@, label@),
            r@.id.len() == 36,
    {
        Account::stamped(fresh_id(), local_timestamp(), email, label)
    }
}

/// The way by which a credential was obtained. It decides which fields of a
/// record a login brings with it; the others are kept as they are.
#[derive(Debug, Clone, Copy, PartialEq, Eq, Structural)]
pub enum LoginFlow {
    /// A social login completed inside the application.
    Social,
    /// A login through the identity centre of an organisation.
    Idc,
    /// A device-code grant completed by polling.
    DeviceCode,
    /// A social login completed by a callback from the browser.
    SocialCallback,
    /// Credentials handed over from outside.
    Imported,
}

impl LoginFlow {
    /// Whether a login of this flow tells when its token expires.
    pub open spec fn brings_expiry(self) -> bool {
        self == LoginFlow::Social || self == LoginFlow::Idc || self == LoginFlow::DeviceCode
    }

    /// Whether a login of this flow tells the profile of the account.
    pub open spec fn brings_profile(self) -> bool {
        self == LoginFlow::Social || self == LoginFlow::Idc
    }

    /// Whether a login of this flow brings the registered client and session.
    pub open spec fn brings_client(self) -> bool {
        self == LoginFlow::Idc || self == LoginFlow::DeviceCode
    }

    /// Whether a login of this flow renames a record that exists.
    pub open spec fn brings_label(self) -> bool {
        self == LoginFlow::Social
    }

    /// Whether a login of this flow replaces the cross-site token of a
    /// record that exists.
    pub open spec fn replaces_csrf(self) -> bool {
        self == LoginFlow::Imported
    }

    /// Whether a login of this flow gives a new record its cross-site token.
    pub open spec fn seeds_csrf(self) -> bool {
        self == LoginFlow::Social || self == LoginFlow::Imported
    }
}

/// What a login brings: the tokens, what links the account to the provider,
/// the usage snapshot and the ban signal that came with it.
#[derive(Debug)]
pub struct Credential {
    pub access_token: String,
    pub refresh_token: String,
    pub user_id: Option<String>,
    pub expires_at: Option<String>,
    pub profile_arn: Option<String>,
    pub csrf_token: Option<String>,
    pub client_id_hash: Option<String>,
    pub client_id: Option<String>,
    pub client_secret: Option<String>,
    pub region: Option<String>,
    pub sso_session_id: Option<String>,
    pub id_token: Option<String>,
    pub usage_data: serde_json::Value,
    pub banned: bool,
}

pub struct CredentialView {
    pub access_token: Seq<char>,
    pub refresh_token: Seq<char>,
    pub user_id: Option<Seq<char>>,
    pub expires_at: Option<Seq<char>>,
    pub profile_arn: Option<Seq<char>>,
    pub csrf_token: Option<Seq<char>>,
    pub client_id_hash: Option<Seq<char>>,
    pub client_id: Option<Seq<char>>,
    pub client_secret: Option<Seq<char>>,
    pub region: Option<Seq<char>>,
    pub sso_session_id: Option<Seq<char>>,
    pub id_token: Option<Seq<char>>,
    pub usage_data: serde_json::Value,
    pub banned: bool,
}

impl View for Credential {
    type V = CredentialView;

    open spec fn view(&self) -> CredentialView {
        CredentialView {
            access_token: self.access_token@,
            refresh_token: self.refresh_token@,
            user_id: opt_text(self.user_id),
            expires_at: opt_text(self.expires_at),
            profile_arn: opt_text(self.profile_arn),
            csrf_token: opt_text(self.csrf_token),
            client_id_hash: opt_text(self.client_id_hash),
            client_id: opt_text(self.client_id),
            client_secret: opt_text(self.client_secret),
            region: opt_text(self.region),
            sso_session_id: opt_text(self.sso_session_id),
            id_token: opt_text(self.id_token),
            usage_data: self.usage_data,
            banned: self.banned,
        }
    }
}

/// The key of a login: whose account it is, and with which provider.
pub open spec fn has_key(a: AccountView, email: Seq<char>, provider: Seq<char>) -> bool {
    a.email == email && a.provider == Some(provider)
}

/// `a` after a login of `flow` brought `c`: the tokens, the user, the usage
/// snapshot and the status are replaced, and so is every other field that
/// the flow brings. What the flow does not bring stays.
pub open spec fn refreshed(
    a: AccountView,
    flow: LoginFlow,
    label: Seq<char>,
    c: CredentialView,
) -> AccountView {
    AccountView {
        access_token: Some(c.access_token),
        refresh_token: Some(c.refresh_token),
        user_id: c.user_id,
        usage_data: Some(c.usage_data),
        status: status_for(c.banned),
        expires_at: if flow.brings_expiry() {
            c.expires_at
        } else {
            a.expires_at
        },
        profile_arn: if flow.brings_profile() {
            c.profile_arn
        } else {
            a.profile_arn
        },
        label: if flow.brings_label() {
            label
        } else {
            a.label
        },
        csrf_token: if flow.replaces_csrf() {
            c.csrf_token
        } else {
            a.csrf_token
        },
        client_id_hash: if flow.brings_client() {
            c.client_id_hash
        } else {
            a.client_id_hash
        },
        client_id: if flow.brings_client() {
            c.client_id
        } else {
            a.client_id
        },
        client_secret: if flow.brings_client() {
            c.client_secret
        } else {
            a.client_secret
        },
        region: if flow.brings_client() {
            c.region
        } else {
            a.region
        },
        sso_session_id: if flow.brings_client() {
            c.sso_session_id
        } else {
            a.sso_session_id
        },
        id_token: if flow.brings_client() {
            c.id_token
        } else {
            a.id_token
        },
        ..a
    }
}

/// The record that a login of `flow` creates for an identity that the store
/// does not know yet.
pub open spec fn created(
    id: Seq<char>,
    added_at: Seq<char>,
    email: Seq<char>,
    provider: Seq<char>,
    flow: LoginFlow,
    label: Seq<char>,
    c: CredentialView,
) -> AccountView {
    AccountView {
        provider: Some(provider),
        access_token: Some(c.access_token),
        refresh_token: Some(c.refresh_token),
        user_id: c.user_id,
        usage_data: Some(c.usage_data),
        status: status_for(c.banned),
        expires_at: if flow.brings_expiry() {
            c.expires_at
        } else {
            None
        },
        profile_arn: if flow.brings_profile() {
            c.profile_arn
        } else {
            None
        },
        csrf_token: if flow.seeds_csrf() {
            c.csrf_token
        } else {
            None
        },
        client_id_hash: if flow.brings_client() {
            c.client_id_hash
        } else {
            None
        },
        client_id: if flow.brings_client() {
            c.client_id
        } else {
            None
        },
        client_secret: if flow.brings_client() {
            c.client_secret
        } else {
            None
        },
        region: if flow.brings_client() {
            c.region
        } else {
            None
        },
        sso_session_id: if flow.brings_client() {
            c.sso_session_id
        } else {
            None
        },
        id_token: if flow.brings_client() {
            c.id_token
        } else {
            None
        },
        ..blank_account(id, added_at, email, label)
    }
}

/// What each account of a list holds.
pub open spec fn account_views(v: Seq<Account>) -> Seq<AccountView> {
    v.map_values(|a: Account| a@)
}

/// Whether the record at `i` is the first with the key.
pub open spec fn is_first_match(
    accounts: Seq<AccountView>,
    email: Seq<char>,
    provider: Seq<char>,
    i: int,
) -> bool {
    &&& 0 <= i < accounts.len()
    &&& has_key(accounts[i], email, provider)
    &&& forall|j: int| 0 <= j < i ==> !has_key(#[trigger] accounts[j], email, provider)
}

/// The first record with the key, in a store that has one.
pub open spec fn first_with_key(
    accounts: Seq<AccountView>,
    email: Seq<char>,
    provider: Seq<char>,
) -> AccountView {
    accounts[choose|i: int| is_first_match(accounts, email, provider, i)]
}

/// Whether no record has the key.
pub open spec fn no_match(
    accounts: Seq<AccountView>,
    email: Seq<char>,
    provider: Seq<char>,
) -> bool {
    forall|j: int| 0 <= j < accounts.len() ==> !has_key(#[trigger] accounts[j], email, provider)
}

/// The store after a login: the first record with the key refreshed, or a
/// new record before all others.
pub open spec fn upserted(
    accounts: Seq<AccountView>,
    id: Seq<char>,
    added_at: Seq<char>,
    email: Seq<char>,
    provider: Seq<char>,
    flow: LoginFlow,
    label: Seq<char>,
    c: CredentialView,
) -> Seq<AccountView> {
    if exists|i: int| is_first_match(accounts, email, provider, i) {
        let i = choose|i: int| is_first_match(accounts, email, provider, i);
        accounts.update(i, refreshed(accounts[i], flow, label, c))
    } else {
        seq![created(id, added_at, email, provider, flow, label, c)] + accounts
    }
}

/// The accounts, most recently created first.
pub struct AccountStore {
    pub accounts: Vec<Account>,
}

impl View for AccountStore {
    type V = Seq<AccountView>;

    open spec fn view(&self) -> Seq<AccountView> {
        account_views(self.accounts@)
    }
}

impl AccountStore {
    /// A store that holds the accounts that were read from the file.
    pub fn new(accounts: Vec<Account>) -> (r: Self)
        ensures
            r@ == account_views(accounts@),
    {
        AccountStore { accounts }
    }

    /// The place of the first record with the key.
    pub fn find(&self, email: &str, provider: &str) -> (r: Option<usize>)
        ensures
            match r {
                Some(i) => is_first_match(self@, email@, provider@, i as int),
                None => no_match(self@, email@, provider@),
            },
    {
        let mut i: usize = 0;
        while i < self.accounts.len()
            invariant
                i <= self.accounts.len(),
                forall|j: int| 0 <= j < i ==> !has_key(#[trigger] self@[j], email@, provider@),
            decreases self.accounts.len() - i,
        {
            let a = &self.accounts[i];
            if str_eq(a.email.as_str(), email) && opt_is(&a.provider, provider) {
                return Some(i);
            }
            i += 1;
        }
        None
    }
}

/// Brings what a login of `flow` carries into the record `a`.
pub fn refresh(a: &mut Account, flow: LoginFlow, label: &str, c: Credential)
    ensures
        final(a)@ == refreshed(old(a)@, flow, label@, c@),
{
    a.access_token = Some(c.access_token);
    a.refresh_token = Some(c.refresh_token);
    a.user_id = c.user_id;
    a.usage_data = Some(c.usage_data);
    a.status = String::from_str(
        if c.banned {
            "已封禁"
        } else {
            "正常"
        },
    );
    match flow {
        LoginFlow::Social => {
            a.expires_at = c.expires_at;
            a.profile_arn = c.profile_arn;
            a.label = String::from_str(label);
        },
        LoginFlow::Idc => {
            a.expires_at = c.expires_at;
            a.profile_arn = c.profile_arn;
            a.client_id_hash = c.client_id_hash;
            a.client_id = c.client_id;
            a.client_secret = c.client_secret;
            a.region = c.region;
            a.sso_session_id = c.sso_session_id;
            a.id_token = c.id_token;
        },
        LoginFlow::DeviceCode => {
            a.expires_at = c.expires_at;
            a.client_id_hash = c.client_id_hash;
            a.client_id = c.client_id;
            a.client_secret = c.client_secret;
            a.region = c.region;
            a.sso_session_id = c.sso_session_id;
            a.id_token = c.id_token;
        },
        LoginFlow::SocialCallback => {},
        LoginFlow::Imported => {
            a.csrf_token = c.csrf_token;
        },
    }
}

/// The record that a login of `flow` creates.
pub fn create(
    id: String,
    added_at: String,
    email: &str,
    provider: &str,
    flow: LoginFlow,
    label: &str,
    c: Credential,
) -> (r: Account)
    ensures
        r@ == created(id@, added_at@, email@, provider@, flow, label@, c@),
{
    let mut a = Account::stamped(id, added_at, String::from_str(email), String::from_str(label));
    a.provider = Some(String::from_str(provider));
    a.access_token = Some(c.access_token);
    a.refresh_token = Some(c.refresh_token);
    a.user_id = c.user_id;
    a.usage_data = Some(c.usage_data);
    a.status = String::from_str(
        if c.banned {
            "已封禁"
        } else {
            "正常"
        },
    );
    match flow {
        LoginFlow::Social => {
            a.expires_at = c.expires_at;
            a.profile_arn = c.profile_arn;
            a.csrf_token = c.csrf_token;
        },
        LoginFlow::Idc => {
            a.expires_at = c.expires_at;
            a.profile_arn = c.profile_arn;
            a.client_id_hash = c.client_id_hash;
            a.client_id = c.client_id;
            a.client_secret = c.client_secret;
            a.region = c.region;
            a.sso_session_id = c.sso_session_id;
            a.id_token = c.id_token;
        },
        LoginFlow::DeviceCode => {
            a.expires_at = c.expires_at;
            a.client_id_hash = c.client_id_hash;
            a.client_id = c.client_id;
            a.client_secret = c.client_secret;
            a.region = c.region;
            a.sso_session_id = c.sso_session_id;
            a.id_token = c.id_token;
        },
        LoginFlow::SocialCallback => {},
        LoginFlow::Imported => {
            a.csrf_token = c.csrf_token;
        },
    }
    a
}

/// Brings a credential into the store.
///
/// The first record of the same identity and provider is refreshed in place;
/// where there is none, a new record with a fresh identifier is put before
/// all others. The record as it stands afterwards is returned. The caller
/// writes the store to disk.
pub fn upsert(
    store: &mut AccountStore,
    email: &str,
    provider: &str,
    flow: LoginFlow,
    label: &str,
    c: Credential,
) -> (r: Account)
    ensures
        final(store)@ == upserted(
            old(store)@,
            r@.id,
            r@.added_at,
            email@,
            provider@,
            flow,
            label@,
            c@,
        ),
        (exists|i: int| is_first_match(old(store)@, email@, provider@, i)) ==> r@ == refreshed(
            old(store)@[choose|i: int| is_first_match(old(store)@, email@, provider@, i)],
            flow,
            label@,
            c@,
        ),
        no_match(old(store)@, email@, provider@) ==> r@ == created(
            r@.id,
            r@.added_at,
            email@,
            provider@,
            flow,
            label@,
            c@,
        ) && r@.id.len() == 36,
        exists|i: int| is_first_match(final(store)@, email@, provider@, i),
        r@ == first_with_key(final(store)@, email@, provider@),
{
    match store.find(email, provider) {
        Some(i) => {
            proof {
                let k = choose|k: int| is_first_match(old(store)@, email@, provider@, k);
                assert(is_first_match(old(store)@, email@, provider@, i as int));
                if k < i {
                    assert(has_key(old(store)@[k], email@, provider@));
                }
                if i < k {
                    assert(has_key(old(store)@[i as int], email@, provider@));
                }
                assert(k == i);
            }
            let mut a = store.accounts[i].clone();
            refresh(&mut a, flow, label, c);
            let copy = a.clone();
            store.accounts.set(i, a);
            assert(store@ =~= old(store)@.update(i as int, copy@));
            proof {
                assert(has_key(store@[i as int], email@, provider@));
                assert forall|j: int| 0 <= j < i implies !has_key(
                    #[trigger] store@[j],
                    email@,
                    provider@,
                ) by {
                    assert(store@[j] == old(store)@[j]);
                }
                assert(is_first_match(store@, email@, provider@, i as int));
                let k = choose|k: int| is_first_match(store@, email@, provider@, k);
                if k < i {
                    assert(has_key(store@[k], email@, provider@));
                }
                if i < k {
                    assert(has_key(store@[i as int], email@, provider@));
                }
            }
            copy
        },
        None => {
            proof {
                if exists|k: int| is_first_match(old(store)@, email@, provider@, k) {
                    let k = choose|k: int| is_first_match(old(store)@, email@, provider@, k);
                    assert(has_key(old(store)@[k], email@, provider@));
                }
            }
            let a = create(fresh_id(), local_timestamp(), email, provider, flow, label, c);
            let copy = a.clone();
            store.accounts.insert(0, a);
            assert(store@ =~= seq![copy@] + old(store)@);
            proof {
                assert(has_key(store@[0], email@, provider@));
                assert(is_first_match(store@, email@, provider@, 0));
                let k = choose|k: int| is_first_match(store@, email@, provider@, k);
                if 0 < k {
                    assert(has_key(store@[0], email@, provider@));
                }
            }
            copy
        },
    }
}

/// Whether the provider's answer to a question about usage says that the
/// account is banned.
pub fn is_ban_signal(message: &str) -> (r: bool)
    ensures
        r == "BANNED:"@.is_prefix_of(message@),
{
    starts_with(message, "BANNED:")
}

/// The name under which an account of `provider` is shown.
pub fn account_label(provider: &str) -> (r: String)
    ensures
        r@ == "Kiro "@ + provider@ + " 账号"@,
{
    join3("Kiro ", provider, " 账号")
}

/// The identity that stands for an account whose provider told none.
pub open spec fn placeholder_identity(
    flow: LoginFlow,
    provider: Seq<char>,
    given: Seq<char>,
) -> Seq<char> {
    match flow {
        LoginFlow::Social => "user@"@ + lowercased(provider) + ".social"@,
        LoginFlow::SocialCallback => "user@"@ + lowercased(provider) + ".com"@,
        LoginFlow::Idc => "user@builder.id"@,
        LoginFlow::DeviceCode => "user@builder.id"@,
        LoginFlow::Imported => given,
    }
}

/// The identity of an account: the one that the usage snapshot tells, or a
/// placeholder where it tells none.
pub fn derive_identity(
    told: &Option<String>,
    flow: LoginFlow,
    provider: &str,
    given: &str,
) -> (r: String)
    ensures
        r@ == match opt_text(*told) {
            Some(e) => e,
            None => placeholder_identity(flow, provider@, given@),
        },
{
    match told {
        Some(e) => e.clone(),
        None => match flow {
            LoginFlow::Social => join3("user@", to_lowercase(provider).as_str(), ".social"),
            LoginFlow::SocialCallback => join3("user@", to_lowercase(provider).as_str(), ".com"),
            LoginFlow::Idc => String::from_str("user@builder.id"),
            LoginFlow::DeviceCode => String::from_str("user@builder.id"),
            LoginFlow::Imported => String::from_str(given),
        },
    }
}

/// Brings the credential of a login into the store under the identity that
/// the usage snapshot tells, or under a placeholder where it tells none, and
/// under the name that accounts of the provider are shown with. Returns the
/// account as it stands in the store.
pub fn reconcile_login(
    store: &mut AccountStore,
    flow: LoginFlow,
    provider: &str,
    told_email: &Option<String>,
    given_email: &str,
    c: Credential,
) -> (r: Account)
    ensures
        final(store)@ == upserted(
            old(store)@,
            r@.id,
            r@.added_at,
            match opt_text(*told_email) {
                Some(e) => e,
                None => placeholder_identity(flow, provider@, given_email@),
            },
            provider@,
            flow,
            "Kiro "@ + provider@ + " 账号"@,
            c@,
        ),
        r@ == first_with_key(
            final(store)@,
            match opt_text(*told_email) {
                Some(e) => e,
                None => placeholder_identity(flow, provider@, given_email@),
            },
            provider@,
        ),
{
    let email = derive_identity(told_email, flow, provider, given_email);
    let label = account_label(provider);
    upsert(store, email.as_str(), provider, flow, label.as_str(), c)
}

} // verus!
