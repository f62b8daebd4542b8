//! The registration history and the store that keeps it beside the
//! configuration.

use vstd::prelude::*;

use crate::config::{
    check_config, first_violation, AutoRegisterConfig, AutoRegisterConfigView, ConfigError,
};
use crate::outside::{fresh_id, local_timestamp};
use crate::text::{clone_opt, opt_text};

verus! {

/// One disclosed identity and secret, with the outcome of its registration.
#[derive(Debug)]
pub struct RegistrationRecord {
    pub id: String,
    pub timestamp: String,
    pub email: String,
    pub password: String,
    /// `success` or `failed`.
    pub status: String,
    pub error: Option<String>,
    pub account_id: Option<String>,
}

pub struct RegistrationRecordView {
    pub id: Seq<char>,
    pub timestamp: Seq<char>,
    pub email: Seq<char>,
    pub password: Seq<char>,
    pub status: Seq<char>,
    pub error: Option<Seq<char>>,
    pub account_id: Option<Seq<char>>,
}

impl View for RegistrationRecord {
    type V = RegistrationRecordView;

    open spec fn view(&self) -> RegistrationRecordView {
        RegistrationRecordView {
            id: self.id@,
            timestamp: self.timestamp@,
            email: self.email@,
            password: self.password@,
            status: self.status@,
            error: opt_text(self.error),
            account_id: opt_text(self.account_id),
        }
    }
}

impl Clone for RegistrationRecord {
    fn clone(&self) -> (r: Self)
        ensures
            r@ == self@,
    {
        RegistrationRecord {
            id: self.id.clone(),
            timestamp: self.timestamp.clone(),
            email: self.email.clone(),
            password: self.password.clone(),
            status: self.status.clone(),
            error: clone_opt(&self.error),
            account_id: clone_opt(&self.account_id),
        }
    }
}

impl RegistrationRecord {
    /// The record of a registration that was given `id` and happened at
    /// `timestamp`. It carries no error and is linked to no account.
    pub fn stamped(
        id: String,
        timestamp: String,
        email: String,
        password: String,
        status: String,
    ) -> (r: Self)
        ensures
            r@ == (RegistrationRecordView {
                id: id@,
                timestamp: timestamp@,
                email: email@,
                password: password@,
                status: status@,
                error: None,
                account_id: None,
            }),
    {
        RegistrationRecord { id, timestamp, email, password, status, error: None, account_id: None }
    }

    /// A record with a fresh identifier and the present local time.
    pub fn new(email: String, password: String, status: String) -> (r: Self)
        ensures
            r@.email == email@,
            r@.password == password@,
            r@.status == status@,
            r@.error is None,
            r@.account_id is None,
            r@.id.len() == 36,
    {
        RegistrationRecord::stamped(fresh_id(), local_timestamp(), email, password, status)
    }
}

/// What each record of a list holds.
pub open spec fn records(v: Seq<RegistrationRecord>) -> Seq<RegistrationRecordView> {
    v.map_values(|r: RegistrationRecord| r@)
}

/// The configuration in force and the history of registrations, most recent
/// first, with the places where the two are kept on disk.
pub struct AutoRegisterConfigStore {
    config: AutoRegisterConfig,
    history: Vec<RegistrationRecord>,
    config_path: String,
    history_path: String,
}

pub struct StoreContent {
    pub config: AutoRegisterConfigView,
    pub history: Seq<RegistrationRecordView>,
    pub config_path: Seq<char>,
    pub history_path: Seq<char>,
}

impl View for AutoRegisterConfigStore {
    type V = StoreContent;

    closed spec fn view(&self) -> StoreContent {
        StoreContent {
            config: self.config@,
            history: records(self.history@),
            config_path: self.config_path@,
            history_path: self.history_path@,
        }
    }
}

impl AutoRegisterConfigStore {
    /// A store that holds what was read from the two files.
    pub fn new(
        config: AutoRegisterConfig,
        history: Vec<RegistrationRecord>,
        config_path: String,
        history_path: String,
    ) -> (r: Self)
        ensures
            r@ == (StoreContent {
                config: config@,
                history: records(history@),
                config_path: config_path@,
                history_path: history_path@,
            }),
    {
        AutoRegisterConfigStore { config, history, config_path, history_path }
    }

    pub fn get_config(&self) -> (r: AutoRegisterConfig)
        ensures
            r@ == self@.config,
    {
        self.config.clone()
    }

    pub fn get_history(&self) -> (r: Vec<RegistrationRecord>)
        ensures
            records(r@) == self@.history,
    {
        let r = self.history.clone();
        assert(records(r@) =~= records(self.history@));
        r
    }

    pub fn config_path(&self) -> (r: &str)
        ensures
            r@ == self@.config_path,
    {
        self.config_path.as_str()
    }

    pub fn history_path(&self) -> (r: &str)
        ensures
            r@ == self@.history_path,
    {
        self.history_path.as_str()
    }

    /// Reports the first rule that `config` breaks.
    pub fn validate_config(config: &AutoRegisterConfig) -> (r: Result<(), ConfigError>)
        ensures
            r == match first_violation(config@) {
                Some(e) => Err::<(), ConfigError>(e),
                None => Ok(()),
            },
    {
        check_config(config)
    }

    /// Puts `config` in force where it breaks no rule, and leaves the store as
    /// it was where it breaks one.
    pub fn save_config(&mut self, config: AutoRegisterConfig) -> (r: Result<(), ConfigError>)
        ensures
            r == match first_violation(config@) {
                Some(e) => Err::<(), ConfigError>(e),
                None => Ok(()),
            },
            r is Ok ==> final(self)@ == (StoreContent { config: config@, ..old(self)@ }),
            r is Err ==> final(self)@ == old(self)@,
    {
        match check_config(&config) {
            Ok(()) => {
                self.config = config;
                Ok(())
            },
            Err(e) => Err(e),
        }
    }

    /// Puts `record` at the head of the history.
    pub fn add_record(&mut self, record: RegistrationRecord)
        ensures
            final(self)@ == (StoreContent {
                history: seq![record@] + old(self)@.history,
                ..old(self)@
            }),
    {
        self.history.insert(0, record);
        assert(records(self.history@) =~= seq![record@] + records(old(self).history@));
    }

    /// Empties the history.
    pub fn clear_history(&mut self)
        ensures
            final(self)@ == (StoreContent { history: Seq::empty(), ..old(self)@ }),
    {
        self.history.clear();
        assert(records(self.history@) =~= Seq::empty());
    }
}

/// Records a registration reported from outside a run: a fresh record with
/// the given error and account link goes to the head of the history, and a
/// copy of it is returned.
pub fn add_registration_record(
    store: &mut AutoRegisterConfigStore,
    email: String,
    password: String,
    status: String,
    error: Option<String>,
    account_id: Option<String>,
) -> (r: RegistrationRecord)
    ensures
        r@.email == email@,
        r@.password == password@,
        r@.status == status@,
        r@.error == opt_text(error),
        r@.account_id == opt_text(account_id),
        r@.id.len() == 36,
        final(store)@ == (StoreContent { history: seq![r@] + old(store)@.history, ..old(store)@ }),
{
    let mut record = RegistrationRecord::new(email, password, status);
    record.error = error;
    record.account_id = account_id;
    let copy = record.clone();
    store.add_record(record);
    copy
}

} // verus!
