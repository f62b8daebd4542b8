//! Accounts of a service, provisioned and signed in on behalf of a user.
//!
//! Two state machines make up the crate. The first supervises a run of an
//! automation worker: it takes the worker's output line by line, keeps the
//! log and the step shown, pairs each disclosed identity with its secret, and
//! ends the run on request or when the worker ends ([`run`], [`launch`],
//! [`run_laws`]). The second drives a device-code grant: it keeps the pending
//! authorization, reads each answer of the token endpoint, adapts the pace of
//! polling, and brings a granted token into the account store ([`device`],
//! [`device_laws`], [`account`], [`account_laws`]).
//!
//! The crate decides and the caller acts: files, processes, sockets and locks
//! are the caller's. The few calls that leave the crate stand in [`outside`],
//! each with a statement of what is taken on trust.

use vstd::prelude::*;

pub mod account;
pub mod account_laws;
pub mod config;
pub mod device;
pub mod device_laws;
pub mod history;
pub mod http;
pub mod launch;
pub mod locate;
pub mod outside;
pub mod proxy;
pub mod python;
pub mod run;
pub mod run_laws;
pub mod script;
pub mod session;
pub mod text;
