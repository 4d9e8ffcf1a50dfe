//! Bringing a self-hosted runner for a hosted Git forge to the state where
//! it is installed, registered, configured and running as a service.
//!
//! This crate decides; it does not act. Every function here works on plain
//! values: it says which request is to be sent, which subprocess is to be
//! run, which directory is to be created, and it takes how that went and
//! says what follows. Sending, running and creating are the caller's part.
//! So the rules of the workflow can be stated and are proved: which release
//! is taken, when a runner counts as up to date, what the text of the
//! service script calls for, and that a registered runner is not registered
//! again.
//!
//! The work begins with [`ensure_actions_runner`]. The modules follow the
//! parts of the work: [`install_runner`], [`registration`],
//! [`configure_runner`], [`service`].

pub mod authentication;
pub mod command;
pub mod configure_runner;
pub mod error;
pub mod find_release;
pub mod http;
pub mod install_runner;
pub mod json;
pub mod org_or_repo;
pub mod path;
pub mod registration;
pub mod service;
pub mod text;
pub mod token;
pub mod workflow;

pub use crate::error::Error;
pub use crate::workflow::ensure_actions_runner;
