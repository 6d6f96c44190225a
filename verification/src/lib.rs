//! Token lifecycle and revocation engine for an authentication service.
//!
//! The library mints and verifies signed access and refresh tokens, keeps the
//! rules of single-use refresh rotation against a time-bounded ledger, and
//! drives the login, refresh and session-check flows as step functions whose
//! backend work (directory, user table, ledger store) is done by the caller.
//!
//! - [`token_service`] mints and verifies tokens; [`token_model`] holds what a
//!   token carries.
//! - [`identity`] resolves principals in a directory or a user table.
//! - [`auth_handler`] holds the three flows, [`jwt_auth`] the admission of a
//!   request by its bearer token, [`auth_error`] the failures.
//! - [`ledger`] says what the flows take the ledger to be, and [`protocol`]
//!   what they guarantee against a ledger and a resolver that answer
//!   truthfully.
//! - [`user_handler`] registers and deletes users in the directory;
//!   [`user_model`], [`user_service`] and [`response`] hold the user records
//!   and their projections; [`decimal`] reads and writes identifiers.

pub mod auth_error;
pub mod auth_handler;
pub mod decimal;
pub mod identity;
pub mod jwt_auth;
pub mod ldap_filter;
pub mod ledger;
pub mod protocol;
pub mod response;
pub mod token_model;
pub mod token_service;
pub mod user_handler;
pub mod user_model;
pub mod user_service;
