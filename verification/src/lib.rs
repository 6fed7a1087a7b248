//! Session, credential, authorization and active-configuration rules of a
//! staff scheduling service, stated over an in-memory model of its tables.
//!
//! The store (`store`) holds one table (`table`) for each kind of row. What
//! a caller may ask of it is gathered in `db`:
//!
//! - `password`: salted password hashes and their verification;
//! - `session`: sign-in, validation of a token, sign-out;
//! - `auth`: the level check and the ownership check before a mutation;
//! - `lifecycle`: configurations, and the active configuration that every
//!   account points at;
//! - `account`: accounts and their passwords;
//! - `records`: shifts, shift exceptions and vacations.
//!
//! Every operation states what it returns and how it changes the store as
//! a function of the store before it, on `DatabaseView`. `laws` proves
//! what holds of several operations in a row.
//!
//! Time is an argument everywhere: the caller reads the clock. Password
//! hashing is done by the `crypto` crate and the token payload is written by
//! `serde_json`; both are called through small functions whose contracts
//! are taken on trust.
//!
//! `roster`, `timetable`, `user`, `settings` and `token` keep the rules of
//! the service's earlier layouts, and `client` those of its sign-in form.

pub mod account;
pub mod auth;
pub mod client;
pub mod config;
pub mod datetime;
pub mod db;
pub mod employee;
pub mod enum_helper;
pub mod error;
pub mod laws;
pub mod lifecycle;
pub mod message;
pub mod password;
pub mod payload;
pub mod records;
pub mod roster;
pub mod session;
pub mod settings;
pub mod shift;
pub mod store;
pub mod table;
pub mod timetable;
pub mod token;
pub mod user;
