//! Saga: a local-first time tracker. This crate holds the verified core:
//! the text and duration formatting rules, the entry-form text inputs, the
//! keyboard map, the state machine of the terminal interface and how it
//! folds in the store's replies, day, week and month spans, the
//! command-line rules (times, log and report queries and texts, invoice
//! numbers, configuration values), the choice of billing rate, the store's
//! query and migration rules, and CSV export.

pub mod text;
pub mod screens;
pub mod models;
pub mod clock;
pub mod state;
pub mod message;
pub mod keys;
pub mod calendar;
pub mod update;
pub mod replies;
pub mod cli;
pub mod rates;
pub mod export;
pub mod store;
