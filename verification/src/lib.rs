//! A single-user todo manager: the record table, the rules for composing a
//! record, and the state machine of the interactive browser.

pub mod ai;
pub mod browser;
pub mod cli;
pub mod clock;
pub mod commands;
pub mod configs;
pub mod database;
pub mod error;
pub mod models;
pub mod report;
pub mod stats;
pub mod text;
pub mod theme;
pub mod xls;
