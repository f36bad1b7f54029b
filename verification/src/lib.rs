//! Interactive terminal help viewer: help-content acquisition, subcommand
//! extraction, and the navigation state machine that ties them together.
pub mod config;
pub mod discovery;
pub mod fetcher;
pub mod finder;
pub mod fuzzy;
pub mod history;
pub mod keys;
pub mod pager;
pub mod parser;
pub mod rx;
pub mod session;
pub mod switcher;
pub mod text;
pub mod toolpacks;
