//! Process supervision for a single-purpose appliance: a process-wide alert
//! flag, the rules that classify how a watched child ended, the escalating
//! termination of a child, the orchestration loop that tears down once, the
//! configuration files deployed from environment variables, and the facts
//! read back from the deployed daemon configuration.

pub mod alert;
pub mod child;
pub mod config;
pub mod extract;
pub mod scope;
pub mod services;
pub mod text;
pub mod watchdog;
