//! The core of a monitor for the Chinese stock exchanges.
//!
//! It reads what the data services send, keeps it for a while, answers the requests of a page for
//! quotes, charts and money flows, looks after the list of what is watched, and finds a large language
//! model to analyse a stock. What goes over the network, to the disk or through floating-point
//! arithmetic is left to the program around it: each request is a step that says what to fetch or to
//! write, and a step that takes what came of it.
pub mod ai;
pub mod cache;
pub mod codes;
pub mod config;
pub mod json;
pub mod kline;
pub mod minute;
pub mod money_flow;
pub mod promises;
pub mod quote;
pub mod reply;
pub mod session;
pub mod state;
pub mod text;
