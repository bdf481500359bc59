//! ERC20 token metadata lookup with a read-through cache.
//!
//! The crate holds the decisions of the lookup and leaves every network call
//! to its caller: [`client`] walks the cache-aside flow one step at a time,
//! [`cache`] says what a cache adapter makes of the store's answers,
//! [`token`] reads a token record out of a JSON document, [`json`] is the
//! boundary to `serde_json`, and [`startup`] settles the command line and the
//! environment of the command-line tool. [`laws`] states what holds of every
//! lookup.

pub mod cache;
pub mod client;
pub mod json;
pub mod laws;
pub mod startup;
pub mod token;
