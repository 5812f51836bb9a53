//! How a deploy is turned into something that can be executed, and how a fetcher of legacy
//! deploys treats what it has fetched.

pub mod casper;
pub mod error;
pub mod execution_kind;
pub mod fetcher;
pub mod laws;
pub mod package;
pub mod types;
