//! Time-range validation and cursor-driven paginated search over a remote
//! log and trace search service.
pub mod cli;
pub mod client;
pub mod config;
pub mod error;
pub mod output;
pub mod search;
pub mod time;

use vstd::prelude::*;

verus! {

} // verus!
