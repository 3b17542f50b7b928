//! Resolves configuration parameters and secrets stored under a
//! `/environment/service/` namespace and turns them into environment pairs.

use vstd::prelude::*;

pub mod config;
pub mod keys;
pub mod error;
pub mod records;
pub mod paging;
pub mod secrets;
pub mod output;
pub mod shell;
pub mod actions;

verus! {

} // verus!
