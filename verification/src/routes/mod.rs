//! The routes of the service, by group.
pub mod auth;
pub mod user;
pub mod project;
pub mod list;
pub mod task;

use vstd::prelude::*;

verus! {


} // verus!
