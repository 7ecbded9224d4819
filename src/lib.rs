use vstd::prelude::*;

pub mod command;
pub mod directory;
pub mod errors;
pub mod exit;
pub mod handler;
pub mod profiles;
pub mod service;

verus! {

} // verus!
