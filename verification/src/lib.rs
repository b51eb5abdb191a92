//! Verified core of the linked Web surface for the Lenso Support Case capability.
use vstd::prelude::*;

pub mod naming;
pub mod response;
pub mod text;
pub mod errors;
pub mod routes;
pub mod auth;

verus! {

/// Forces this native Plugin crate to be retained by a linked Host.
pub fn link() {
}

} // verus!
