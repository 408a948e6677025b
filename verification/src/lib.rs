//! A rocket whose flight phase is part of its type, and a record that is open
//! to further fields.
//!
//! A [`rocket::Rocket`] starts on the ground, is launched exactly once, and
//! only then accepts thrust commands. The phase is a type parameter, so an
//! illegal command is a type error and costs nothing when the program runs.

use vstd::prelude::*;

pub mod record;
pub mod rocket;

verus! {

/// Does nothing and returns nothing.
pub fn first() {
}

} // verus!
