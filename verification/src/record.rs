//! A record that may grow.

use vstd::prelude::*;

verus! {

/// A record with one field that anyone may read and write, and one that is
/// kept to this module. More fields may be added later: code elsewhere cannot
/// build a `Unit` from a list of fields, and has to end every pattern on it
/// with `..`.
#[non_exhaustive]
pub struct Unit {
    pub field: bool,
    #[allow(dead_code)]
    private: bool,
}

} // verus!
