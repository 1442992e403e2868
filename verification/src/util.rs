//! Version of the engine.

use vstd::prelude::*;

verus! {

pub struct Version {
    pub major: i32,
    pub minor: i32,
    pub patch: i32,
    pub pre: String,
    pub full: String,
}

} // verus!
