//! Procedural noise.

pub mod perm;

pub use self::perm::PermutationTable;
