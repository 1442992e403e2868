//! Loading of script modules.

pub mod loader;

pub use self::loader::{ModuleNameError, ModuleNameParseKind, ModulePath};
