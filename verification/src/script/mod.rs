//! The bridge between native code and the embedded script runtime.

pub mod call;
pub mod cell;
pub mod errors;

pub use self::cell::{BorrowError, BorrowState, ForeignCell};
pub use self::errors::{
    log_wren_error, GersError, GersResult, WrenCompileError, WrenError, WrenErrorKind, WrenStackFrame,
};
pub use self::call::{
    CallArgs, CallHandle, CallState, Hook, HookSetup, HookTarget, ScriptCommand, ScriptReply, SetupStep,
};
