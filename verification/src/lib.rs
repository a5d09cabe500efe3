//! Verified core of a thin hooking library built on the Dobby inline-hook engine.

pub mod cstring;
pub mod engine;
pub mod errors;
pub mod handle;
pub mod laws;

pub use cstring::c_string;
pub use engine::{
    hook_result, patch_code_result, patch_size, symbol_query, symbol_resolver,
    unhook_result, SymbolQuery, ENGINE_FAILURE,
};
pub use errors::HookError;
pub use handle::Handle;
