use vstd::prelude::*;

use vstd::string::StringSliceAdditionalSpecFns;

use crate::cstring::{c_string, c_string_spec};
use crate::errors::HookError;
use crate::handle::{handle_address, handle_at, Handle};

verus! {

/// The status with which the engine reports that a hook could not be
/// installed or removed.
pub const ENGINE_FAILURE: i32 = -1;

/// What a status of the engine's code patcher means.
pub open spec fn patch_code_result_spec(status: i32) -> Result<(), HookError> {
    if status == 0 {
        Ok(())
    } else if status == 1 {
        Err(HookError::MemoryOperationError)
    } else if status == 2 {
        Err(HookError::NotSupportAllocateExecutableMemory)
    } else if status == 3 {
        Err(HookError::MemoryOperationErrorNotEnough)
    } else if status == 4 {
        Err(HookError::MemoryOperationErrorNone)
    } else {
        Err(HookError::Unknown(status))
    }
}

/// What the engine's answer to a hook request means: the failure, or the
/// address of the trampoline to the original code, if the engine made one.
pub open spec fn hook_result_spec(status: i32, origin: usize) -> Result<Option<usize>, HookError> {
    if status == ENGINE_FAILURE {
        Err(HookError::FailedToHook)
    } else {
        Ok(handle_at(origin))
    }
}

/// What the engine's answer to a request to remove a hook means.
pub open spec fn unhook_result_spec(status: i32) -> Result<(), HookError> {
    if status == ENGINE_FAILURE {
        Err(HookError::FailedToUndoHook)
    } else {
        Ok(())
    }
}

/// The address view of a hook result.
pub open spec fn hook_result_address<'a, FnPtr: Copy + 'a>(
    r: Result<Option<Handle<'a, FnPtr>>, HookError>,
) -> Result<Option<usize>, HookError> {
    match r {
        Ok(h) => Ok(handle_address(h)),
        Err(e) => Err(e),
    }
}

/// The arguments of a symbol lookup, as NUL-terminated byte strings: the image
/// to search (`None` searches every loaded image) and the symbol's name.
pub struct SymbolQuery {
    pub image: Option<Vec<u8>>,
    pub symbol: Vec<u8>,
}

/// Prepare the arguments of a symbol lookup.
/// Neither the image nor the symbol name may hold a NUL character.
pub fn symbol_query(image: Option<&str>, symbol: &str) -> (q: SymbolQuery)
    requires
        image matches Some(i) ==> !i@.contains('\0'),
        !symbol@.contains('\0'),
    ensures
        q.image is None <==> image is None,
        image matches Some(i) ==> q.image matches Some(c) && c@ == c_string_spec(i.spec_bytes()),
        q.symbol@ == c_string_spec(symbol.spec_bytes()),
{
    let image = match image {
        Some(i) => match c_string(i) {
            Some(c) => Some(c),
            None => None,
        },
        None => None,
    };
    let symbol = match c_string(symbol) {
        Some(c) => c,
        None => Vec::new(),
    };
    SymbolQuery { image, symbol }
}

/// The handle on the address the engine's symbol resolver reported.
/// Returns `None` exactly when the address is null: the symbol was not
/// found, or its image is not loaded.
pub fn symbol_resolver<FnPtr>(address: usize) -> (r: Option<Handle<'static, FnPtr>>)
    where FnPtr: Copy + 'static,
    ensures
        r is None <==> address == 0,
        r matches Some(h) ==> h@ == address,
        handle_address(r) == handle_at(address),
{
    Handle::from_mut(address)
}

/// The size argument of a code patch: the length of the buffer as the
/// engine's 32-bit size. The buffer must not be longer than `u32::MAX` bytes.
pub fn patch_size(buffer: &[u8]) -> (n: u32)
    requires
        buffer@.len() <= u32::MAX,
    ensures
        n == buffer@.len(),
{
    buffer.len() as u32
}

/// Interpret the status of the engine's code patcher.
pub fn patch_code_result(status: i32) -> (r: Result<(), HookError>)
    ensures
        r == patch_code_result_spec(status),
        r is Ok <==> status == 0,
{
    match status {
        0 => Ok(()),
        1 => Err(HookError::MemoryOperationError),
        2 => Err(HookError::NotSupportAllocateExecutableMemory),
        3 => Err(HookError::MemoryOperationErrorNotEnough),
        4 => Err(HookError::MemoryOperationErrorNone),
        e => Err(HookError::Unknown(e)),
    }
}

/// Interpret the engine's answer to a hook request: its status and the
/// address of the trampoline it wrote back.
/// The trampoline, when there is one, calls the original code of the target.
pub fn hook_result<'a, FnPtr>(status: i32, origin: usize) -> (r: Result<Option<Handle<'a, FnPtr>>, HookError>)
    where FnPtr: Copy + 'a,
    ensures
        hook_result_address(r) == hook_result_spec(status, origin),
        r is Err <==> status == ENGINE_FAILURE,
        r matches Err(e) ==> e == HookError::FailedToHook,
        r matches Ok(h) ==> (h is None <==> origin == 0),
        r matches Ok(Some(h)) ==> h@ == origin,
{
    if status == ENGINE_FAILURE {
        Err(HookError::FailedToHook)
    } else {
        Ok(Handle::from_mut(origin))
    }
}

/// Interpret the engine's answer to a request to remove a hook.
pub fn unhook_result(status: i32) -> (r: Result<(), HookError>)
    ensures
        r == unhook_result_spec(status),
        r is Err <==> status == ENGINE_FAILURE,
        r matches Err(e) ==> e == HookError::FailedToUndoHook,
{
    if status == ENGINE_FAILURE {
        Err(HookError::FailedToUndoHook)
    } else {
        Ok(())
    }
}

} // verus!
