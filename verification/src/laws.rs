use vstd::prelude::*;

use crate::cstring::c_string_spec;
use crate::engine::{
    hook_result_spec, patch_code_result_spec, unhook_result_spec, ENGINE_FAILURE,
};
use crate::errors::HookError;
use crate::handle::handle_at;

verus! {

/// A handle built from an address refers to exactly that address, and only
/// the null address yields no handle: reading a handle's address back gives
/// the address it was made from.
pub proof fn lemma_handle_round_trip(raw: usize)
    ensures
        handle_at(raw) is None <==> raw == 0,
        handle_at(raw) matches Some(a) ==> a == raw,
{
}

/// Distinct statuses of the code patcher are never reported as the same
/// outcome: the outcome tells which status the engine returned.
pub proof fn lemma_patch_code_result_injective(a: i32, b: i32)
    requires
        patch_code_result_spec(a) == patch_code_result_spec(b),
    ensures
        a == b,
{
}

/// A status the engine does not document is handed back unchanged.
pub proof fn lemma_patch_code_unknown_keeps_status(status: i32)
    ensures
        patch_code_result_spec(status) matches Err(HookError::Unknown(code)) ==> code == status
            && (status < 0 || status > 4),
{
}

/// The failures of the three operations never coincide: a patch failure is
/// never a hook failure, and a failure to hook is never a failure to unhook.
pub proof fn lemma_operation_errors_distinct(status: i32, origin: usize)
    ensures
        patch_code_result_spec(status) != Err::<(), HookError>(HookError::FailedToHook),
        patch_code_result_spec(status) != Err::<(), HookError>(HookError::FailedToUndoHook),
        hook_result_spec(status, origin) != Err::<Option<usize>, HookError>(HookError::FailedToUndoHook),
        unhook_result_spec(status) != Err::<(), HookError>(HookError::FailedToHook),
{
}

/// Installing and removing a hook fail on the same engine status, and on no other.
pub proof fn lemma_hook_unhook_fail_together(status: i32, origin: usize)
    ensures
        hook_result_spec(status, origin) is Err <==> unhook_result_spec(status) is Err,
        unhook_result_spec(status) is Err <==> status == ENGINE_FAILURE,
{
}

/// When a hook is installed, the trampoline handed back is the handle that
/// the engine's trampoline address makes, as for any other raw address.
pub proof fn lemma_hook_trampoline_is_handle(status: i32, origin: usize)
    requires
        status != ENGINE_FAILURE,
    ensures
        hook_result_spec(status, origin) == Ok::<Option<usize>, HookError>(handle_at(origin)),
{
}

/// A C string made from bytes without a NUL gives those bytes back when its
/// terminator is dropped, and its terminator is its only NUL.
pub proof fn lemma_c_string_round_trip(bytes: Seq<u8>)
    requires
        !bytes.contains(0u8),
    ensures
        c_string_spec(bytes).len() == bytes.len() + 1,
        c_string_spec(bytes).last() == 0u8,
        c_string_spec(bytes).drop_last() == bytes,
        forall|i: int| 0 <= i < c_string_spec(bytes).len() && c_string_spec(bytes)[i] == 0u8
            ==> i == bytes.len(),
{
    assert(c_string_spec(bytes).drop_last() =~= bytes);
    assert forall|i: int| 0 <= i < c_string_spec(bytes).len() && c_string_spec(bytes)[i] == 0u8
        implies i == bytes.len() by {
        if i < bytes.len() {
            assert(bytes[i] == 0u8);
            assert(bytes.contains(0u8));
        }
    }
}

} // verus!
