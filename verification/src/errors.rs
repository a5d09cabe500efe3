use vstd::prelude::*;

verus! {

/// The ways an operation of the hook engine can fail.
#[derive(Debug, Clone, Copy, PartialEq, Eq, Structural)]
pub enum HookError {
    /// A hook failure carrying the engine's raw status code.
    Hook(i32),
    /// The engine could not change the protection of, or write to, the target memory.
    MemoryOperationError,
    /// The platform refuses to hand out executable memory.
    NotSupportAllocateExecutableMemory,
    /// Not enough memory was available for the operation.
    MemoryOperationErrorNotEnough,
    /// The memory operation produced nothing.
    MemoryOperationErrorNone,
    /// A status code that the engine does not document.
    Unknown(i32),
    /// Installing the inline hook failed.
    FailedToHook,
    /// Removing the inline hook failed.
    FailedToUndoHook,
}

} // verus!
