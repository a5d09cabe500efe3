use vstd::prelude::*;
use core::marker::PhantomData;

verus! {

/// What a maybe-handle holds: the address it points at, or nothing.
///
/// This is the address a handle built from `raw` refers to: a null address
/// yields no handle, any other address yields a handle on exactly that address.
pub open spec fn handle_at(raw: usize) -> Option<usize> {
    if raw == 0 {
        None
    } else {
        Some(raw)
    }
}

/// The address an optional handle refers to.
pub open spec fn handle_address<'a, FnPtr: Copy + 'a>(h: Option<Handle<'a, FnPtr>>) -> Option<usize> {
    match h {
        Some(h) => Some(h@),
        None => None,
    }
}

/// A handle on a function pointer: the (never null) address of a callable
/// entry point of type `FnPtr`, which can be hooked or dispatched.
///
/// The address is kept as a plain integer; turning it into something callable
/// is left to the caller.
#[derive(Copy)]
pub struct Handle<'a, FnPtr> where FnPtr: Copy + 'a {
    addr: usize,
    marker: PhantomData<&'a FnPtr>,
}

impl<'a, FnPtr> Clone for Handle<'a, FnPtr> where FnPtr: Copy + 'a {
    fn clone(&self) -> (h: Self)
        ensures
            h@ == self@,
    {
        *self
    }
}

impl<'a, FnPtr> View for Handle<'a, FnPtr> where FnPtr: Copy + 'a {
    type V = usize;

    /// The address this handle refers to.
    closed spec fn view(&self) -> usize {
        self.addr
    }
}

impl<'a, FnPtr> Handle<'a, FnPtr> where FnPtr: Copy + 'a {
    /// A handle never refers to the null address.
    #[verifier::type_invariant]
    spec fn non_null(self) -> bool {
        self.addr != 0
    }

    /// Create a new handle from a non-null address of a function pointer.
    pub fn new(ptr: usize) -> (h: Self)
        requires
            ptr != 0,
        ensures
            h@ == ptr,
    {
        Handle { addr: ptr, marker: PhantomData }
    }

    /// Create a new handle from a raw address of a function pointer.
    /// Returns `None` exactly when the address is null.
    pub fn from_mut(raw: usize) -> (r: Option<Self>)
        ensures
            r is None <==> raw == 0,
            r matches Some(h) ==> h@ == raw,
            handle_address(r) == handle_at(raw),
    {
        if raw == 0 {
            None
        } else {
            Some(Self::from_mut_unchecked(raw))
        }
    }

    /// Create a new handle from a raw address without checking it at run time;
    /// the address must not be null.
    pub fn from_mut_unchecked(raw: usize) -> (h: Self)
        requires
            raw != 0,
        ensures
            h@ == raw,
    {
        Handle { addr: raw, marker: PhantomData }
    }

    /// Consume the handle and return its address, which is never null.
    pub fn into_ptr(self) -> (p: usize)
        ensures
            p == self@,
            p != 0,
    {
        proof {
            use_type_invariant(&self);
        }
        self.addr
    }

    /// Consume the handle and return its raw address, which is never null.
    pub fn into_raw(self) -> (p: usize)
        ensures
            p == self@,
            p != 0,
    {
        proof {
            use_type_invariant(&self);
        }
        self.addr
    }
}

} // verus!
