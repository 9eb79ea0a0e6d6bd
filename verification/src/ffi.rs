//! The safety logic shared by every boundary function: turning the outcome of
//! a unit of work into an error address, and moving objects and bytes across
//! the boundary with every address checked for null first.

use vstd::prelude::*;
use crate::error::SignalFfiError;
use crate::handle::{Handle, OutSlot};

verus! {

/// What a boundary function returns for a given outcome of its work.
///
/// The outer `Err` stands for work that terminated abnormally and carries
/// what was captured of it; the outer `Ok` holds what the work returned.
pub open spec fn run_ffi_safe_spec<E, P>(
    outcome: Result<Result<(), SignalFfiError<E, P>>, P>,
) -> Handle<SignalFfiError<E, P>> {
    match outcome {
        Ok(Ok(())) => Handle::Null,
        Ok(Err(e)) => Handle::Live(e),
        Err(payload) => Handle::Live(SignalFfiError::UnexpectedPanic(payload)),
    }
}

/// Turns the outcome of a contained unit of work into the error address that
/// the foreign caller receives: null on success and a live error otherwise.
/// An abnormal termination becomes an `UnexpectedPanic` that holds the
/// captured payload, and an error that the work returned is passed on as it
/// is.
pub fn run_ffi_safe<E, P>(outcome: Result<Result<(), SignalFfiError<E, P>>, P>) -> (r: Handle<
    SignalFfiError<E, P>,
>)
    ensures
        r == run_ffi_safe_spec(outcome),
        r is Null <==> outcome matches Ok(Ok(_)),
{
    let result = match outcome {
        Ok(Ok(())) => Ok(()),
        Ok(Err(e)) => Err(e),
        Err(payload) => Err(SignalFfiError::UnexpectedPanic(payload)),
    };
    match result {
        Ok(()) => Handle::Null,
        Err(e) => Handle::Live(e),
    }
}

/// The slot and the result after `box_object`.
pub open spec fn box_object_spec<T, E, P>(p: OutSlot<Handle<T>>, obj: Result<T, E>) -> (
    OutSlot<Handle<T>>,
    Result<(), SignalFfiError<E, P>>,
) {
    if p is Null {
        (p, Err(SignalFfiError::NullPointer))
    } else {
        match obj {
            Ok(o) => (OutSlot::Filled(Handle::Live(o)), Ok(())),
            Err(e) => (OutSlot::Filled(Handle::Null), Err(SignalFfiError::Signal(e))),
        }
    }
}

/// Hands a freshly made object to the caller through the slot `p`.
///
/// With a null `p` nothing is written and the call fails with
/// `NullPointer`. Otherwise the slot is written exactly once: with a live
/// handle that owns the object, or, where `obj` is an error, with the null
/// handle, and that error comes back wrapped in `Signal`.
pub fn box_object<T, E, P>(p: &mut OutSlot<Handle<T>>, obj: Result<T, E>) -> (r: Result<
    (),
    SignalFfiError<E, P>,
>)
    ensures
        (*final(p), r) == box_object_spec::<T, E, P>(*old(p), obj),
        r is Ok <==> !(*old(p) is Null) && obj is Ok,
{
    if p.is_null() {
        return Err(SignalFfiError::NullPointer);
    }
    match obj {
        Ok(o) => {
            *p = OutSlot::Filled(Handle::Live(o));
            Ok(())
        },
        Err(e) => {
            *p = OutSlot::Filled(Handle::Null);
            Err(SignalFfiError::Signal(e))
        },
    }
}

/// The object behind a lent handle, or `NullPointer` for the null handle.
pub open spec fn native_handle_cast_spec<T, E, P>(handle: Handle<T>) -> Result<
    T,
    SignalFfiError<E, P>,
> {
    match handle {
        Handle::Null => Err(SignalFfiError::NullPointer),
        Handle::Live(o) => Ok(o),
    }
}

/// Borrows the object behind a handle: a reference to it where the handle is
/// live, `NullPointer` where it is null. The handle is lent, not consumed,
/// so the caller may borrow through the same address again.
pub fn native_handle_cast<'a, T: ?Sized, E, P>(handle: Handle<&'a T>) -> (r: Result<
    &'a T,
    SignalFfiError<E, P>,
>)
    ensures
        r == native_handle_cast_spec::<&'a T, E, P>(handle),
{
    match handle {
        Handle::Null => Err(SignalFfiError::NullPointer),
        Handle::Live(o) => Ok(o),
    }
}

/// The two slots and the result after `write_bytearray_to`.
pub open spec fn write_bytearray_to_spec<E, P>(
    out: OutSlot<Vec<u8>>,
    out_len: OutSlot<usize>,
    value: Result<Vec<u8>, E>,
) -> (OutSlot<Vec<u8>>, OutSlot<usize>, Result<(), SignalFfiError<E, P>>) {
    if out is Null || out_len is Null {
        (out, out_len, Err(SignalFfiError::NullPointer))
    } else {
        match value {
            Ok(bytes) => (OutSlot::Filled(bytes), OutSlot::Filled(bytes.len()), Ok(())),
            Err(e) => (out, out_len, Err(SignalFfiError::Signal(e))),
        }
    }
}

/// Hands a byte sequence to the caller through the slots `out` and `out_len`.
///
/// Where either slot is null nothing is written and the call fails with
/// `NullPointer`. Where `value` is an error nothing is written either, and
/// that error comes back wrapped in `Signal`. Otherwise `out` receives the
/// bytes, which the caller then owns, and `out_len` their exact number.
pub fn write_bytearray_to<E, P>(
    out: &mut OutSlot<Vec<u8>>,
    out_len: &mut OutSlot<usize>,
    value: Result<Vec<u8>, E>,
) -> (r: Result<(), SignalFfiError<E, P>>)
    ensures
        (*final(out), *final(out_len), r) == write_bytearray_to_spec::<E, P>(
            *old(out),
            *old(out_len),
            value,
        ),
        r is Ok <==> !(*old(out) is Null) && !(*old(out_len) is Null) && value is Ok,
        r is Err ==> *final(out) == *old(out) && *final(out_len) == *old(out_len),
{
    if out.is_null() || out_len.is_null() {
        return Err(SignalFfiError::NullPointer);
    }
    match value {
        Ok(bytes) => {
            *out_len = OutSlot::Filled(bytes.len());
            *out = OutSlot::Filled(bytes);
            Ok(())
        },
        Err(e) => Err(SignalFfiError::Signal(e)),
    }
}

} // verus!
