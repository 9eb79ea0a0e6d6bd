//! The three families of boundary functions, each written once for every
//! object type.
//!
//! A boundary function for a given type is one of the functions here applied
//! to that type and, where the family needs one, to the routine of the
//! protocol library that does the real work. Each returns what the unit of
//! work returns; `run_ffi_safe` turns that into the error address.

use vstd::prelude::*;
use vstd::slice::slice_subrange;
use crate::error::SignalFfiError;
use crate::ffi::{
    box_object,
    box_object_spec,
    native_handle_cast,
    write_bytearray_to,
    write_bytearray_to_spec,
};
use crate::handle::{Handle, OutSlot};

verus! {

/// What `destroy` returns: success, for every handle.
pub open spec fn destroy_spec<T, E, P>(p: Handle<T>) -> Result<(), SignalFfiError<E, P>> {
    Ok(())
}

/// Releases the object behind an owned handle.
///
/// The handle is consumed: a live one gives up its object, a null one holds
/// nothing and nothing is done. Either way the call succeeds.
pub fn destroy<T, E, P>(p: Handle<T>) -> (r: Result<(), SignalFfiError<E, P>>)
    ensures
        r == destroy_spec::<T, E, P>(p),
        r is Ok,
{
    match p {
        Handle::Null => {},
        Handle::Live(_obj) => {},
    }
    Ok(())
}

/// The bytes that a deserializer is given: the first `data_len` bytes behind
/// the input address.
pub open spec fn input_bytes(data: &[u8], data_len: usize) -> Seq<u8> {
    data@.subrange(0, data_len as int)
}

/// The slot and the result after `deserialize`, where `obj` is what the
/// deserializer returns on the declared bytes.
pub open spec fn deserialize_spec<T, E, P>(
    p: OutSlot<Handle<T>>,
    data: Handle<&[u8]>,
    obj: Result<T, E>,
) -> (OutSlot<Handle<T>>, Result<(), SignalFfiError<E, P>>) {
    match data {
        Handle::Null => (p, Err(SignalFfiError::NullPointer)),
        Handle::Live(_) => box_object_spec(p, obj),
    }
}

/// Builds an object from the caller's bytes and hands it out through `p`.
///
/// `data` is the input address and `data_len` the length that the caller
/// declares for it. A null `data` fails with `NullPointer` whatever
/// `data_len` is, and neither `from_bytes` nor the slot is touched. A live
/// `data` of no bytes is an input like any other. Otherwise `from_bytes`
/// is called once on the declared bytes, and what it returns goes through
/// `box_object`.
pub fn deserialize<T, E, P, F>(
    p: &mut OutSlot<Handle<T>>,
    data: Handle<&[u8]>,
    data_len: usize,
    from_bytes: F,
) -> (r: Result<(), SignalFfiError<E, P>>) where F: FnOnce(&[u8]) -> Result<T, E>
    requires
        data matches Handle::Live(d) ==> data_len <= d@.len(),
        forall|bytes: &[u8]|
            data matches Handle::Live(d) && bytes@ == input_bytes(d, data_len)
                ==> #[trigger] from_bytes.requires((bytes,)),
    ensures
        data is Null ==> r == Err::<(), SignalFfiError<E, P>>(SignalFfiError::NullPointer)
            && *final(p) == *old(p),
        data matches Handle::Live(d) ==> exists|bytes: &[u8], obj: Result<T, E>|
            bytes@ == input_bytes(d, data_len) && #[trigger] from_bytes.ensures((bytes,), obj)
                && (*final(p), r) == deserialize_spec::<T, E, P>(*old(p), data, obj),
{
    let d = match native_handle_cast(data) {
        Ok(d) => d,
        Err(e) => {
            return Err(e);
        },
    };
    let bytes = slice_subrange(d, 0, data_len);
    let obj = from_bytes(bytes);
    box_object(p, obj)
}

/// The two slots and the result after `get_bytearray`, where `value` is what
/// the accessor returns on the object.
pub open spec fn get_bytearray_spec<T, E, P>(
    obj: Handle<&T>,
    out: OutSlot<Vec<u8>>,
    out_len: OutSlot<usize>,
    value: Result<Vec<u8>, E>,
) -> (OutSlot<Vec<u8>>, OutSlot<usize>, Result<(), SignalFfiError<E, P>>) {
    match obj {
        Handle::Null => (out, out_len, Err(SignalFfiError::NullPointer)),
        Handle::Live(_) => write_bytearray_to_spec(out, out_len, value),
    }
}

/// Reads bytes out of a lent object and hands them out through `out` and
/// `out_len`.
///
/// A null `obj` fails with `NullPointer`; `extract` is not called and no
/// slot is written. Otherwise `extract` is called once on the object, and
/// what it returns goes through `write_bytearray_to`.
pub fn get_bytearray<T, E, P, F>(
    obj: Handle<&T>,
    out: &mut OutSlot<Vec<u8>>,
    out_len: &mut OutSlot<usize>,
    extract: F,
) -> (r: Result<(), SignalFfiError<E, P>>) where F: FnOnce(&T) -> Result<Vec<u8>, E>
    requires
        obj matches Handle::Live(o) ==> extract.requires((o,)),
    ensures
        obj is Null ==> r == Err::<(), SignalFfiError<E, P>>(SignalFfiError::NullPointer)
            && *final(out) == *old(out) && *final(out_len) == *old(out_len),
        obj matches Handle::Live(o) ==> exists|value: Result<Vec<u8>, E>| #[trigger]
            extract.ensures((o,), value) && (*final(out), *final(out_len), r)
                == get_bytearray_spec::<T, E, P>(obj, *old(out), *old(out_len), value),
        r is Err ==> *final(out) == *old(out) && *final(out_len) == *old(out_len),
{
    let o = match native_handle_cast(obj) {
        Ok(o) => o,
        Err(e) => {
            return Err(e);
        },
    };
    let value = extract(o);
    write_bytearray_to(out, out_len, value)
}

} // verus!
