//! What holds of the boundary functions taken together.

use vstd::prelude::*;
use crate::bridge::{destroy_spec, deserialize_spec, get_bytearray_spec, input_bytes};
use crate::error::{ErrorKind, SignalFfiError};
use crate::ffi::run_ffi_safe_spec;
use crate::handle::{Handle, OutSlot};
use crate::rules::{is_upper, snake_case_spec, snake_piece, symbol_prefix, Binding, BridgeRule};

verus! {

/// Destroying any handle, the null one included, reports success: the error
/// address that the caller receives is null.
pub proof fn destroy_reports_no_error<T, E, P>(p: Handle<T>)
    ensures
        run_ffi_safe_spec(Ok(destroy_spec::<T, E, P>(p))) is Null,
{
}

/// A null input address makes deserializing fail with `NullPointer`, whatever
/// the deserializer would have returned and whatever the slot is, and writes
/// nothing. The declared length has no part in it.
pub proof fn deserialize_null_input_is_null_pointer<T, E, P>(
    p: OutSlot<Handle<T>>,
    obj: Result<T, E>,
)
    ensures
        deserialize_spec::<T, E, P>(p, Handle::Null, obj) == (
            p,
            Err::<(), SignalFfiError<E, P>>(SignalFfiError::NullPointer),
        ),
        run_ffi_safe_spec(Ok(deserialize_spec::<T, E, P>(p, Handle::Null, obj).1))
            == Handle::Live(SignalFfiError::<E, P>::NullPointer),
{
}

/// A live input address of no bytes is not a null address: deserializing
/// goes by what the deserializer returns.
pub proof fn deserialize_accepts_empty_input<T, E, P>(data: &[u8], object: T)
    requires
        data@.len() == 0,
    ensures
        input_bytes(data, 0) == Seq::<u8>::empty(),
        deserialize_spec::<T, E, P>(OutSlot::Vacant, Handle::Live(data), Ok(object)) == (
            OutSlot::Filled(Handle::Live(object)),
            Ok::<(), SignalFfiError<E, P>>(()),
        ),
{
    assert(input_bytes(data, 0) =~= Seq::<u8>::empty());
}

/// A null object handle makes a byte accessor fail with `NullPointer` and
/// leaves both slots as they were, whatever the accessor would have returned.
pub proof fn get_bytearray_null_handle_is_null_pointer<T, E, P>(
    out: OutSlot<Vec<u8>>,
    out_len: OutSlot<usize>,
    value: Result<Vec<u8>, E>,
)
    ensures
        get_bytearray_spec::<T, E, P>(Handle::Null, out, out_len, value) == (
            out,
            out_len,
            Err::<(), SignalFfiError<E, P>>(SignalFfiError::NullPointer),
        ),
{
}

/// A byte accessor writes either both slots or neither, and writes both
/// exactly when it succeeds.
pub proof fn get_bytearray_writes_both_or_neither<T, E, P>(
    obj: Handle<&T>,
    out: OutSlot<Vec<u8>>,
    out_len: OutSlot<usize>,
    value: Result<Vec<u8>, E>,
)
    ensures
        ({
            let (out_after, len_after, r) = get_bytearray_spec::<T, E, P>(obj, out, out_len, value);
            &&& r is Err ==> out_after == out && len_after == out_len
            &&& r is Ok ==> (value matches Ok(bytes) && out_after == OutSlot::Filled(bytes)
                && len_after == OutSlot::Filled(bytes.len()))
            &&& r is Ok <==> obj is Live && !(out is Null) && !(out_len is Null) && value is Ok
        }),
{
}

/// Work that terminated abnormally is always reported, as an
/// `UnexpectedPanic` that holds what was captured, and work that returned is
/// never reported as one unless it returned one itself.
pub proof fn fault_is_reported_as_unexpected_panic<E, P>(
    outcome: Result<Result<(), SignalFfiError<E, P>>, P>,
)
    ensures
        outcome matches Err(payload) ==> run_ffi_safe_spec(outcome) == Handle::Live(
            SignalFfiError::<E, P>::UnexpectedPanic(payload),
        ),
        outcome matches Ok(Err(e)) ==> run_ffi_safe_spec(outcome) == Handle::Live(e),
        run_ffi_safe_spec(outcome) is Null <==> outcome matches Ok(Ok(_)),
        outcome is Err ==> (run_ffi_safe_spec(outcome) matches Handle::Live(e) && e.spec_kind()
            == ErrorKind::UnexpectedPanic),
{
}

/// The boundary hands bytes and objects over unchanged, so a codec that
/// round-trips does so across the boundary too.
///
/// `first` is an object whose accessor returns `encoded`. The caller passes
/// those bytes back in as `data`, the deserializer returns `second` for
/// them, and the accessor returns `reencoded` for `second`. Where the codec
/// gives `reencoded` the same bytes as `encoded`, the bytes that the caller
/// receives the second time are those it received the first time, with the
/// same length, and every call on the way succeeds.
pub proof fn serialized_bytes_round_trip<T, E, P>(
    first: &T,
    encoded: Vec<u8>,
    data: &[u8],
    second: T,
    reencoded: Vec<u8>,
)
    requires
        data@ == encoded@,
        reencoded@ == encoded@,
    ensures
        ({
            let (out1, len1, r1) = get_bytearray_spec::<T, E, P>(
                Handle::Live(first),
                OutSlot::Vacant,
                OutSlot::Vacant,
                Ok(encoded),
            );
            let (slot, r2) = deserialize_spec::<T, E, P>(
                OutSlot::Vacant,
                Handle::Live(data),
                Ok(second),
            );
            let (out2, len2, r3) = get_bytearray_spec::<T, E, P>(
                Handle::Live(&second),
                OutSlot::Vacant,
                OutSlot::Vacant,
                Ok(reencoded),
            );
            &&& r1 is Ok && r2 is Ok && r3 is Ok
            &&& run_ffi_safe_spec(Ok(r1)) is Null && run_ffi_safe_spec(Ok(r2)) is Null
                && run_ffi_safe_spec(Ok(r3)) is Null
            &&& (len1 matches OutSlot::Filled(n) && n == encoded@.len())
            &&& input_bytes(data, encoded.len()) == encoded@
            &&& slot == OutSlot::Filled(Handle::Live(second))
            &&& (out1 matches OutSlot::Filled(b1) && out2 matches OutSlot::Filled(b2) && b2@
                == b1@)
            &&& len2 == len1
        }),
{
    assert(input_bytes(data, encoded.len()) =~= encoded@);
}

/// The two interfaces are exposed independently: the C symbol of a rule does
/// not depend on how the rule is bound under the JVM interface, and a rule
/// stands for no boundary function exactly when both interfaces suppress it.
pub proof fn interfaces_are_independent(rule: BridgeRule, other_jni: Binding)
    ensures
        (BridgeRule { jni: other_jni, ..rule }).ffi_symbol_spec() == rule.ffi_symbol_spec(),
        rule.ffi_symbol_spec() is None <==> rule.ffi is Suppressed,
        rule.entry_points_spec() == 0 <==> rule.ffi is Suppressed && rule.jni is Suppressed,
        rule.entry_points_spec() <= 2,
{
}

/// Every C symbol begins with the common prefix, and a name given explicitly
/// stands right after it, whatever the object type is called.
pub proof fn symbol_begins_with_prefix(rule: BridgeRule)
    ensures
        rule.ffi_symbol_spec() matches Some(symbol) ==> symbol_prefix().is_prefix_of(symbol),
        rule.ffi matches Binding::Named(name) ==> (rule.ffi_symbol_spec() matches Some(symbol)
            && (symbol_prefix() + name@).is_prefix_of(symbol)),
{
    match rule.ffi_symbol_spec() {
        Some(symbol) => {
            let name = rule.ffi.name_spec(rule.derived_name_spec()).unwrap();
            let suffix = rule.operation.symbol_suffix();
            assert(symbol == symbol_prefix() + name + suffix);
            assert((symbol_prefix() + name).is_prefix_of(symbol));
            assert(symbol_prefix().is_prefix_of(symbol));
        },
        None => {},
    }
}

/// The snake-case form of a name holds no capital letter, and is at least as
/// long as the name and at most twice as long.
pub proof fn snake_case_is_lower_case(name: Seq<u8>)
    ensures
        forall|i: int|
            0 <= i < snake_case_spec(name).len() ==> !is_upper(#[trigger] snake_case_spec(name)[i]),
        name.len() <= snake_case_spec(name).len() <= 2 * name.len(),
    decreases name.len(),
{
    if name.len() > 0 {
        let front = snake_case_spec(name.drop_last());
        let piece = snake_piece(name, name.len() - 1);
        snake_case_is_lower_case(name.drop_last());
        assert(snake_case_spec(name) == front + piece);
        assert forall|i: int| 0 <= i < (front + piece).len() implies !is_upper(
            #[trigger] (front + piece)[i],
        ) by {
            if i >= front.len() {
                assert((front + piece)[i] == piece[i - front.len()]);
            }
        }
    }
}

} // verus!
