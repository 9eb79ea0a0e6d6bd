use libsignal_bridge::bridge::{deserialize, destroy, get_bytearray};
use libsignal_bridge::error::SignalFfiError;
use libsignal_bridge::ffi::run_ffi_safe;
use libsignal_bridge::handle::{Handle, OutSlot};

type BridgeError = SignalFfiError<String, String>;

/// A pair of keys with a fixed-length encoding: one tag byte, then four
/// bytes of each key.
#[derive(Debug, PartialEq, Eq)]
struct KeyPair {
    public: [u8; 4],
    private: [u8; 4],
}

fn key_pair_serialize(k: &KeyPair) -> Result<Vec<u8>, String> {
    let mut v = vec![5u8];
    v.extend_from_slice(&k.public);
    v.extend_from_slice(&k.private);
    Ok(v)
}

fn key_pair_deserialize(data: &[u8]) -> Result<KeyPair, String> {
    if data.len() != 9 || data[0] != 5 {
        return Err("bad key pair encoding".to_string());
    }
    let mut public = [0u8; 4];
    let mut private = [0u8; 4];
    public.copy_from_slice(&data[1..5]);
    private.copy_from_slice(&data[5..9]);
    Ok(KeyPair { public, private })
}

fn filled<V>(slot: OutSlot<V>) -> V {
    match slot {
        OutSlot::Filled(v) => v,
        _ => panic!("the slot was not written"),
    }
}

#[test]
fn destroy_null_handle_returns_null_error() {
    let r: Result<(), BridgeError> = destroy(Handle::<KeyPair>::Null);
    assert_eq!(r, Ok(()));
    assert_eq!(run_ffi_safe(Ok(r)), Handle::Null);
}

#[test]
fn destroy_live_handle_returns_null_error() {
    let h = Handle::Live(KeyPair { public: [1, 2, 3, 4], private: [5, 6, 7, 8] });
    let r: Result<(), BridgeError> = destroy(h);
    assert_eq!(run_ffi_safe(Ok(r)), Handle::Null);
}

#[test]
fn deserialize_null_input_is_null_pointer_for_any_length() {
    for len in [0usize, 1, 9, usize::MAX] {
        let mut slot: OutSlot<Handle<KeyPair>> = OutSlot::Vacant;
        let r: Result<(), BridgeError> =
            deserialize(&mut slot, Handle::Null, len, key_pair_deserialize);
        assert_eq!(r, Err(SignalFfiError::NullPointer));
        assert_eq!(slot, OutSlot::Vacant);
        assert_eq!(run_ffi_safe(Ok(r)), Handle::Live(SignalFfiError::NullPointer));
    }
}

#[test]
fn deserialize_null_input_does_not_call_the_deserializer() {
    let mut called = false;
    let mut slot: OutSlot<Handle<u8>> = OutSlot::Vacant;
    let r: Result<(), BridgeError> = deserialize(&mut slot, Handle::Null, 3, |_d: &[u8]| {
        called = true;
        Ok(0u8)
    });
    assert_eq!(r, Err(SignalFfiError::NullPointer));
    assert!(!called);
}

#[test]
fn deserialize_accepts_a_live_input_of_no_bytes() {
    let empty: [u8; 0] = [];
    let mut slot: OutSlot<Handle<usize>> = OutSlot::Vacant;
    let r: Result<(), BridgeError> =
        deserialize(&mut slot, Handle::Live(&empty[..]), 0, |d: &[u8]| Ok(d.len()));
    assert_eq!(r, Ok(()));
    assert_eq!(slot, OutSlot::Filled(Handle::Live(0)));
}

#[test]
fn deserialize_reads_the_declared_length_only() {
    let data = [1u8, 2, 3, 4, 5];
    let mut slot: OutSlot<Handle<Vec<u8>>> = OutSlot::Vacant;
    let r: Result<(), BridgeError> =
        deserialize(&mut slot, Handle::Live(&data[..]), 3, |d: &[u8]| Ok(d.to_vec()));
    assert_eq!(r, Ok(()));
    assert_eq!(slot, OutSlot::Filled(Handle::Live(vec![1, 2, 3])));
}

#[test]
fn deserialize_error_writes_a_null_handle() {
    let data = [7u8, 7];
    let mut slot: OutSlot<Handle<KeyPair>> = OutSlot::Vacant;
    let r: Result<(), BridgeError> =
        deserialize(&mut slot, Handle::Live(&data[..]), 2, key_pair_deserialize);
    assert_eq!(r, Err(SignalFfiError::Signal("bad key pair encoding".to_string())));
    assert_eq!(slot, OutSlot::Filled(Handle::Null));
}

#[test]
fn deserialize_null_slot_is_null_pointer() {
    let data = [5u8, 1, 2, 3, 4, 5, 6, 7, 8];
    let mut slot: OutSlot<Handle<KeyPair>> = OutSlot::Null;
    let r: Result<(), BridgeError> =
        deserialize(&mut slot, Handle::Live(&data[..]), 9, key_pair_deserialize);
    assert_eq!(r, Err(SignalFfiError::NullPointer));
    assert_eq!(slot, OutSlot::Null);
}

#[test]
fn get_bytearray_null_handle_writes_nothing() {
    let mut out: OutSlot<Vec<u8>> = OutSlot::Vacant;
    let mut out_len: OutSlot<usize> = OutSlot::Vacant;
    let r: Result<(), BridgeError> =
        get_bytearray(Handle::<&KeyPair>::Null, &mut out, &mut out_len, key_pair_serialize);
    assert_eq!(r, Err(SignalFfiError::NullPointer));
    assert_eq!(out, OutSlot::Vacant);
    assert_eq!(out_len, OutSlot::Vacant);
}

#[test]
fn get_bytearray_null_length_slot_does_not_write_the_pointer_slot() {
    let k = KeyPair { public: [1, 2, 3, 4], private: [5, 6, 7, 8] };
    let mut out: OutSlot<Vec<u8>> = OutSlot::Vacant;
    let mut out_len: OutSlot<usize> = OutSlot::Null;
    let r: Result<(), BridgeError> =
        get_bytearray(Handle::Live(&k), &mut out, &mut out_len, key_pair_serialize);
    assert_eq!(r, Err(SignalFfiError::NullPointer));
    assert_eq!(out, OutSlot::Vacant);
    assert_eq!(run_ffi_safe(Ok(r)), Handle::Live(SignalFfiError::NullPointer));
}

#[test]
fn get_bytearray_passes_an_accessor_error_on() {
    let k = KeyPair { public: [1, 2, 3, 4], private: [5, 6, 7, 8] };
    let mut out: OutSlot<Vec<u8>> = OutSlot::Vacant;
    let mut out_len: OutSlot<usize> = OutSlot::Vacant;
    let r: Result<(), BridgeError> =
        get_bytearray(Handle::Live(&k), &mut out, &mut out_len, |_k: &KeyPair| {
            Err("no chain key".to_string())
        });
    assert_eq!(r, Err(SignalFfiError::Signal("no chain key".to_string())));
    assert_eq!(out, OutSlot::Vacant);
    assert_eq!(out_len, OutSlot::Vacant);
}

#[test]
fn get_bytearray_writes_what_the_accessor_returns() {
    let k = KeyPair { public: [1, 2, 3, 4], private: [5, 6, 7, 8] };
    let mut out: OutSlot<Vec<u8>> = OutSlot::Vacant;
    let mut out_len: OutSlot<usize> = OutSlot::Vacant;
    let r: Result<(), BridgeError> =
        get_bytearray(Handle::Live(&k), &mut out, &mut out_len, |k: &KeyPair| {
            Ok(k.public.to_vec())
        });
    assert_eq!(r, Ok(()));
    assert_eq!(out, OutSlot::Filled(vec![1, 2, 3, 4]));
    assert_eq!(out_len, OutSlot::Filled(4));
}

#[test]
fn key_pair_round_trips_through_the_boundary() {
    let mut slot: OutSlot<Handle<KeyPair>> = OutSlot::Vacant;
    let made: Result<(), BridgeError> = libsignal_bridge::ffi::box_object(
        &mut slot,
        Ok(KeyPair { public: [10, 20, 30, 40], private: [50, 60, 70, 80] }),
    );
    assert_eq!(run_ffi_safe(Ok(made)), Handle::Null);
    let handle = filled(slot);

    let mut out: OutSlot<Vec<u8>> = OutSlot::Vacant;
    let mut out_len: OutSlot<usize> = OutSlot::Vacant;
    let r: Result<(), BridgeError> =
        get_bytearray(handle.as_ref(), &mut out, &mut out_len, key_pair_serialize);
    assert_eq!(run_ffi_safe(Ok(r)), Handle::Null);
    let first = filled(out);
    assert_eq!(first, vec![5, 10, 20, 30, 40, 50, 60, 70, 80]);
    assert_eq!(filled(out_len), 9);

    let r: Result<(), BridgeError> = destroy(handle);
    assert_eq!(run_ffi_safe(Ok(r)), Handle::Null);

    let mut slot: OutSlot<Handle<KeyPair>> = OutSlot::Vacant;
    let r: Result<(), BridgeError> =
        deserialize(&mut slot, Handle::Live(&first[..]), first.len(), key_pair_deserialize);
    assert_eq!(run_ffi_safe(Ok(r)), Handle::Null);
    let again = filled(slot);
    assert!(!again.is_null());

    let mut out: OutSlot<Vec<u8>> = OutSlot::Vacant;
    let mut out_len: OutSlot<usize> = OutSlot::Vacant;
    let r: Result<(), BridgeError> =
        get_bytearray(again.as_ref(), &mut out, &mut out_len, key_pair_serialize);
    assert_eq!(run_ffi_safe(Ok(r)), Handle::Null);
    assert_eq!(filled(out), first);
    assert_eq!(filled(out_len), first.len());
}
