//! Device Directory: materialize the native "enumerate devices" answer
//! into an owned list of safe device records.
//!
//! The native call reports a status code and, on success, a contiguous
//! array of device-descriptor pointers terminated by a null entry; each
//! descriptor's text fields are byte-string pointers that may themselves
//! be null. The unsafe walk that copies those pointers out lives outside
//! this crate and hands in, per array slot, either the copied fields or
//! the null terminator. This module owns every decision made on that
//! data: reject a non-success status before looking at any entry, stop
//! at the first terminator, and turn each absent text field into an
//! empty string rather than an error.

use vstd::prelude::*;

use crate::error::ScanError;
use crate::error::STATUS_GOOD;

verus! {

/// One slot of the native descriptor array, copied into owned data:
/// each text field is `None` where the native byte-string pointer was
/// null, otherwise the bytes it pointed at.
#[derive(Clone, Debug)]
pub struct RawDescriptor {
    /// Bytes of the device name, if the native pointer was non-null.
    pub name: Option<Vec<u8>>,
    /// Bytes of the vendor string, if the native pointer was non-null.
    pub vendor: Option<Vec<u8>>,
    /// Bytes of the model string, if the native pointer was non-null.
    pub model: Option<Vec<u8>>,
    /// Bytes of the device-type string, if the native pointer was
    /// non-null.
    pub type_: Option<Vec<u8>>,
}

/// One scanner, safe to keep after the native enumerate call returns.
/// An absent native field is the empty string, never an error.
#[derive(Clone, Debug, PartialEq, Eq)]
pub struct Device {
    /// The device name; selects the device when it is opened.
    pub name: Vec<u8>,
    /// The vendor string, or empty where the device reported none.
    pub vendor: Vec<u8>,
    /// The model string, or empty where the device reported none.
    pub model: Vec<u8>,
    /// The device-type string, or empty where the device reported none.
    pub type_: Vec<u8>,
}

/// What a possibly-absent native byte-string field materializes to: its
/// bytes, or the empty string where the pointer was null.
pub open spec fn field_bytes(field: Option<Vec<u8>>) -> Seq<u8> {
    match field {
        Option::Some(bytes) => bytes@,
        Option::None => Seq::<u8>::empty(),
    }
}

/// The device record that one native descriptor materializes to, field
/// by field.
pub open spec fn device_matches(device: Device, raw: RawDescriptor) -> bool {
    &&& device.name@ == field_bytes(raw.name)
    &&& device.vendor@ == field_bytes(raw.vendor)
    &&& device.model@ == field_bytes(raw.model)
    &&& device.type_@ == field_bytes(raw.type_)
}

/// Materialize one possibly-absent text field: a null native pointer
/// degrades to the empty string, a total conversion that never fails.
pub fn field_from_raw(field: Option<Vec<u8>>) -> (bytes: Vec<u8>)
    ensures
        bytes@ == field_bytes(field),
{
    match field {
        Option::Some(bytes) => bytes,
        Option::None => {
            let empty: Vec<u8> = Vec::new();
            proof {
                assert(empty@ =~= Seq::<u8>::empty());
            }
            empty
        },
    }
}

/// Materialize one descriptor into an owned device record.
pub fn device_from_raw(raw: RawDescriptor) -> (device: Device)
    ensures
        device_matches(device, raw),
{
    Device {
        name: field_from_raw(raw.name),
        vendor: field_from_raw(raw.vendor),
        model: field_from_raw(raw.model),
        type_: field_from_raw(raw.type_),
    }
}

/// Whether a native status code reports success. The caller of the
/// native enumerate call must consult this before dereferencing the
/// returned list pointer.
pub fn status_is_good(status: u32) -> (good: bool)
    ensures
        good <==> status == STATUS_GOOD,
{
    status == STATUS_GOOD
}

/// How many descriptors precede the terminating null entry: the length
/// of the longest prefix of the array that holds no terminator.
pub open spec fn live_prefix_len(entries: Seq<Option<RawDescriptor>>) -> nat
    decreases entries.len(),
{
    if entries.len() == 0 {
        0
    } else if entries[0] is None {
        0
    } else {
        1 + live_prefix_len(entries.drop_first())
    }
}

/// A prefix of non-null entries that is closed off by a terminator (or
/// by the end of the copied slots) is exactly the live prefix.
pub proof fn lemma_live_prefix_len(entries: Seq<Option<RawDescriptor>>, n: int)
    requires
        0 <= n <= entries.len(),
        forall|i: int| 0 <= i < n ==> entries[i] is Some,
        n == entries.len() || entries[n] is None,
    ensures
        live_prefix_len(entries) == n,
    decreases entries.len(),
{
    if n == 0 {
    } else {
        assert(entries[0] is Some);
        let rest = entries.drop_first();
        assert forall|i: int| 0 <= i < n - 1 implies rest[i] is Some by {
            assert(entries[i + 1] is Some);
        }
        lemma_live_prefix_len(rest, n - 1);
    }
}

/// Materialize the outcome of the native enumerate call.
///
/// `status` is the code the native call returned; `entries` holds what
/// the caller copied out of the returned array, slot by slot in array
/// order, where `None` stands for a null descriptor pointer. A caller
/// that walks the native array may stop copying at the first null entry:
/// slots past the first `None` never influence the result.
///
/// On a non-success status the carried code is returned as
/// [`ScanError::NativeStatus`] and no entry is looked at. On success the
/// result holds one owned record per descriptor before the first
/// terminator, in array order — zero devices is success with an empty
/// list, not an error.
pub fn enumerate(status: u32, entries: Vec<Option<RawDescriptor>>) -> (r: Result<
    Vec<Device>,
    ScanError,
>)
    ensures
        r is Ok <==> status == STATUS_GOOD,
        status != STATUS_GOOD ==> r == Err::<Vec<Device>, ScanError>(
            ScanError::NativeStatus { code: status },
        ),
        r is Ok ==> r->Ok_0@.len() == live_prefix_len(entries@),
        r is Ok ==> forall|i: int|
            0 <= i < r->Ok_0@.len() ==> device_matches(
                #[trigger] r->Ok_0@[i],
                entries@[i]->Some_0,
            ),
{
    if !status_is_good(status) {
        return Err(ScanError::NativeStatus { code: status });
    }
    let ghost original = entries@;
    let mut entries = entries;
    let mut devices: Vec<Device> = Vec::new();
    while entries.len() > 0 && entries[0].is_some()
        invariant
            devices@.len() + entries@.len() == original.len(),
            entries@ =~= original.subrange(devices@.len() as int, original.len() as int),
            forall|i: int|
                #![trigger devices@[i]]
                #![trigger original[i]]
                0 <= i < devices@.len() ==> original[i] is Some && device_matches(
                    devices@[i],
                    original[i]->Some_0,
                ),
        decreases entries@.len(),
    {
        let ghost k = devices@.len() as int;
        let slot = entries.remove(0);
        proof {
            assert(slot == original[k]);
        }
        let raw = slot.unwrap();
        let device = device_from_raw(raw);
        devices.push(device);
    }
    proof {
        let n = devices@.len() as int;
        if entries@.len() != 0 {
            assert(entries@[0] == original[n]);
        }
        lemma_live_prefix_len(original, n);
    }
    Ok(devices)
}

} // verus!
