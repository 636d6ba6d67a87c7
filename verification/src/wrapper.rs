//! The synchronous wrapper's runtime discipline, as an executable model:
//! convert every incoming parameter, invoke the underlying operation, and
//! relay its outcome — the converted payload on success, the sentinel and
//! a fresh owned error object through the out-parameter on failure. This
//! layer never recovers a failure; it only relays it.

use vstd::prelude::*;

use crate::marshal::{
    c_error_value, from_c_borrowed, spec_c_valid, spec_decode, spec_encode, spec_encode_heap,
    spec_sentinel, spec_valid, to_c_owned, CValue, MarshalType, NativeHeap, RVal,
};

verus! {

/// The owned error-information object a fallible operation reports
/// through the out-parameter slot: domain, code, and message.
#[derive(Clone, Debug, PartialEq, Eq)]
pub struct ErrorInfo {
    pub domain: u32,
    pub code: u32,
    pub message: Vec<u8>,
}

/// Convert the incoming raw parameters, in declaration order, borrowing
/// each: the caller keeps ownership of every argument.
pub fn convert_params(heap: &NativeHeap, types: &Vec<MarshalType>, args: &Vec<CValue>) -> (r: Vec<
    RVal,
>)
    requires
        types@.len() == args@.len(),
        forall|i: int|
            0 <= i < types@.len() ==> spec_c_valid(heap@, #[trigger] types@[i], args@[i]),
    ensures
        r@.len() == types@.len(),
        forall|i: int|
            0 <= i < types@.len() ==> (#[trigger] r@[i])@ == spec_decode(
                heap@,
                types@[i],
                args@[i],
            ),
{
    let mut r: Vec<RVal> = Vec::new();
    let mut i: usize = 0;
    while i < types.len()
        invariant
            i <= types@.len(),
            types@.len() == args@.len(),
            forall|k: int|
                0 <= k < types@.len() ==> spec_c_valid(heap@, #[trigger] types@[k], args@[k]),
            r@.len() == i,
            forall|k: int|
                0 <= k < i ==> (#[trigger] r@[k])@ == spec_decode(heap@, types@[k], args@[k]),
        decreases types@.len() - i,
    {
        r.push(from_c_borrowed(heap, &types[i], args[i]));
        i = i + 1;
    }
    r
}

/// Relay a fallible operation's outcome: on success, convert the payload
/// per its type's transfer rule and leave the error slot untouched; on
/// failure, hand the fresh owned error object to the slot — only where
/// the caller passed one — and return the type's sentinel. The outcome is
/// never inspected beyond its success/failure shape, and never
/// transformed.
pub fn run_fallible_wrapper(
    heap: &mut NativeHeap,
    ret_type: &MarshalType,
    outcome: Result<RVal, ErrorInfo>,
    slot_present: bool,
) -> (r: (CValue, Option<ErrorInfo>))
    requires
        outcome matches Ok(v) ==> spec_valid(*ret_type, v@),
    ensures
        match outcome {
            Ok(v) => r.0 == spec_encode(*ret_type, v@, old(heap)@.len() as usize) && final(heap)@
                == spec_encode_heap(old(heap)@, *ret_type, v@) && r.1 is None,
            Err(e) => r.0 == spec_sentinel(*ret_type) && final(heap)@ == old(heap)@ && r.1 == (
            if slot_present {
                Some(e)
            } else {
                None
            }),
        },
{
    match outcome {
        Ok(v) => {
            let c = to_c_owned(heap, ret_type, v);
            (c, None)
        },
        Err(e) => {
            let c = c_error_value(ret_type);
            (
                c,
                if slot_present {
                    Some(e)
                } else {
                    None
                },
            )
        },
    }
}

/// A method taking a mutable reference to a primitive receives a
/// location, not a value: the wrapper converts the incoming pointer by
/// dereferencing — never through a transfer mode, since no ownership
/// crosses — and the body's write lands in the caller's storage. The
/// wrapper's own return value is independent of that side effect.
pub fn run_mut_ref_wrapper(storage: &mut i32, add: i32, ret: i64) -> (r: i64)
    requires
        -0x8000_0000 <= *old(storage) + add <= 0x7fff_ffff,
    ensures
        *final(storage) == *old(storage) + add,
        r == ret,
{
    *storage = *storage + add;
    ret
}

} // verus!
