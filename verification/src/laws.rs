//! Laws of the adapter: every conversion round-trips exactly, and
//! extraction is deterministic.
//!
//! The laws are stated over the executable `From` conversions through
//! `call_ensures`: a hypothesis such as
//! `call_ensures(<OptInt64 as From<i64>>::from, (x,), w)` says that `w`
//! is a value the conversion can return for `x`, so each law covers
//! every outcome of the real calls.

use vstd::prelude::*;

use crate::wrappers::OptFixed64;
use crate::wrappers::OptInt64;
use crate::wrappers::OptString;
use crate::wrappers::OptUint64;
use crate::wrappers::unwrap_fixed64;
use crate::wrappers::unwrap_int64;
use crate::wrappers::unwrap_string;
use crate::wrappers::unwrap_uint64;

verus! {

/// Round-trip law: converting a signed 64-bit integer to its wrapper and
/// back yields the original value exactly.
pub proof fn lemma_round_trip_int64(x: i64, w: OptInt64, y: i64)
    requires
        call_ensures(<OptInt64 as From<i64>>::from, (x,), w),
        call_ensures(<i64 as From<OptInt64>>::from, (w,), y),
    ensures
        y == x,
{
}

/// Round-trip law: converting an unsigned 64-bit integer to its
/// fixed-width wrapper and back yields the original value exactly.
pub proof fn lemma_round_trip_fixed64(x: u64, w: OptFixed64, y: u64)
    requires
        call_ensures(<OptFixed64 as From<u64>>::from, (x,), w),
        call_ensures(<u64 as From<OptFixed64>>::from, (w,), y),
    ensures
        y == x,
{
}

/// Round-trip law: converting an unsigned 64-bit integer to its
/// variable-width wrapper and back yields the original value exactly.
pub proof fn lemma_round_trip_uint64(x: u64, w: OptUint64, y: u64)
    requires
        call_ensures(<OptUint64 as From<u64>>::from, (x,), w),
        call_ensures(<u64 as From<OptUint64>>::from, (w,), y),
    ensures
        y == x,
{
}

/// Round-trip law: converting a string to its wrapper and back yields a
/// string equal to the original, character for character.
pub proof fn lemma_round_trip_string(s: String, w: OptString, t: String)
    requires
        call_ensures(<OptString as From<String>>::from, (s,), w),
        call_ensures(<String as From<OptString>>::from, (w,), t),
    ensures
        t == s,
        t@ == s@,
{
}

/// Extraction is deterministic: any two extractions from the same
/// signed-integer wrapper yield the same value, and that value is the
/// one the wrapper carries.
pub proof fn lemma_extract_int64_deterministic(w: OptInt64, r1: i64, r2: i64)
    requires
        call_ensures(<i64 as From<OptInt64>>::from, (w,), r1),
        call_ensures(<i64 as From<OptInt64>>::from, (w,), r2),
    ensures
        r1 == r2,
        r1 == unwrap_int64(w),
{
}

/// Extraction is deterministic: any two extractions from the same
/// fixed-width wrapper yield the same value, and that value is the one
/// the wrapper carries.
pub proof fn lemma_extract_fixed64_deterministic(w: OptFixed64, r1: u64, r2: u64)
    requires
        call_ensures(<u64 as From<OptFixed64>>::from, (w,), r1),
        call_ensures(<u64 as From<OptFixed64>>::from, (w,), r2),
    ensures
        r1 == r2,
        r1 == unwrap_fixed64(w),
{
}

/// Extraction is deterministic: any two extractions from the same
/// variable-width wrapper yield the same value, and that value is the
/// one the wrapper carries.
pub proof fn lemma_extract_uint64_deterministic(w: OptUint64, r1: u64, r2: u64)
    requires
        call_ensures(<u64 as From<OptUint64>>::from, (w,), r1),
        call_ensures(<u64 as From<OptUint64>>::from, (w,), r2),
    ensures
        r1 == r2,
        r1 == unwrap_uint64(w),
{
}

/// Extraction is deterministic: any two extractions from the same
/// string wrapper yield the same string, and that string is the one the
/// wrapper carries.
pub proof fn lemma_extract_string_deterministic(w: OptString, r1: String, r2: String)
    requires
        call_ensures(<String as From<OptString>>::from, (w,), r1),
        call_ensures(<String as From<OptString>>::from, (w,), r2),
    ensures
        r1 == r2,
        r1 == unwrap_string(w),
{
}

} // verus!
