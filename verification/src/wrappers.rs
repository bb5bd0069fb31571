//! The optional wrapper records and their conversions to and from the
//! bare scalars they carry.
//!
//! Each wrapper holds exactly one field, `val`.  Wrapping a scalar and
//! extracting it again are total: every value of the scalar type is
//! valid, nothing is checked and nothing can fail, and the value is
//! carried through unchanged in both directions.

use vstd::prelude::*;

verus! {

/// Optional wrapper around a signed 64-bit integer.
#[derive(Clone, Copy, Debug, PartialEq, Eq, Structural)]
pub struct OptInt64 {
    pub val: i64,
}

/// The wrapper that holds the signed 64-bit integer `x`.
pub open spec fn wrap_int64(x: i64) -> OptInt64 {
    OptInt64 { val: x }
}

/// The signed 64-bit integer that the wrapper `w` carries.
pub open spec fn unwrap_int64(w: OptInt64) -> i64 {
    w.val
}

impl OptInt64 {
    /// Reads the carried value without consuming the wrapper.
    pub fn value(&self) -> (r: i64)
        ensures
            r == unwrap_int64(*self),
    {
        self.val
    }
}

impl From<i64> for OptInt64 {
    fn from(x: i64) -> (r: OptInt64) {
        OptInt64 { val: x }
    }
}

impl vstd::std_specs::convert::FromSpecImpl<i64> for OptInt64 {
    open spec fn obeys_from_spec() -> bool {
        true
    }

    open spec fn from_spec(x: i64) -> OptInt64 {
        wrap_int64(x)
    }
}

impl From<OptInt64> for i64 {
    fn from(w: OptInt64) -> (r: i64) {
        w.val
    }
}

impl vstd::std_specs::convert::FromSpecImpl<OptInt64> for i64 {
    open spec fn obeys_from_spec() -> bool {
        true
    }

    open spec fn from_spec(w: OptInt64) -> i64 {
        unwrap_int64(w)
    }
}

/// Optional wrapper around an unsigned 64-bit integer that travels in
/// the fixed-width wire representation.
///
/// It carries the same scalar as [`OptUint64`]; the two kinds stay
/// distinct because the wire codec downstream encodes them differently.
#[derive(Clone, Copy, Debug, PartialEq, Eq, Structural)]
pub struct OptFixed64 {
    pub val: u64,
}

/// The fixed-width wrapper that holds the unsigned 64-bit integer `x`.
pub open spec fn wrap_fixed64(x: u64) -> OptFixed64 {
    OptFixed64 { val: x }
}

/// The unsigned 64-bit integer that the fixed-width wrapper `w` carries.
pub open spec fn unwrap_fixed64(w: OptFixed64) -> u64 {
    w.val
}

impl OptFixed64 {
    /// Reads the carried value without consuming the wrapper.
    pub fn value(&self) -> (r: u64)
        ensures
            r == unwrap_fixed64(*self),
    {
        self.val
    }
}

impl From<u64> for OptFixed64 {
    fn from(x: u64) -> (r: OptFixed64) {
        OptFixed64 { val: x }
    }
}

impl vstd::std_specs::convert::FromSpecImpl<u64> for OptFixed64 {
    open spec fn obeys_from_spec() -> bool {
        true
    }

    open spec fn from_spec(x: u64) -> OptFixed64 {
        wrap_fixed64(x)
    }
}

impl From<OptFixed64> for u64 {
    fn from(w: OptFixed64) -> (r: u64) {
        w.val
    }
}

impl vstd::std_specs::convert::FromSpecImpl<OptFixed64> for u64 {
    open spec fn obeys_from_spec() -> bool {
        true
    }

    open spec fn from_spec(w: OptFixed64) -> u64 {
        unwrap_fixed64(w)
    }
}

/// Optional wrapper around an unsigned 64-bit integer that travels in
/// the variable-width wire representation.
#[derive(Clone, Copy, Debug, PartialEq, Eq, Structural)]
pub struct OptUint64 {
    pub val: u64,
}

/// The variable-width wrapper that holds the unsigned 64-bit integer `x`.
pub open spec fn wrap_uint64(x: u64) -> OptUint64 {
    OptUint64 { val: x }
}

/// The unsigned 64-bit integer that the variable-width wrapper `w` carries.
pub open spec fn unwrap_uint64(w: OptUint64) -> u64 {
    w.val
}

impl OptUint64 {
    /// Reads the carried value without consuming the wrapper.
    pub fn value(&self) -> (r: u64)
        ensures
            r == unwrap_uint64(*self),
    {
        self.val
    }
}

impl From<u64> for OptUint64 {
    fn from(x: u64) -> (r: OptUint64) {
        OptUint64 { val: x }
    }
}

impl vstd::std_specs::convert::FromSpecImpl<u64> for OptUint64 {
    open spec fn obeys_from_spec() -> bool {
        true
    }

    open spec fn from_spec(x: u64) -> OptUint64 {
        wrap_uint64(x)
    }
}

impl From<OptUint64> for u64 {
    fn from(w: OptUint64) -> (r: u64) {
        w.val
    }
}

impl vstd::std_specs::convert::FromSpecImpl<OptUint64> for u64 {
    open spec fn obeys_from_spec() -> bool {
        true
    }

    open spec fn from_spec(w: OptUint64) -> u64 {
        unwrap_uint64(w)
    }
}

/// Optional wrapper around a UTF-8 string.
///
/// Wrapping takes ownership of the text; extraction hands it back out.
#[derive(Clone, Debug, PartialEq, Eq)]
pub struct OptString {
    pub val: String,
}

/// The wrapper that holds the string `s`.
pub open spec fn wrap_string(s: String) -> OptString {
    OptString { val: s }
}

/// The string that the wrapper `w` carries.
pub open spec fn unwrap_string(w: OptString) -> String {
    w.val
}

impl OptString {
    /// Reads the carried text without consuming the wrapper.
    pub fn value(&self) -> (r: &str)
        ensures
            r@ == unwrap_string(*self)@,
    {
        self.val.as_str()
    }
}

impl From<String> for OptString {
    fn from(s: String) -> (r: OptString) {
        OptString { val: s }
    }
}

impl vstd::std_specs::convert::FromSpecImpl<String> for OptString {
    open spec fn obeys_from_spec() -> bool {
        true
    }

    open spec fn from_spec(s: String) -> OptString {
        wrap_string(s)
    }
}

impl From<OptString> for String {
    fn from(w: OptString) -> (r: String) {
        w.val
    }
}

impl vstd::std_specs::convert::FromSpecImpl<OptString> for String {
    open spec fn obeys_from_spec() -> bool {
        true
    }

    open spec fn from_spec(w: OptString) -> String {
        unwrap_string(w)
    }
}

} // verus!
