//! Raw values of the iTunes COM interface

pub mod com_enums;

use vstd::prelude::*;

verus! {

/// A 32-bit signed integer, as COM passes it.
pub type LONG = i32;

/// The raw form of a COM tri-state boolean (`VARIANT_BOOL`).
pub type VARIANT_BOOL = i16;

/// The status code of a COM call (`HRESULT`).
pub type HRESULT = i32;

/// Convenience constant
pub const TRUE: VARIANT_BOOL = -1i16;

/// Convenience constant
pub const FALSE: VARIANT_BOOL = 0i16;

/// The status code of a call that succeeded.
pub const S_OK: HRESULT = 0i32;

/// The status code of a cast to an interface that the object does not implement.
pub const E_NOINTERFACE: HRESULT = -2147467262i32;

/// The status code of a failure that the platform has no better name for.
pub const E_UNEXPECTED: HRESULT = -2147418113i32;

/// The status code that stands for a lookup without a result.
///
/// This is the closest matching status code that the platform defines.
pub const NS_E_PROPERTY_NOT_FOUND: HRESULT = -1072876854i32;

} // verus!
