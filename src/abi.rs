//! Numeric codes of the frei0r interface, as its C header defines them.
use vstd::prelude::*;

verus! {

/// Major version of the interface that this library speaks.
pub const FREI0R_MAJOR_VERSION: i32 = 1;

/// One input frame and one output frame.
pub const F0R_PLUGIN_TYPE_FILTER: i32 = 0;
/// One output frame only.
pub const F0R_PLUGIN_TYPE_SOURCE: i32 = 1;
/// Two input frames and one output frame.
pub const F0R_PLUGIN_TYPE_MIXER2: i32 = 2;
/// Three input frames and one output frame.
pub const F0R_PLUGIN_TYPE_MIXER3: i32 = 3;

/// Bytes blue, green, red, alpha.
pub const F0R_COLOR_MODEL_BGRA8888: i32 = 0;
/// Bytes red, green, blue, alpha.
pub const F0R_COLOR_MODEL_RGBA8888: i32 = 1;
/// Four bytes per pixel in an unspecified order.
pub const F0R_COLOR_MODEL_PACKED32: i32 = 2;

/// A boolean, carried as a double.
pub const F0R_PARAM_BOOL: i32 = 0;
/// A double.
pub const F0R_PARAM_DOUBLE: i32 = 1;
/// Three single-precision components.
pub const F0R_PARAM_COLOR: i32 = 2;
/// Two double-precision coordinates.
pub const F0R_PARAM_POSITION: i32 = 3;
/// A pointer to a nul-terminated byte string.
pub const F0R_PARAM_STRING: i32 = 4;

} // verus!
