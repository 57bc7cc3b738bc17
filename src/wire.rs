//! Parameter values in the layout of the wire blocks.
//!
//! A boolean and a double both travel as one binary64, a color as three
//! binary32, a position as two binary64 and a string as a pointer to a
//! nul-terminated byte string. Each block is decoded by the kind that the
//! parameter table gives its index, never by what the block seems to hold.
use vstd::prelude::*;
use crate::param::{c_text_ok, is_c_text, Color, ParamKind, ParamRef, ParamView, Position};

verus! {

/// Bits of the binary64 value 0.5.
pub const HALF_BITS: u64 = 0x3FE0_0000_0000_0000;

/// Bits of the binary64 value 1.0.
pub const ONE_BITS: u64 = 0x3FF0_0000_0000_0000;

/// Bits of the binary64 value +infinity.
pub const INFINITY_BITS: u64 = 0x7FF0_0000_0000_0000;

/// Whether the binary64 value with these bits is at least 0.5.
///
/// Non-negative binary64 values order as their bit patterns do, from +0.0
/// (all zero) to +infinity; above that come the NaNs, and every pattern
/// with the sign bit set is negative or a NaN. So exactly the patterns from
/// 0.5 up to +infinity compare at least 0.5.
pub open spec fn spec_at_least_half(bits: u64) -> bool {
    HALF_BITS <= bits <= INFINITY_BITS
}

pub fn at_least_half(bits: u64) -> (r: bool)
    ensures
        r == spec_at_least_half(bits),
{
    HALF_BITS <= bits && bits <= INFINITY_BITS
}

/// Bits that a boolean parameter is reported with: 1.0 or 0.0.
pub open spec fn spec_bool_bits(b: bool) -> u64 {
    if b { ONE_BITS } else { 0 }
}

/// Why a parameter access was refused.
#[derive(Debug, Clone, Copy, PartialEq, Eq, Structural)]
pub enum ParamError {
    /// The block's layout is not the one of the parameter's kind.
    KindMismatch,
    /// A string block that is not a nul-terminated byte string.
    InvalidText,
}

/// The contents of a parameter block, in the layout of its kind.
#[derive(Debug, Clone, Copy)]
pub enum WireParam<'a> {
    /// The one binary64 of a boolean or double block, as its bits.
    Double(u64),
    Color(Color),
    Position(Position),
    /// The bytes that a string block points to, with the terminating zero.
    String(&'a [u8]),
}

/// What a parameter block holds, as the contracts speak of it.
pub enum WireView {
    Double(u64),
    Color(Color),
    Position(Position),
    String(Seq<u8>),
}

impl<'a> View for WireParam<'a> {
    type V = WireView;

    open spec fn view(&self) -> WireView {
        match *self {
            WireParam::Double(d) => WireView::Double(d),
            WireParam::Color(c) => WireView::Color(c),
            WireParam::Position(p) => WireView::Position(p),
            WireParam::String(s) => WireView::String(s@),
        }
    }
}

/// The value that a block sets a parameter of `kind` to, or why it cannot.
pub open spec fn spec_decode(kind: ParamKind, w: WireView) -> Result<ParamView, ParamError> {
    match (kind, w) {
        (ParamKind::Bool, WireView::Double(d)) => Ok(ParamView::Bool(spec_at_least_half(d))),
        (ParamKind::Double, WireView::Double(d)) => Ok(ParamView::Double(d)),
        (ParamKind::Color, WireView::Color(c)) => Ok(ParamView::Color(c)),
        (ParamKind::Position, WireView::Position(p)) => Ok(ParamView::Position(p)),
        (ParamKind::String, WireView::String(s)) => if is_c_text(s) {
            Ok(ParamView::String(s))
        } else {
            Err(ParamError::InvalidText)
        },
        _ => Err(ParamError::KindMismatch),
    }
}

/// The block that reports a parameter value.
pub open spec fn spec_encode(v: ParamView) -> WireView {
    match v {
        ParamView::Bool(b) => WireView::Double(spec_bool_bits(b)),
        ParamView::Double(d) => WireView::Double(d),
        ParamView::Color(c) => WireView::Color(c),
        ParamView::Position(p) => WireView::Position(p),
        ParamView::String(s) => WireView::String(s),
    }
}

/// Reads a block as a value of `kind`. A string value borrows the block's
/// bytes; the caller copies them where it keeps them.
pub fn decode<'a>(kind: ParamKind, w: WireParam<'a>) -> (r: Result<ParamRef<'a>, ParamError>)
    ensures
        match r {
            Ok(v) => spec_decode(kind, w@) == Ok::<ParamView, ParamError>(v@),
            Err(e) => spec_decode(kind, w@) == Err::<ParamView, ParamError>(e),
        },
{
    match (kind, w) {
        (ParamKind::Bool, WireParam::Double(d)) => Ok(ParamRef::Bool(at_least_half(d))),
        (ParamKind::Double, WireParam::Double(d)) => Ok(ParamRef::Double(d)),
        (ParamKind::Color, WireParam::Color(c)) => Ok(ParamRef::Color(c)),
        (ParamKind::Position, WireParam::Position(p)) => Ok(ParamRef::Position(p)),
        (ParamKind::String, WireParam::String(s)) => if c_text_ok(s) {
            Ok(ParamRef::String(s))
        } else {
            Err(ParamError::InvalidText)
        },
        _ => Err(ParamError::KindMismatch),
    }
}

/// Writes a value in the block layout of its kind. A string block points to
/// the value's own bytes.
pub fn encode<'a>(v: ParamRef<'a>) -> (r: WireParam<'a>)
    ensures
        r@ == spec_encode(v@),
{
    match v {
        ParamRef::Bool(b) => WireParam::Double(if b { ONE_BITS } else { 0 }),
        ParamRef::Double(d) => WireParam::Double(d),
        ParamRef::Color(c) => WireParam::Color(c),
        ParamRef::Position(p) => WireParam::Position(p),
        ParamRef::String(s) => WireParam::String(s),
    }
}

} // verus!
