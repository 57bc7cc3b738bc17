//! Parameter kinds, values and descriptors.
//!
//! Floating-point values travel through this crate as their IEEE 754 bit
//! patterns: the library stores, copies and compares them, and never computes
//! with them.
use vstd::prelude::*;
use vstd::slice::slice_to_vec;
use crate::abi;

verus! {

/// Type of a parameter.
#[derive(Debug, Clone, Copy, PartialEq, Eq, Structural)]
pub enum ParamKind {
    Bool,
    Double,
    Color,
    Position,
    String,
}

impl ParamKind {
    /// Code of this kind in the parameter-info record.
    pub open spec fn spec_code(self) -> i32 {
        match self {
            ParamKind::Bool => abi::F0R_PARAM_BOOL,
            ParamKind::Double => abi::F0R_PARAM_DOUBLE,
            ParamKind::Color => abi::F0R_PARAM_COLOR,
            ParamKind::Position => abi::F0R_PARAM_POSITION,
            ParamKind::String => abi::F0R_PARAM_STRING,
        }
    }

    pub fn code(self) -> (r: i32)
        ensures
            r == self.spec_code(),
    {
        match self {
            ParamKind::Bool => abi::F0R_PARAM_BOOL,
            ParamKind::Double => abi::F0R_PARAM_DOUBLE,
            ParamKind::Color => abi::F0R_PARAM_COLOR,
            ParamKind::Position => abi::F0R_PARAM_POSITION,
            ParamKind::String => abi::F0R_PARAM_STRING,
        }
    }
}

/// Color parameter.
///
/// Each component is the bit pattern of a binary32 value in the range [0, 1].
#[derive(Debug, Clone, Copy, PartialEq, Eq, Structural)]
pub struct Color {
    /// Red component.
    pub r: u32,
    /// Green component.
    pub g: u32,
    /// Blue component.
    pub b: u32,
}

/// Position parameter.
///
/// Each coordinate is the bit pattern of a binary64 value in the range [0, 1].
#[derive(Debug, Clone, Copy, PartialEq, Eq, Structural)]
pub struct Position {
    pub x: u64,
    pub y: u64,
}

/// A nul-terminated byte string: at least one byte, the last one zero, no
/// other zero.
pub open spec fn is_c_text(s: Seq<u8>) -> bool {
    &&& s.len() > 0
    &&& s.last() == 0
    &&& forall|i: int| 0 <= i < s.len() - 1 ==> s[i] != 0
}

/// Tells whether `s` is a nul-terminated byte string.
pub fn c_text_ok(s: &[u8]) -> (r: bool)
    ensures
        r == is_c_text(s@),
{
    let n = s.len();
    if n == 0 {
        return false;
    }
    let mut i: usize = 0;
    while i < n - 1
        invariant
            n == s@.len(),
            n > 0,
            i <= n - 1,
            forall|j: int| 0 <= j < i ==> s@[j] != 0,
        decreases n - 1 - i,
    {
        if s[i] == 0 {
            return false;
        }
        i = i + 1;
    }
    s[n - 1] == 0
}

/// What a parameter holds, as the contracts speak of it.
pub enum ParamView {
    Bool(bool),
    Double(u64),
    Color(Color),
    Position(Position),
    /// The bytes of a string, with its terminating zero.
    String(Seq<u8>),
}

impl ParamView {
    pub open spec fn kind(self) -> ParamKind {
        match self {
            ParamView::Bool(_) => ParamKind::Bool,
            ParamView::Double(_) => ParamKind::Double,
            ParamView::Color(_) => ParamKind::Color,
            ParamView::Position(_) => ParamKind::Position,
            ParamView::String(_) => ParamKind::String,
        }
    }

    /// A string value is a nul-terminated byte string; other values are
    /// always well formed.
    pub open spec fn well_formed(self) -> bool {
        match self {
            ParamView::String(s) => is_c_text(s),
            _ => true,
        }
    }
}

/// A parameter value that borrows its string bytes.
#[derive(Debug, Clone, Copy)]
pub enum ParamRef<'a> {
    Bool(bool),
    Double(u64),
    Color(Color),
    Position(Position),
    /// The bytes of a string, with its terminating zero.
    String(&'a [u8]),
}

impl<'a> View for ParamRef<'a> {
    type V = ParamView;

    open spec fn view(&self) -> ParamView {
        match *self {
            ParamRef::Bool(b) => ParamView::Bool(b),
            ParamRef::Double(d) => ParamView::Double(d),
            ParamRef::Color(c) => ParamView::Color(c),
            ParamRef::Position(p) => ParamView::Position(p),
            ParamRef::String(s) => ParamView::String(s@),
        }
    }
}

impl<'a> ParamRef<'a> {
    pub fn kind(&self) -> (r: ParamKind)
        ensures
            r == self@.kind(),
    {
        match *self {
            ParamRef::Bool(_) => ParamKind::Bool,
            ParamRef::Double(_) => ParamKind::Double,
            ParamRef::Color(_) => ParamKind::Color,
            ParamRef::Position(_) => ParamKind::Position,
            ParamRef::String(_) => ParamKind::String,
        }
    }
}

/// A parameter value that owns its string bytes.
#[derive(Debug)]
pub enum ParamValue {
    Bool(bool),
    Double(u64),
    Color(Color),
    Position(Position),
    /// The bytes of a string, with its terminating zero.
    String(Vec<u8>),
}

impl View for ParamValue {
    type V = ParamView;

    open spec fn view(&self) -> ParamView {
        match *self {
            ParamValue::Bool(b) => ParamView::Bool(b),
            ParamValue::Double(d) => ParamView::Double(d),
            ParamValue::Color(c) => ParamView::Color(c),
            ParamValue::Position(p) => ParamView::Position(p),
            ParamValue::String(s) => ParamView::String(s@),
        }
    }
}

impl ParamValue {
    /// Copies a value into storage of its own; string bytes are copied.
    pub fn from_ref(v: ParamRef<'_>) -> (r: Self)
        ensures
            r@ == v@,
    {
        match v {
            ParamRef::Bool(b) => ParamValue::Bool(b),
            ParamRef::Double(d) => ParamValue::Double(d),
            ParamRef::Color(c) => ParamValue::Color(c),
            ParamRef::Position(p) => ParamValue::Position(p),
            ParamRef::String(s) => ParamValue::String(slice_to_vec(s)),
        }
    }

    /// Borrows the value; a string borrows the bytes held here.
    pub fn as_ref(&self) -> (r: ParamRef<'_>)
        ensures
            r@ == self@,
    {
        match self {
            ParamValue::Bool(b) => ParamRef::Bool(*b),
            ParamValue::Double(d) => ParamRef::Double(*d),
            ParamValue::Color(c) => ParamRef::Color(*c),
            ParamValue::Position(p) => ParamRef::Position(*p),
            ParamValue::String(s) => ParamRef::String(s.as_slice()),
        }
    }
}

/// Information about a parameter: its name, its explanation, and its value
/// when an instance is made, which also fixes its kind. Name and explanation
/// are nul-terminated byte strings.
#[derive(Debug, Clone, Copy)]
pub struct ParamInfo {
    pub name: &'static [u8],
    pub explanation: &'static [u8],
    pub default: ParamRef<'static>,
}

impl ParamInfo {
    pub open spec fn spec_kind(self) -> ParamKind {
        self.default@.kind()
    }

    /// Name and explanation are nul-terminated byte strings, and so is a
    /// string default.
    pub open spec fn well_formed(self) -> bool {
        &&& is_c_text(self.name@)
        &&& is_c_text(self.explanation@)
        &&& self.default@.well_formed()
    }

    pub fn kind(&self) -> (r: ParamKind)
        ensures
            r == self.spec_kind(),
    {
        self.default.kind()
    }

    /// Tells whether the descriptor is well formed.
    pub fn check(&self) -> (r: bool)
        ensures
            r == self.well_formed(),
    {
        let text_ok = match self.default {
            ParamRef::String(s) => c_text_ok(s),
            _ => true,
        };
        c_text_ok(self.name) && c_text_ok(self.explanation) && text_ok
    }
}

} // verus!
