//! The four plugin kinds: how many input frames an update reads.
use vstd::prelude::*;
use crate::abi;
use crate::sealed::Sealed;

verus! {

/// Type of the plugin: whether it is a source, a filter or one of the two
/// mixer types.
#[derive(Debug, Clone, Copy, PartialEq, Eq, Structural)]
pub enum PluginType {
    /// One input and one output.
    Filter,
    /// Just one output.
    Source,
    /// Two inputs and one output.
    Mixer2,
    /// Three inputs and one output.
    Mixer3,
}

impl PluginType {
    /// Number of input frames that an update of this kind reads.
    pub open spec fn spec_input_count(self) -> nat {
        match self {
            PluginType::Source => 0,
            PluginType::Filter => 1,
            PluginType::Mixer2 => 2,
            PluginType::Mixer3 => 3,
        }
    }

    /// Code of this kind in the plugin-info record.
    pub open spec fn spec_code(self) -> i32 {
        match self {
            PluginType::Filter => abi::F0R_PLUGIN_TYPE_FILTER,
            PluginType::Source => abi::F0R_PLUGIN_TYPE_SOURCE,
            PluginType::Mixer2 => abi::F0R_PLUGIN_TYPE_MIXER2,
            PluginType::Mixer3 => abi::F0R_PLUGIN_TYPE_MIXER3,
        }
    }

    pub fn input_count(self) -> (r: usize)
        ensures
            r == self.spec_input_count(),
    {
        match self {
            PluginType::Source => 0,
            PluginType::Filter => 1,
            PluginType::Mixer2 => 2,
            PluginType::Mixer3 => 3,
        }
    }

    pub fn code(self) -> (r: i32)
        ensures
            r == self.spec_code(),
    {
        match self {
            PluginType::Filter => abi::F0R_PLUGIN_TYPE_FILTER,
            PluginType::Source => abi::F0R_PLUGIN_TYPE_SOURCE,
            PluginType::Mixer2 => abi::F0R_PLUGIN_TYPE_MIXER2,
            PluginType::Mixer3 => abi::F0R_PLUGIN_TYPE_MIXER3,
        }
    }
}

/// Marker trait that fixes the kind of a plugin at the type level.
///
/// Implemented by [`KindSource`], [`KindFilter`], [`KindMixer2`] and
/// [`KindMixer3`], and by nothing else.
pub trait PluginKind: Sealed {
    /// The kind that this marker stands for.
    spec fn spec_plugin_type() -> PluginType;

    fn plugin_type() -> (r: PluginType)
        ensures
            r == Self::spec_plugin_type(),
    ;
}

/// Marker type representing a source plugin.
#[derive(Debug, Clone, Copy)]
pub struct KindSource;

/// Marker type representing a filter plugin.
#[derive(Debug, Clone, Copy)]
pub struct KindFilter;

/// Marker type representing a mixer of two inputs.
#[derive(Debug, Clone, Copy)]
pub struct KindMixer2;

/// Marker type representing a mixer of three inputs.
#[derive(Debug, Clone, Copy)]
pub struct KindMixer3;

impl Sealed for KindSource {}

impl Sealed for KindFilter {}

impl Sealed for KindMixer2 {}

impl Sealed for KindMixer3 {}

impl PluginKind for KindSource {
    open spec fn spec_plugin_type() -> PluginType {
        PluginType::Source
    }

    fn plugin_type() -> (r: PluginType) {
        PluginType::Source
    }
}

impl PluginKind for KindFilter {
    open spec fn spec_plugin_type() -> PluginType {
        PluginType::Filter
    }

    fn plugin_type() -> (r: PluginType) {
        PluginType::Filter
    }
}

impl PluginKind for KindMixer2 {
    open spec fn spec_plugin_type() -> PluginType {
        PluginType::Mixer2
    }

    fn plugin_type() -> (r: PluginType) {
        PluginType::Mixer2
    }
}

impl PluginKind for KindMixer3 {
    open spec fn spec_plugin_type() -> PluginType {
        PluginType::Mixer3
    }

    fn plugin_type() -> (r: PluginType) {
        PluginType::Mixer3
    }
}

} // verus!
