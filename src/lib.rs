//! Typed plugin authoring for the frei0r video-effect interface.
//!
//! A host loads a plugin unit and drives it through a fixed set of untyped
//! entry points. This library holds the logic between those entry points and a
//! plugin written as an ordinary typed value: the four plugin kinds and their
//! frame shapes, the parameter table, the encoding of parameter values in the
//! wire blocks, and the per-instance state that the entry points act on.
mod sealed;
pub mod abi;
pub mod frame;
pub mod instance;
pub mod kind;
pub mod laws;
pub mod param;
pub mod params;
pub mod plugin;
pub mod record;
pub mod wire;

pub use frame::{check_frames, reads_input, shift_wrap, FrameError};
pub use instance::{ConstructError, Instance};
pub use kind::{KindFilter, KindMixer2, KindMixer3, KindSource, PluginKind, PluginType};
pub use param::{c_text_ok, Color, ParamInfo, ParamKind, ParamRef, ParamValue, Position};
pub use params::Params;
pub use plugin::{
    ColorModel, FilterPlugin, Mixer2Plugin, Mixer3Plugin, Plugin, PluginInfo, PluginKindUpdate,
    SourcePlugin, Time,
};
pub use record::{ParamInfoRecord, PluginInfoRecord};
pub use wire::{decode, encode, ParamError, WireParam};
