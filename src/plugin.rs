//! What a plugin presents: its metadata, its parameter table, its constructor
//! and the one update operation that its kind calls for.
use vstd::prelude::*;
use crate::abi;
use crate::frame::frame_len;
use crate::kind::{KindFilter, KindMixer2, KindMixer3, KindSource, PluginKind};
use crate::param::ParamInfo;
use crate::params::Params;

verus! {

/// Largest width or height of a frame.
pub const MAX_EXTENT: u32 = 2048;

/// A frame geometry that the interface allows: width and height positive
/// multiples of 8, at most 2048.
pub open spec fn valid_geometry(width: int, height: int) -> bool {
    &&& 0 < width <= MAX_EXTENT
    &&& 0 < height <= MAX_EXTENT
    &&& width % 8 == 0
    &&& height % 8 == 0
}

/// List of supported color models.
///
/// Each pixel is 4 bytes; a frame is width * height pixels stored row by
/// row, top row first, with no padding between rows.
#[derive(Debug, Clone, Copy, PartialEq, Eq, Structural)]
#[allow(non_camel_case_types)]
pub enum ColorModel {
    /// Bytes blue, green, red, alpha.
    BGRA8888,
    /// Bytes red, green, blue, alpha.
    RGBA8888,
    /// Four bytes whose meaning is not defined; for effects that move pixels
    /// without reading their color. Source plugins must not use it.
    PACKED32,
}

impl ColorModel {
    /// Code of this model in the plugin-info record.
    pub open spec fn spec_code(self) -> i32 {
        match self {
            ColorModel::BGRA8888 => abi::F0R_COLOR_MODEL_BGRA8888,
            ColorModel::RGBA8888 => abi::F0R_COLOR_MODEL_RGBA8888,
            ColorModel::PACKED32 => abi::F0R_COLOR_MODEL_PACKED32,
        }
    }

    pub fn code(self) -> (r: i32)
        ensures
            r == self.spec_code(),
    {
        match self {
            ColorModel::BGRA8888 => abi::F0R_COLOR_MODEL_BGRA8888,
            ColorModel::RGBA8888 => abi::F0R_COLOR_MODEL_RGBA8888,
            ColorModel::PACKED32 => abi::F0R_COLOR_MODEL_PACKED32,
        }
    }
}

/// The plugin's name, author, color model and version. Each text is a
/// nul-terminated byte string.
#[derive(Debug, Clone, Copy)]
pub struct PluginInfo {
    /// The (short) name of the plugin.
    pub name: &'static [u8],
    /// The plugin author.
    pub author: &'static [u8],
    /// The color model used.
    pub color_model: ColorModel,
    /// The major version of the plugin.
    pub major_version: i32,
    /// The minor version of the plugin.
    pub minor_version: i32,
    /// An optional explanation.
    pub explanation: Option<&'static [u8]>,
}

/// The time of a frame, in seconds: the bit pattern of a binary64 value.
#[derive(Debug, Clone, Copy, PartialEq, Eq, Structural)]
pub struct Time {
    pub bits: u64,
}

/// The plugin base trait. A plugin also implements the one of
/// [`SourcePlugin`], [`FilterPlugin`], [`Mixer2Plugin`] and [`Mixer3Plugin`]
/// that its `Kind` names.
pub trait Plugin: Sized {
    /// The plugin's kind.
    type Kind: PluginKind;

    /// The plugin information.
    const INFO: PluginInfo;

    /// The list of plugin parameters.
    const PARAMS: &'static [ParamInfo];

    /// Constructor for effect instances, for a frame of `width` by `height`
    /// pixels.
    fn new(width: usize, height: usize) -> Self
        requires
            valid_geometry(width as int, height as int),
    ;
}

/// A source plugin, to implement where `Plugin::Kind` is [`KindSource`].
pub trait SourcePlugin: Plugin<Kind = KindSource> {
    fn update_source(&mut self, time: Time, params: &Params, outframe: &mut [u32]);
}

/// A filter plugin, to implement where `Plugin::Kind` is [`KindFilter`].
pub trait FilterPlugin: Plugin<Kind = KindFilter> {
    fn update_filter(&mut self, time: Time, params: &Params, inframe: &[u32], outframe: &mut [u32])
        requires
            inframe@.len() == old(outframe)@.len(),
    ;
}

/// A mixer of two inputs, to implement where `Plugin::Kind` is
/// [`KindMixer2`].
pub trait Mixer2Plugin: Plugin<Kind = KindMixer2> {
    fn update_mixer2(
        &mut self,
        time: Time,
        params: &Params,
        inframe1: &[u32],
        inframe2: &[u32],
        outframe: &mut [u32],
    )
        requires
            inframe1@.len() == old(outframe)@.len(),
            inframe2@.len() == old(outframe)@.len(),
    ;
}

/// A mixer of three inputs, to implement where `Plugin::Kind` is
/// [`KindMixer3`].
pub trait Mixer3Plugin: Plugin<Kind = KindMixer3> {
    fn update_mixer3(
        &mut self,
        time: Time,
        params: &Params,
        inframe1: &[u32],
        inframe2: &[u32],
        inframe3: &[u32],
        outframe: &mut [u32],
    )
        requires
            inframe1@.len() == old(outframe)@.len(),
            inframe2@.len() == old(outframe)@.len(),
            inframe3@.len() == old(outframe)@.len(),
    ;
}

/// The input frames that an update of kind `K` reads are all present, each
/// as long as the output frame of `n` pixels.
pub open spec fn inputs_fit<K: PluginKind>(
    in1: Option<&[u32]>,
    in2: Option<&[u32]>,
    in3: Option<&[u32]>,
    n: nat,
) -> bool {
    let count = K::spec_plugin_type().spec_input_count();
    &&& count >= 1 ==> frame_len(in1) == Some(n)
    &&& count >= 2 ==> frame_len(in2) == Some(n)
    &&& count >= 3 ==> frame_len(in3) == Some(n)
}

/// Bridges the kind of a plugin to the one update operation of that kind.
///
/// Implemented here once for each kind, for every plugin of that kind. The
/// update hands the plugin's own update method the output frame and the
/// input frames that the kind reads, in order, and nothing else.
pub trait PluginKindUpdate<K: PluginKind>: Sized {
    /// The plugin's own update method for kind `K`, called through `plugin`
    /// and `outframe` with these inputs, may return.
    spec fn spec_update(
        plugin: &mut Self,
        time: Time,
        params: &Params,
        inframe1: Option<&[u32]>,
        inframe2: Option<&[u32]>,
        inframe3: Option<&[u32]>,
        outframe: &mut [u32],
    ) -> bool;

    fn update(
        &mut self,
        time: Time,
        params: &Params,
        inframe1: Option<&[u32]>,
        inframe2: Option<&[u32]>,
        inframe3: Option<&[u32]>,
        outframe: &mut [u32],
    )
        requires
            inputs_fit::<K>(inframe1, inframe2, inframe3, old(outframe)@.len()),
        ensures
            exists|p: &mut Self, o: &mut [u32]|
                                {
                    &&& *p == *old(self)
                    &&& *final(p) == *final(self)
                    &&& o@ == old(outframe)@
                    &&& final(o)@ == final(outframe)@
                    &&& #[trigger] Self::spec_update(p, time, params, inframe1, inframe2, inframe3, o)
                },
    ;
}

impl<T: SourcePlugin> PluginKindUpdate<KindSource> for T {
    /// `update_source` ran on the output frame alone.
    open spec fn spec_update(
        plugin: &mut Self,
        time: Time,
        params: &Params,
        inframe1: Option<&[u32]>,
        inframe2: Option<&[u32]>,
        inframe3: Option<&[u32]>,
        outframe: &mut [u32],
    ) -> bool {
        call_ensures(T::update_source, (plugin, time, params, outframe), ())
    }

    fn update(
        &mut self,
        time: Time,
        params: &Params,
        inframe1: Option<&[u32]>,
        inframe2: Option<&[u32]>,
        inframe3: Option<&[u32]>,
        outframe: &mut [u32],
    ) {
        self.update_source(time, params, outframe);
        proof {
            assert(exists|p: &mut T, o: &mut [u32]|
                *p == *old(self) && *final(p) == *final(self) && o@ == old(outframe)@ && final(o)@
                    == final(outframe)@ && call_ensures(
                    T::update_source,
                    (p, time, params, o),
                    (),
                ));
            let (p, o) = choose|p: &mut T, o: &mut [u32]|
                *p == *old(self) && *final(p) == *final(self) && o@ == old(outframe)@ && final(o)@
                    == final(outframe)@ && call_ensures(
                    T::update_source,
                    (p, time, params, o),
                    (),
                );
            assert(Self::spec_update(p, time, params, inframe1, inframe2, inframe3, o));
        }
    }
}

impl<T: FilterPlugin> PluginKindUpdate<KindFilter> for T {
    /// `update_filter` ran on the first input and the output frame.
    open spec fn spec_update(
        plugin: &mut Self,
        time: Time,
        params: &Params,
        inframe1: Option<&[u32]>,
        inframe2: Option<&[u32]>,
        inframe3: Option<&[u32]>,
        outframe: &mut [u32],
    ) -> bool {
        call_ensures(
                T::update_filter,
                (plugin, time, params, inframe1->Some_0, outframe),
                (),
            )
    }

    fn update(
        &mut self,
        time: Time,
        params: &Params,
        inframe1: Option<&[u32]>,
        inframe2: Option<&[u32]>,
        inframe3: Option<&[u32]>,
        outframe: &mut [u32],
    ) {
        self.update_filter(time, params, inframe1.unwrap(), outframe);
        proof {
            assert(exists|p: &mut T, o: &mut [u32]|
                *p == *old(self) && *final(p) == *final(self) && o@ == old(outframe)@ && final(o)@
                    == final(outframe)@ && call_ensures(
                    T::update_filter,
                    (p, time, params, inframe1->Some_0, o),
                    (),
                ));
            let (p, o) = choose|p: &mut T, o: &mut [u32]|
                *p == *old(self) && *final(p) == *final(self) && o@ == old(outframe)@ && final(o)@
                    == final(outframe)@ && call_ensures(
                    T::update_filter,
                    (p, time, params, inframe1->Some_0, o),
                    (),
                );
            assert(Self::spec_update(p, time, params, inframe1, inframe2, inframe3, o));
        }
    }
}

impl<T: Mixer2Plugin> PluginKindUpdate<KindMixer2> for T {
    /// `update_mixer2` ran on the first two inputs and the output frame.
    open spec fn spec_update(
        plugin: &mut Self,
        time: Time,
        params: &Params,
        inframe1: Option<&[u32]>,
        inframe2: Option<&[u32]>,
        inframe3: Option<&[u32]>,
        outframe: &mut [u32],
    ) -> bool {
        call_ensures(
                T::update_mixer2,
                (plugin, time, params, inframe1->Some_0, inframe2->Some_0, outframe),
                (),
            )
    }

    fn update(
        &mut self,
        time: Time,
        params: &Params,
        inframe1: Option<&[u32]>,
        inframe2: Option<&[u32]>,
        inframe3: Option<&[u32]>,
        outframe: &mut [u32],
    ) {
        self.update_mixer2(time, params, inframe1.unwrap(), inframe2.unwrap(), outframe);
        proof {
            assert(exists|p: &mut T, o: &mut [u32]|
                *p == *old(self) && *final(p) == *final(self) && o@ == old(outframe)@ && final(o)@
                    == final(outframe)@ && call_ensures(
                    T::update_mixer2,
                    (p, time, params, inframe1->Some_0, inframe2->Some_0, o),
                    (),
                ));
            let (p, o) = choose|p: &mut T, o: &mut [u32]|
                *p == *old(self) && *final(p) == *final(self) && o@ == old(outframe)@ && final(o)@
                    == final(outframe)@ && call_ensures(
                    T::update_mixer2,
                    (p, time, params, inframe1->Some_0, inframe2->Some_0, o),
                    (),
                );
            assert(Self::spec_update(p, time, params, inframe1, inframe2, inframe3, o));
        }
    }
}

impl<T: Mixer3Plugin> PluginKindUpdate<KindMixer3> for T {
    /// `update_mixer3` ran on the three inputs and the output frame.
    open spec fn spec_update(
        plugin: &mut Self,
        time: Time,
        params: &Params,
        inframe1: Option<&[u32]>,
        inframe2: Option<&[u32]>,
        inframe3: Option<&[u32]>,
        outframe: &mut [u32],
    ) -> bool {
        call_ensures(
                T::update_mixer3,
                (plugin, time, params, inframe1->Some_0, inframe2->Some_0, inframe3->Some_0, outframe),
                (),
            )
    }

    fn update(
        &mut self,
        time: Time,
        params: &Params,
        inframe1: Option<&[u32]>,
        inframe2: Option<&[u32]>,
        inframe3: Option<&[u32]>,
        outframe: &mut [u32],
    ) {
        self.update_mixer3(
            time,
            params,
            inframe1.unwrap(),
            inframe2.unwrap(),
            inframe3.unwrap(),
            outframe,
        );
        proof {
            assert(exists|p: &mut T, o: &mut [u32]|
                *p == *old(self) && *final(p) == *final(self) && o@ == old(outframe)@ && final(o)@
                    == final(outframe)@ && call_ensures(
                    T::update_mixer3,
                    (p, time, params, inframe1->Some_0, inframe2->Some_0, inframe3->Some_0, o),
                    (),
                ));
            let (p, o) = choose|p: &mut T, o: &mut [u32]|
                *p == *old(self) && *final(p) == *final(self) && o@ == old(outframe)@ && final(o)@
                    == final(outframe)@ && call_ensures(
                    T::update_mixer3,
                    (p, time, params, inframe1->Some_0, inframe2->Some_0, inframe3->Some_0, o),
                    (),
                );
            assert(Self::spec_update(p, time, params, inframe1, inframe2, inframe3, o));
        }
    }
}

} // verus!
