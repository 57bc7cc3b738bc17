//! One live plugin instance and the entry points that act on it.
//!
//! Each method is the typed half of one entry point of the interface: the
//! caller reads the host's raw arguments into plain values, and writes back
//! what comes out.
use vstd::prelude::*;
use crate::frame::{
    check_frames, frame_len, kind_inputs, pick_input, spec_check_frames, FrameError,
};
use crate::kind::{PluginKind, PluginType};
use crate::param::{ParamInfo, ParamKind, ParamView};
use crate::params::Params;
use crate::plugin::{valid_geometry, Plugin, PluginKindUpdate, Time, MAX_EXTENT};
use crate::record::{
    check_table, param_info_record, plugin_info_record, spec_param_info_record,
    spec_plugin_info_record, table_ok, ParamInfoRecord, PluginInfoRecord,
};
use crate::wire::{decode, encode, spec_decode, spec_encode, ParamError, WireParam};

verus! {

/// Why no instance was made.
#[derive(Debug, Clone, Copy, PartialEq, Eq, Structural)]
pub enum ConstructError {
    /// Width or height is not a positive multiple of 8 of at most 2048.
    Geometry,
    /// The plugin's parameter table is not fit to serve.
    Table,
}

/// The kind of plugin `P`.
pub open spec fn kind_of<P: Plugin>() -> PluginType {
    <P::Kind as PluginKind>::spec_plugin_type()
}

/// The parameter table of plugin `P`.
pub open spec fn table_of<P: Plugin>() -> Seq<ParamInfo> {
    P::PARAMS@
}

/// Whether `index` is a position in the parameter table of `P`.
pub open spec fn index_of<P: Plugin>(index: i32) -> bool {
    0 <= index < table_of::<P>().len()
}

/// One plugin value with the state that the entry points keep beside it: the
/// number of pixels of a frame and the current parameter values.
pub struct Instance<P> {
    frame_length: usize,
    params: Params,
    inner: P,
}

impl<P> Instance<P> {
    pub closed spec fn spec_frame_length(&self) -> nat {
        self.frame_length as nat
    }

    pub open spec fn spec_params(&self) -> Seq<ParamView> {
        self.spec_param_store()@
    }

    pub closed spec fn spec_plugin(&self) -> P {
        self.inner
    }

    /// The parameter store that the plugin's update reads.
    pub closed spec fn spec_param_store(&self) -> &Params {
        &self.params
    }
}

impl<P: Plugin> Instance<P> {
    /// The table of `P` is fit to serve, and the instance holds one value of
    /// the declared kind for each of its entries.
    pub open spec fn well_formed(&self) -> bool {
        &&& table_ok(table_of::<P>())
        &&& self.spec_params().len() == table_of::<P>().len()
        &&& forall|i: int|
            0 <= i < table_of::<P>().len() ==> {
                &&& (#[trigger] self.spec_params()[i]).kind() == table_of::<P>()[i].spec_kind()
                &&& self.spec_params()[i].well_formed()
            }
    }
}

impl<P> Instance<P> where P: Plugin + PluginKindUpdate<<P as Plugin>::Kind> {
    /// The kind of plugin `P`.
    pub fn plugin_type() -> (r: PluginType)
        ensures
            r == kind_of::<P>(),
    {
        <P::Kind as PluginKind>::plugin_type()
    }

    /// Number of parameters of `P`.
    pub fn param_count() -> (r: usize)
        ensures
            r == table_of::<P>().len(),
    {
        P::PARAMS.len()
    }

    /// Plugin information for the host, or `None` where what `P` declares is
    /// not fit to report.
    pub fn f0r_get_plugin_info() -> (r: Option<PluginInfoRecord>)
        ensures
            r == spec_plugin_info_record(kind_of::<P>(), P::INFO, table_of::<P>().len()),
    {
        plugin_info_record(Self::plugin_type(), &P::INFO, P::PARAMS.len())
    }

    /// Parameter information for the host, or `None` where the entry is not
    /// well formed. An index outside the table is the caller's error.
    pub fn f0r_get_param_info(index: i32) -> (r: Option<ParamInfoRecord>)
        requires
            index_of::<P>(index),
        ensures
            r == spec_param_info_record(table_of::<P>(), index as int),
    {
        param_info_record(P::PARAMS, index)
    }

    /// Makes an instance for frames of `width` by `height` pixels, with each
    /// parameter at its default.
    ///
    /// The geometry is checked here: a host that passes another is refused
    /// with an error rather than trusted.
    pub fn new(width: u32, height: u32) -> (r: Result<Self, ConstructError>)
        ensures
            !valid_geometry(width as int, height as int) ==> r == Err::<Self, ConstructError>(
                ConstructError::Geometry,
            ),
            valid_geometry(width as int, height as int) ==> (r is Ok <==> table_ok(
                table_of::<P>(),
            )),
            valid_geometry(width as int, height as int) && !table_ok(table_of::<P>()) ==> r
                == Err::<Self, ConstructError>(ConstructError::Table),
            match r {
                Ok(inst) => {
                    &&& inst.well_formed()
                    &&& inst.spec_frame_length() == width * height
                    &&& forall|i: int|
                        0 <= i < table_of::<P>().len() ==> #[trigger] inst.spec_params()[i]
                            == table_of::<P>()[i].default@
                },
                Err(_) => true,
            },
    {
        if !(0 < width && width <= MAX_EXTENT && 0 < height && height <= MAX_EXTENT && width % 8
            == 0 && height % 8 == 0) {
            return Err(ConstructError::Geometry);
        }
        if !check_table(P::PARAMS) {
            return Err(ConstructError::Table);
        }
        let w = width as usize;
        let h = height as usize;
        assert(w * h <= 2048 * 2048) by (nonlinear_arith)
            requires
                w <= 2048,
                h <= 2048,
        ;
        let params = Params::from_table(P::PARAMS);
        let inner = P::new(w, h);
        let inst = Instance { frame_length: w * h, params, inner };
        proof {
            assert forall|i: int| 0 <= i < table_of::<P>().len() implies {
                &&& (#[trigger] inst.spec_params()[i]).kind() == table_of::<P>()[i].spec_kind()
                &&& inst.spec_params()[i].well_formed()
            } by {
                assert(table_of::<P>()[i].well_formed());
            }
        }
        Ok(inst)
    }

    /// Number of pixels in each frame of this instance.
    pub fn frame_length(&self) -> (r: usize)
        ensures
            r == self.spec_frame_length(),
    {
        self.frame_length
    }

    /// The kind of parameter `index`, which fixes the layout of its blocks,
    /// or `None` where `index` is outside the table.
    pub fn param_kind(index: i32) -> (r: Option<ParamKind>)
        ensures
            r == (if index_of::<P>(index) {
                Some(table_of::<P>()[index as int].spec_kind())
            } else {
                None
            }),
    {
        if index < 0 || index as usize >= P::PARAMS.len() {
            None
        } else {
            Some(P::PARAMS[index as usize].kind())
        }
    }

    /// Sets parameter `index` from a block, read in the layout of the kind
    /// that the table gives that index. The value replaces the old one
    /// whole; string bytes are copied into storage of the instance. An index
    /// outside the table is the caller's error.
    pub fn f0r_set_param_value(&mut self, param: WireParam<'_>, index: i32) -> (r: Result<
        (),
        ParamError,
    >)
        requires
            old(self).well_formed(),
            index_of::<P>(index),
        ensures
            final(self).well_formed(),
            final(self).spec_frame_length() == old(self).spec_frame_length(),
            final(self).spec_plugin() == old(self).spec_plugin(),
            match spec_decode(table_of::<P>()[index as int].spec_kind(), param@) {
                Ok(v) => {
                    &&& r is Ok
                    &&& final(self).spec_params() == old(self).spec_params().update(index as int, v)
                },
                Err(e) => {
                    &&& r == Err::<(), ParamError>(e)
                    &&& final(self).spec_params() == old(self).spec_params()
                },
            },
    {
        let i = index as usize;
        let kind = P::PARAMS[i].kind();
        match decode(kind, param) {
            Ok(v) => {
                self.params.set(i, v);
                proof {
                    assert(self.spec_params()[i as int] == v@);
                    assert forall|j: int| 0 <= j < table_of::<P>().len() implies {
                        &&& (#[trigger] self.spec_params()[j]).kind()
                            == table_of::<P>()[j].spec_kind()
                        &&& self.spec_params()[j].well_formed()
                    } by {
                        if j != i {
                            assert(self.spec_params()[j] == old(self).spec_params()[j]);
                        }
                    }
                }
                Ok(())
            },
            Err(e) => Err(e),
        }
    }

    /// The block that reports parameter `index`. A string block points to
    /// the bytes that the instance holds, valid until that parameter is next
    /// set or the instance is dropped. An index outside the table is the
    /// caller's error.
    pub fn f0r_get_param_value(&self, index: i32) -> (r: WireParam<'_>)
        requires
            self.well_formed(),
            index_of::<P>(index),
        ensures
            r@ == spec_encode(self.spec_params()[index as int]),
    {
        encode(self.params.get(index as usize))
    }

    /// Runs the update of the plugin's kind, handed exactly the input frames
    /// that `kind_inputs` picks for that kind. Inputs beyond those are never
    /// looked at.
    pub fn f0r_update2(
        &mut self,
        time: Time,
        inframe1: Option<&[u32]>,
        inframe2: Option<&[u32]>,
        inframe3: Option<&[u32]>,
        outframe: &mut [u32],
    ) -> (r: Result<(), FrameError>)
        requires
            old(self).well_formed(),
        ensures
            r == spec_check_frames(
                kind_of::<P>(),
                old(self).spec_frame_length(),
                seq![frame_len(inframe1), frame_len(inframe2), frame_len(inframe3)],
                old(outframe)@.len(),
            ),
            final(self).well_formed(),
            final(self).spec_params() == old(self).spec_params(),
            final(self).spec_frame_length() == old(self).spec_frame_length(),
            r is Err ==> *final(self) == *old(self) && final(outframe)@ == old(outframe)@,
            r is Ok ==> exists|p: &mut P, o: &mut [u32]|
                {
                    &&& *p == old(self).spec_plugin()
                    &&& *final(p) == final(self).spec_plugin()
                    &&& o@ == old(outframe)@
                    &&& final(o)@ == final(outframe)@
                    &&& #[trigger] <P as PluginKindUpdate<<P as Plugin>::Kind>>::spec_update(
                        p,
                        time,
                        old(self).spec_param_store(),
                        pick_input(kind_of::<P>(), 0, inframe1),
                        pick_input(kind_of::<P>(), 1, inframe2),
                        pick_input(kind_of::<P>(), 2, inframe3),
                        o,
                    )
                },
    {
        let kind = Self::plugin_type();
        let checked = check_frames(
            kind,
            self.frame_length,
            inframe1,
            inframe2,
            inframe3,
            outframe.len(),
        );
        if checked.is_err() {
            return checked;
        }
        let (in1, in2, in3) = kind_inputs(kind, inframe1, inframe2, inframe3);
        self.inner.update(time, &self.params, in1, in2, in3, outframe);
        Ok(())
    }
}

} // verus!
