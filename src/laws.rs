//! Properties that relate several operations of the library.
use vstd::prelude::*;
use crate::frame::{pick_input, spec_check_frames, spec_reads_input};
use crate::kind::PluginType;
use crate::param::{ParamInfo, ParamKind, ParamView};
use crate::plugin::PluginInfo;
use crate::record::{spec_param_info_record, spec_plugin_info_record, table_ok};
use crate::wire::{
    spec_at_least_half, spec_bool_bits, spec_decode, spec_encode, ParamError, WireView,
};

verus! {

/// Setting a parameter from a block and reading it back gives the same block,
/// for every kind but the boolean. A boolean comes back as 1.0 where the block
/// held a value of at least 0.5, and as 0.0 otherwise.
pub proof fn lemma_set_then_get(kind: ParamKind, w: WireView)
    requires
        spec_decode(kind, w) is Ok,
    ensures
        kind != ParamKind::Bool ==> spec_encode(spec_decode(kind, w)->Ok_0) == w,
        kind == ParamKind::Bool ==> {
            &&& w is Double
            &&& spec_encode(spec_decode(kind, w)->Ok_0) == WireView::Double(
                spec_bool_bits(spec_at_least_half(w->Double_0)),
            )
        },
{
}

/// Reading a parameter and setting it back from the block that was read
/// leaves its value as it was.
pub proof fn lemma_get_then_set(v: ParamView)
    requires
        v.well_formed(),
    ensures
        spec_decode(v.kind(), spec_encode(v)) == Ok::<ParamView, ParamError>(v),
{
    match v {
        ParamView::Bool(b) => {
            assert(spec_at_least_half(spec_bool_bits(b)) == b);
        },
        _ => {},
    }
}

/// The parameter-info query answers exactly the indices from 0 to one less
/// than the count that the plugin-info record reports, and its answer depends
/// on the table and the index alone.
pub proof fn lemma_param_indices(
    kind: PluginType,
    info: PluginInfo,
    table: Seq<ParamInfo>,
    index: int,
)
    requires
        table_ok(table),
        spec_plugin_info_record(kind, info, table.len()) is Some,
    ensures
        0 <= index < spec_plugin_info_record(kind, info, table.len())->Some_0.num_params
            <==> 0 <= index < table.len(),
        0 <= index < table.len() ==> spec_param_info_record(table, index) is Some,
        0 <= index < table.len() ==> {
            let r = spec_param_info_record(table, index)->Some_0;
            &&& r.name == table[index].name
            &&& r.kind_code == table[index].spec_kind().spec_code()
            &&& r.explanation == table[index].explanation
        },
{
    if 0 <= index < table.len() {
        assert(table[index].well_formed());
    }
}

/// An update reads only the input frames of its kind: a source reads none, a
/// filter the first alone, a two-input mixer the first two. The verdict on a
/// set of frames does not depend on the inputs that are not read, and those
/// inputs reach the plugin as `None`.
pub proof fn lemma_unread_inputs(
    kind: PluginType,
    n: nat,
    a: Seq<Option<nat>>,
    b: Seq<Option<nat>>,
    out_len: nat,
)
    requires
        a.len() == 3,
        b.len() == 3,
        forall|k: int| spec_reads_input(kind, k) ==> a[k] == b[k],
    ensures
        spec_check_frames(kind, n, a, out_len) == spec_check_frames(kind, n, b, out_len),
        kind == PluginType::Source ==> forall|k: int| !spec_reads_input(kind, k),
        kind == PluginType::Filter ==> forall|k: int| spec_reads_input(kind, k) <==> k == 0,
        kind == PluginType::Mixer2 ==> forall|k: int| spec_reads_input(kind, k) <==> 0 <= k < 2,
        kind == PluginType::Source ==> forall|k: int, f: Option<&[u32]>|
            #[trigger] pick_input(kind, k, f) == None::<&[u32]>,
        kind == PluginType::Filter ==> forall|f: Option<&[u32]>|
            #[trigger] pick_input(kind, 1, f) == None::<&[u32]> && pick_input(kind, 2, f) == None::<
                &[u32],
            >,
{
    assert(spec_reads_input(kind, 0) ==> a[0] == b[0]);
    assert(spec_reads_input(kind, 1) ==> a[1] == b[1]);
    assert(spec_reads_input(kind, 2) ==> a[2] == b[2]);
}

} // verus!
