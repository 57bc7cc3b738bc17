//! The metadata records that the host reads: plugin information and
//! parameter information.
use vstd::prelude::*;
use crate::abi;
use crate::kind::PluginType;
use crate::param::{c_text_ok, is_c_text, ParamInfo};
use crate::plugin::{ColorModel, PluginInfo};

verus! {

/// Largest number of parameters that the plugin-info record can report.
pub const MAX_PARAMS: usize = 0x7FFF_FFFF;

/// The fields of the plugin-info record.
#[derive(Debug, Clone, Copy)]
pub struct PluginInfoRecord {
    pub name: &'static [u8],
    pub author: &'static [u8],
    pub plugin_type: i32,
    pub color_model: i32,
    pub frei0r_version: i32,
    pub major_version: i32,
    pub minor_version: i32,
    pub num_params: i32,
    pub explanation: Option<&'static [u8]>,
}

/// The fields of the parameter-info record.
#[derive(Debug, Clone, Copy)]
pub struct ParamInfoRecord {
    pub name: &'static [u8],
    pub kind_code: i32,
    pub explanation: &'static [u8],
}

/// The plugin information is fit to report for a plugin of `kind`: its texts
/// are nul-terminated byte strings, and a source does not declare the packed
/// color model, whose byte order the host could not know.
pub open spec fn info_ok(kind: PluginType, info: PluginInfo) -> bool {
    &&& is_c_text(info.name@)
    &&& is_c_text(info.author@)
    &&& match info.explanation {
        Some(e) => is_c_text(e@),
        None => true,
    }
    &&& !(kind == PluginType::Source && info.color_model == ColorModel::PACKED32)
}

/// A parameter table is fit to serve: each descriptor well formed, and no
/// more entries than the record can count.
pub open spec fn table_ok(table: Seq<ParamInfo>) -> bool {
    &&& table.len() <= MAX_PARAMS
    &&& forall|i: int| 0 <= i < table.len() ==> (#[trigger] table[i]).well_formed()
}

/// Tells whether a parameter table is fit to serve.
pub fn check_table(table: &[ParamInfo]) -> (r: bool)
    ensures
        r == table_ok(table@),
{
    if table.len() > MAX_PARAMS {
        return false;
    }
    let mut i: usize = 0;
    while i < table.len()
        invariant
            i <= table@.len(),
            forall|j: int| 0 <= j < i ==> (#[trigger] table@[j]).well_formed(),
        decreases table@.len() - i,
    {
        if !table[i].check() {
            return false;
        }
        i = i + 1;
    }
    true
}

/// The plugin-info record of a plugin of `kind` with `num_params`
/// parameters, where the information is fit to report and the count fits.
pub open spec fn spec_plugin_info_record(
    kind: PluginType,
    info: PluginInfo,
    num_params: nat,
) -> Option<PluginInfoRecord> {
    if info_ok(kind, info) && num_params <= MAX_PARAMS {
        Some(
            PluginInfoRecord {
                name: info.name,
                author: info.author,
                plugin_type: kind.spec_code(),
                color_model: info.color_model.spec_code(),
                frei0r_version: abi::FREI0R_MAJOR_VERSION,
                major_version: info.major_version,
                minor_version: info.minor_version,
                num_params: num_params as i32,
                explanation: info.explanation,
            },
        )
    } else {
        None
    }
}

fn optional_text_ok(t: Option<&'static [u8]>) -> (r: bool)
    ensures
        r == match t {
            Some(e) => is_c_text(e@),
            None => true,
        },
{
    match t {
        Some(e) => c_text_ok(e),
        None => true,
    }
}

/// Fills the plugin-info record.
pub fn plugin_info_record(kind: PluginType, info: &PluginInfo, num_params: usize) -> (r: Option<
    PluginInfoRecord,
>)
    ensures
        r == spec_plugin_info_record(kind, *info, num_params as nat),
{
    let ok = c_text_ok(info.name) && c_text_ok(info.author) && optional_text_ok(info.explanation)
        && !(kind == PluginType::Source && info.color_model == ColorModel::PACKED32);
    if !ok || num_params > MAX_PARAMS {
        return None;
    }
    Some(
        PluginInfoRecord {
            name: info.name,
            author: info.author,
            plugin_type: kind.code(),
            color_model: info.color_model.code(),
            frei0r_version: abi::FREI0R_MAJOR_VERSION,
            major_version: info.major_version,
            minor_version: info.minor_version,
            num_params: num_params as i32,
            explanation: info.explanation,
        },
    )
}

/// The parameter-info record of entry `index` of `table`, where that entry
/// is well formed.
pub open spec fn spec_param_info_record(table: Seq<ParamInfo>, index: int) -> Option<ParamInfoRecord> {
    if table[index].well_formed() {
        Some(
            ParamInfoRecord {
                name: table[index].name,
                kind_code: table[index].spec_kind().spec_code(),
                explanation: table[index].explanation,
            },
        )
    } else {
        None
    }
}

/// Fills the parameter-info record of entry `index`. An index outside the
/// table is the caller's error, as on the wire.
pub fn param_info_record(table: &[ParamInfo], index: i32) -> (r: Option<ParamInfoRecord>)
    requires
        0 <= index < table@.len(),
    ensures
        r == spec_param_info_record(table@, index as int),
{
    let info = &table[index as usize];
    if !info.check() {
        return None;
    }
    Some(ParamInfoRecord { name: info.name, kind_code: info.kind().code(), explanation: info.explanation })
}

} // verus!
