use frei0r_rs2::{
    shift_wrap, ColorModel, ConstructError, FilterPlugin, FrameError, Instance, KindFilter,
    ParamError, ParamInfo, ParamRef, Params, Plugin, PluginInfo, PluginType, Time, WireParam,
};

struct ShiftPlugin {
    width: usize,
    height: usize,
}

impl Plugin for ShiftPlugin {
    type Kind = KindFilter;

    const INFO: PluginInfo = PluginInfo {
        name: b"shift\0",
        author: b"none\0",
        color_model: ColorModel::RGBA8888,
        major_version: 1,
        minor_version: 0,
        explanation: Some(b"Filter plugin that shifts a frame\0"),
    };

    const PARAMS: &'static [ParamInfo] = &[
        ParamInfo {
            name: b"xshift\0",
            explanation: b"Shift in x direction\0",
            default: ParamRef::Double(0),
        },
        ParamInfo {
            name: b"yshift\0",
            explanation: b"Shift in y direction\0",
            default: ParamRef::Double(0),
        },
    ];

    fn new(width: usize, height: usize) -> Self {
        ShiftPlugin { width, height }
    }
}

impl FilterPlugin for ShiftPlugin {
    fn update_filter(&mut self, _time: Time, params: &Params, inframe: &[u32], outframe: &mut [u32]) {
        let xshift = f64::from_bits(params.get_double(0).unwrap());
        let yshift = f64::from_bits(params.get_double(1).unwrap());
        let xs = (xshift * self.width as f64) as usize;
        let ys = (yshift * self.height as f64) as usize;
        shift_wrap(self.width, self.height, xs, ys, inframe, outframe);
    }
}

fn ramp() -> Vec<u32> {
    (0..64u32).collect()
}

fn time() -> Time {
    Time { bits: 0.0f64.to_bits() }
}

#[test]
fn shift_quarter_width_maps_to_column_plus_two() {
    let mut inst = Instance::<ShiftPlugin>::new(8, 8).unwrap();
    inst.f0r_set_param_value(WireParam::Double(0.25f64.to_bits()), 0).unwrap();
    inst.f0r_set_param_value(WireParam::Double(0.0f64.to_bits()), 1).unwrap();
    let input = ramp();
    let mut out = vec![0u32; 64];
    inst.f0r_update2(time(), Some(&input), None, None, &mut out).unwrap();
    for y in 0..8usize {
        for x in 0..8usize {
            assert_eq!(out[y * 8 + x], input[y * 8 + (x + 2) % 8]);
        }
    }
    let expected_first_row: Vec<u32> = vec![2, 3, 4, 5, 6, 7, 0, 1];
    assert_eq!(&out[0..8], &expected_first_row[..]);
}

#[test]
fn shift_defaults_copy_the_frame() {
    let mut inst = Instance::<ShiftPlugin>::new(8, 8).unwrap();
    let input = ramp();
    let mut out = vec![0u32; 64];
    inst.f0r_update2(time(), Some(&input), None, None, &mut out).unwrap();
    assert_eq!(out, input);
}

#[test]
fn shift_in_both_directions_wraps() {
    let mut inst = Instance::<ShiftPlugin>::new(16, 8).unwrap();
    inst.f0r_set_param_value(WireParam::Double(0.5f64.to_bits()), 0).unwrap();
    inst.f0r_set_param_value(WireParam::Double(0.125f64.to_bits()), 1).unwrap();
    let input: Vec<u32> = (0..128u32).collect();
    let mut out = vec![0u32; 128];
    inst.f0r_update2(time(), Some(&input), None, None, &mut out).unwrap();
    for y in 0..8usize {
        for x in 0..16usize {
            assert_eq!(out[y * 16 + x], input[((y + 1) % 8) * 16 + (x + 8) % 16]);
        }
    }
}

#[test]
fn shift_wrap_reduces_large_shifts() {
    let input: Vec<u32> = (0..16u32).collect();
    let mut out = vec![0u32; 16];
    shift_wrap(4, 4, 9, 6, &input, &mut out);
    assert_eq!(out[0], input[2 * 4 + 1]);
    assert_eq!(out[15], input[4 + 0]);
}

#[test]
fn filter_reads_only_the_first_input() {
    let mut inst = Instance::<ShiftPlugin>::new(8, 8).unwrap();
    let input = ramp();
    let short = vec![7u32; 3];
    let mut out = vec![0u32; 64];
    let r = inst.f0r_update2(time(), Some(&input), Some(&short), Some(&short), &mut out);
    assert_eq!(r, Ok(()));
    assert_eq!(out, input);
}

#[test]
fn filter_without_input_is_refused() {
    let mut inst = Instance::<ShiftPlugin>::new(8, 8).unwrap();
    let mut out = vec![5u32; 64];
    let r = inst.f0r_update2(time(), None, None, None, &mut out);
    assert_eq!(r, Err(FrameError::MissingInput(0)));
    assert_eq!(out, vec![5u32; 64]);
}

#[test]
fn filter_with_short_input_is_refused() {
    let mut inst = Instance::<ShiftPlugin>::new(8, 8).unwrap();
    let input = vec![1u32; 63];
    let mut out = vec![0u32; 64];
    let r = inst.f0r_update2(time(), Some(&input), None, None, &mut out);
    assert_eq!(r, Err(FrameError::InputLength(0)));
}

#[test]
fn output_of_wrong_length_is_refused() {
    let mut inst = Instance::<ShiftPlugin>::new(8, 8).unwrap();
    let input = ramp();
    let mut out = vec![0u32; 65];
    let r = inst.f0r_update2(time(), Some(&input), None, None, &mut out);
    assert_eq!(r, Err(FrameError::OutputLength));
}

#[test]
fn geometry_is_checked_at_construction() {
    assert_eq!(Instance::<ShiftPlugin>::new(0, 8).err(), Some(ConstructError::Geometry));
    assert_eq!(Instance::<ShiftPlugin>::new(8, 12).err(), Some(ConstructError::Geometry));
    assert_eq!(Instance::<ShiftPlugin>::new(2056, 8).err(), Some(ConstructError::Geometry));
    assert!(Instance::<ShiftPlugin>::new(2048, 2048).is_ok());
    let inst = Instance::<ShiftPlugin>::new(16, 24).unwrap();
    assert_eq!(inst.frame_length(), 384);
}

#[test]
fn shift_plugin_info_record() {
    let r = Instance::<ShiftPlugin>::f0r_get_plugin_info().unwrap();
    assert_eq!(r.name, b"shift\0");
    assert_eq!(r.plugin_type, 0);
    assert_eq!(r.color_model, 1);
    assert_eq!(r.frei0r_version, 1);
    assert_eq!(r.major_version, 1);
    assert_eq!(r.minor_version, 0);
    assert_eq!(r.num_params, 2);
    assert_eq!(Instance::<ShiftPlugin>::plugin_type(), PluginType::Filter);
}

#[test]
fn param_info_answers_each_index_below_the_count() {
    let count = Instance::<ShiftPlugin>::f0r_get_plugin_info().unwrap().num_params;
    for i in 0..count {
        let a = Instance::<ShiftPlugin>::f0r_get_param_info(i).unwrap();
        let b = Instance::<ShiftPlugin>::f0r_get_param_info(i).unwrap();
        assert_eq!(a.name, b.name);
        assert_eq!(a.kind_code, b.kind_code);
        assert_eq!(a.explanation, b.explanation);
        assert_eq!(a.kind_code, 1);
    }
    assert_eq!(Instance::<ShiftPlugin>::f0r_get_param_info(0).unwrap().name, b"xshift\0");
    assert_eq!(
        Instance::<ShiftPlugin>::f0r_get_param_info(1).unwrap().explanation,
        b"Shift in y direction\0"
    );
    assert_eq!(count as usize, Instance::<ShiftPlugin>::param_count());
}

#[test]
fn set_with_wrong_layout_is_refused() {
    let mut inst = Instance::<ShiftPlugin>::new(8, 8).unwrap();
    let r = inst.f0r_set_param_value(WireParam::String(b"x\0"), 0);
    assert_eq!(r, Err(ParamError::KindMismatch));
    assert!(matches!(inst.f0r_get_param_value(0), WireParam::Double(0)));
    assert_eq!(Instance::<ShiftPlugin>::param_kind(2), None);
    assert_eq!(Instance::<ShiftPlugin>::param_count(), 2);
}
