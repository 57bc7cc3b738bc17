use frei0r_rs2::{
    Color, ColorModel, FrameError, Instance, KindSource, ParamInfo, ParamRef, Params, Plugin, PluginInfo,
    PluginType, SourcePlugin, Time, WireParam,
};

struct ColorPlugin {
    width: usize,
    height: usize,
}

const fn color(r: f32, g: f32, b: f32) -> Color {
    Color { r: r.to_bits(), g: g.to_bits(), b: b.to_bits() }
}

impl Plugin for ColorPlugin {
    type Kind = KindSource;

    const INFO: PluginInfo = PluginInfo {
        name: b"color\0",
        author: b"none\0",
        color_model: ColorModel::RGBA8888,
        major_version: 1,
        minor_version: 0,
        explanation: Some(b"Source plugin that fills a frame\0"),
    };

    const PARAMS: &'static [ParamInfo] = &[ParamInfo {
        name: b"color\0",
        explanation: b"Color to generate\0",
        default: ParamRef::Color(color(1.0, 1.0, 1.0)),
    }];

    fn new(width: usize, height: usize) -> Self {
        ColorPlugin { width, height }
    }
}

impl SourcePlugin for ColorPlugin {
    fn update_source(&mut self, _time: Time, params: &Params, outframe: &mut [u32]) {
        let c = params.get_color(0).unwrap();
        let r_u8 = (f32::from_bits(c.r) * 255.0) as u8;
        let g_u8 = (f32::from_bits(c.g) * 255.0) as u8;
        let b_u8 = (f32::from_bits(c.b) * 255.0) as u8;
        let a_u8 = 255u8;
        let pixel =
            ((r_u8 as u32) << 24) | ((g_u8 as u32) << 16) | ((b_u8 as u32) << 8) | (a_u8 as u32);
        for dy in 0..self.height {
            for dx in 0..self.width {
                outframe[dy * self.width + dx] = pixel;
            }
        }
    }
}

struct PackedSource;

impl Plugin for PackedSource {
    type Kind = KindSource;

    const INFO: PluginInfo = PluginInfo {
        name: b"packed\0",
        author: b"none\0",
        color_model: ColorModel::PACKED32,
        major_version: 0,
        minor_version: 1,
        explanation: None,
    };

    const PARAMS: &'static [ParamInfo] = &[];

    fn new(_width: usize, _height: usize) -> Self {
        PackedSource
    }
}

impl SourcePlugin for PackedSource {
    fn update_source(&mut self, _time: Time, _params: &Params, outframe: &mut [u32]) {
        for p in outframe.iter_mut() {
            *p = 0;
        }
    }
}

fn time() -> Time {
    Time { bits: 1.5f64.to_bits() }
}

#[test]
fn red_fill_covers_every_pixel() {
    let mut inst = Instance::<ColorPlugin>::new(8, 8).unwrap();
    inst.f0r_set_param_value(WireParam::Color(color(1.0, 0.0, 0.0)), 0).unwrap();
    let mut out = vec![0u32; 64];
    inst.f0r_update2(time(), None, None, None, &mut out).unwrap();
    assert!(out.iter().all(|&p| p == 0xFF00_00FF));
    assert_eq!(out.len(), 64);
}

#[test]
fn default_fill_is_white() {
    let mut inst = Instance::<ColorPlugin>::new(16, 8).unwrap();
    let mut out = vec![0u32; 128];
    inst.f0r_update2(time(), None, None, None, &mut out).unwrap();
    assert!(out.iter().all(|&p| p == 0xFFFF_FFFF));
}

#[test]
fn source_never_reads_its_inputs() {
    let mut inst = Instance::<ColorPlugin>::new(8, 8).unwrap();
    let short = vec![1u32; 2];
    let mut out = vec![0u32; 64];
    let r = inst.f0r_update2(time(), Some(&short), Some(&short), Some(&short), &mut out);
    assert_eq!(r, Ok(()));
    assert!(out.iter().all(|&p| p == 0xFFFF_FFFF));
}

#[test]
fn source_with_short_output_is_refused() {
    let mut inst = Instance::<ColorPlugin>::new(8, 8).unwrap();
    let mut out = vec![0u32; 8];
    let r = inst.f0r_update2(time(), None, None, None, &mut out);
    assert_eq!(r, Err(FrameError::OutputLength));
    assert_eq!(out, vec![0u32; 8]);
}

#[test]
fn color_round_trip_keeps_every_bit() {
    let mut inst = Instance::<ColorPlugin>::new(8, 8).unwrap();
    let c = Color { r: 0.25f32.to_bits(), g: f32::NAN.to_bits() | 1, b: (-0.0f32).to_bits() };
    inst.f0r_set_param_value(WireParam::Color(c), 0).unwrap();
    match inst.f0r_get_param_value(0) {
        WireParam::Color(back) => assert_eq!(back, c),
        _ => panic!("expected a color block"),
    }
}

#[test]
fn source_info_record() {
    let r = Instance::<ColorPlugin>::f0r_get_plugin_info().unwrap();
    assert_eq!(r.plugin_type, 1);
    assert_eq!(r.num_params, 1);
    assert_eq!(r.explanation, Some(&b"Source plugin that fills a frame\0"[..]));
    assert_eq!(Instance::<ColorPlugin>::plugin_type(), PluginType::Source);
    assert_eq!(Instance::<ColorPlugin>::f0r_get_param_info(0).unwrap().kind_code, 2);
}

#[test]
fn source_with_packed_model_is_not_reported() {
    assert!(Instance::<PackedSource>::f0r_get_plugin_info().is_none());
}
