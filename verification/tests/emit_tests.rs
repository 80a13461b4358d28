use libcamera::emit::{
    format_docstring, generate_controls, generate_controls_file, generate_pixel_format_info_rs,
    to_ascii_upper, to_c_type_name, to_rust_type, ControlsType,
};
use libcamera::layout::PixelFormatInfo;
use libcamera::meta::{Control, ControlEnumValue, ControlSize, ControlType};

fn s(bytes: &[u8]) -> String {
    String::from_utf8(bytes.to_vec()).unwrap()
}

#[test]
fn camel_case_names_become_c_names() {
    assert_eq!(s(&to_c_type_name(b"AeEnable")), "ae_enable");
    assert_eq!(s(&to_c_type_name(b"SensorTimestamp")), "sensor_timestamp");
    assert_eq!(s(&to_c_type_name(b"AwbLocked")), "awb_locked");
    // A digit run splits before the following letter.
    assert_eq!(s(&to_c_type_name(b"Lc3Gain")), "lc3_gain");
    assert_eq!(s(&to_ascii_upper(b"ae_enable")), "AE_ENABLE");
}

#[test]
fn docstrings_fence_indented_blocks() {
    let text = b"Summary line.\n  indented one\n  indented two\ntail line";
    let got = s(&format_docstring(text, 0));
    assert_eq!(
        got,
        "/// Summary line.\n/// ```text\n///   indented one\n///   indented two\n/// ```\n/// tail line\n"
    );
}

#[test]
fn docstrings_keep_open_blocks_open() {
    let text = b"Head\n  block to the end";
    let got = s(&format_docstring(text, 4));
    assert_eq!(got, "    /// Head\n    /// ```text\n    ///   block to the end\n");
}

#[test]
fn rust_types_render_scalars_vectors_and_arrays() {
    assert_eq!(s(&to_rust_type(ControlType::Bool, &None)), "bool");
    assert_eq!(s(&to_rust_type(ControlType::Float, &None)), "f32");
    assert_eq!(
        s(&to_rust_type(ControlType::Int32, &Some(vec![ControlSize::Dynamic]))),
        "Vec<i32>"
    );
    assert_eq!(
        s(&to_rust_type(ControlType::Float, &Some(vec![ControlSize::Fixed(2)]))),
        "[f32; 2]"
    );
    assert_eq!(
        s(&to_rust_type(
            ControlType::Byte,
            &Some(vec![ControlSize::Fixed(2), ControlSize::Fixed(3)])
        )),
        "[[u8; 2]; 3]"
    );
}

fn simple_control() -> Control {
    Control {
        name: b"AeEnable".to_vec(),
        vendor: b"libcamera".to_vec(),
        typ: ControlType::Bool,
        description: b"Enable the algorithm.".to_vec(),
        size: None,
        enumeration: None,
    }
}

fn enumerated_control() -> Control {
    Control {
        name: b"AfState".to_vec(),
        vendor: b"draft".to_vec(),
        typ: ControlType::Int32,
        description: b"State machine.".to_vec(),
        size: None,
        enumeration: Some(vec![
            ControlEnumValue {
                name: b"AfStateIdle".to_vec(),
                value: 0,
                description: b"Idle.".to_vec(),
            },
            ControlEnumValue {
                name: b"AfStateScanning".to_vec(),
                value: 1,
                description: b"Scanning.".to_vec(),
            },
        ]),
    }
}

#[test]
fn generated_module_holds_the_expected_items() {
    let controls = vec![simple_control(), enumerated_control()];
    let out = s(&generate_controls(&controls, ControlsType::Control));
    assert!(out.contains("pub enum ControlId {"));
    assert!(out.contains("AeEnable = AE_ENABLE,"));
    assert!(out.contains("pub struct AeEnable(pub bool);"));
    assert!(out.contains("impl Control for AeEnable {}"));
    // The enumerated control's variants drop the control-name prefix.
    assert!(out.contains("Idle = 0,"));
    assert!(out.contains("Scanning = 1,"));
    // The draft control is gated behind its vendor feature.
    assert!(out.contains("#[cfg(feature = \"vendor_draft\")]"));
    assert!(out.contains("pub fn make_dyn(id: ControlId"));
}

#[test]
fn properties_use_the_property_naming() {
    let controls = vec![simple_control()];
    let out = s(&generate_controls(&controls, ControlsType::Property));
    assert!(out.contains("pub enum PropertyId {"));
    assert!(out.contains("impl Property for AeEnable {}"));
}

#[test]
fn generated_file_is_accepted_by_the_pretty_printer() {
    let controls = vec![simple_control(), enumerated_control()];
    let out = generate_controls_file(&controls, ControlsType::Control).unwrap();
    let text = s(&out);
    assert!(text.contains("pub enum ControlId"));
    assert!(text.contains("use num_enum::{IntoPrimitive, TryFromPrimitive};"));
}

#[test]
fn descriptions_are_escaped_in_the_accessor() {
    let mut c = simple_control();
    c.description = b"say \"hi\" with a \\ backslash".to_vec();
    let out = s(&generate_controls(&vec![c], ControlsType::Control));
    assert!(out.contains("say \\\"hi\\\" with a \\\\ backslash"));
}

#[test]
fn pixel_format_rows_embed_the_fields_verbatim() {
    let info = PixelFormatInfo {
        name: b"NV12".to_vec(),
        fourcc: 0x3231_564e,
        modifier: (1u64 << 56) | 2,
        bits_per_pixel: 12,
        colour_encoding: 1,
        packed: false,
        pixels_per_group: 2,
        planes: vec![(2, 1), (2, 2)],
        v4l2_formats: vec![0x3231_564e],
    };
    let out = s(&generate_pixel_format_info_rs(&vec![info]));
    assert!(out.contains("static PIXEL_FORMAT_INFO"));
    assert!(out.contains("name: \"NV12\""));
    assert!(out.contains("fourcc: 0x3231564e"));
    assert!(out.contains("modifier: 0x0100000000000002"));
    assert!(out.contains("bits_per_pixel: 12"));
    assert!(out.contains("packed: false"));
    // The third plane slot is padded with zeros.
    assert!(out.contains("{ bytes_per_group: 0, vertical_sub_sampling: 0 }"));
    assert!(out.contains("v4l2_formats: &[0x3231564e]"));
}

#[test]
fn reading_a_row_back_recovers_the_packed_pair() {
    // Packing a (code, modifier) pair into a rendered row and reading the
    // two hexadecimal fields back yields the identical pair.
    let info = PixelFormatInfo {
        name: b"X".to_vec(),
        fourcc: 0xdead_beef,
        modifier: 0x0123_4567_89ab_cdef,
        bits_per_pixel: 0,
        colour_encoding: 0,
        packed: false,
        pixels_per_group: 1,
        planes: vec![],
        v4l2_formats: vec![],
    };
    let out = s(&generate_pixel_format_info_rs(&vec![info]));
    let f = out.split("fourcc: 0x").nth(1).unwrap()[..8].to_string();
    let m = out.split("modifier: 0x").nth(1).unwrap()[..16].to_string();
    assert_eq!(u32::from_str_radix(&f, 16).unwrap(), 0xdead_beef);
    assert_eq!(u64::from_str_radix(&m, 16).unwrap(), 0x0123_4567_89ab_cdef);
}
