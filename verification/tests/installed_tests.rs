use libcamera::installed::{generate_formats_file, generate_vendor_features};

fn s(bytes: &[u8]) -> String {
    String::from_utf8(bytes.to_vec()).unwrap()
}

#[test]
fn feature_macros_become_boolean_constants() {
    let header = b"\
#define LIBCAMERA_HAS_FOO 1
#define UNRELATED 2
  #define LIBCAMERA_HAS_BAR
";
    let (text, vendor) = generate_vendor_features(header);
    assert_eq!(
        s(&text),
        "pub const LIBCAMERA_HAS_FOO: bool = true;\npub const LIBCAMERA_HAS_BAR: bool = true;\n"
    );
    assert!(!vendor);
}

#[test]
fn vendor_control_marker_is_detected() {
    let header = b"#define LIBCAMERA_HAS_LIBCAMERA_VENDOR_CONTROLS 1\n";
    let (text, vendor) = generate_vendor_features(header);
    assert!(s(&text).contains("LIBCAMERA_HAS_LIBCAMERA_VENDOR_CONTROLS"));
    assert!(vendor);
}

#[test]
fn format_declarations_become_constants() {
    let header = b"\
constexpr PixelFormat R8(__fourcc('R', '8', ' ', ' '), __mod(0, 0));
int unrelated;
constexpr PixelFormat TILED(__fourcc('A', 'B', 'C', 'D'), __mod(1, 2));
";
    let out = s(&generate_formats_file(header));
    assert!(out.starts_with("use crate::pixel_format::PixelFormat;\n"));
    assert!(out.contains(
        "pub const R8: PixelFormat = PixelFormat::new(0x20203852, 0x0000000000000000);\n"
    ));
    assert!(out.contains(
        "pub const TILED: PixelFormat = PixelFormat::new(0x44434241, 0x0100000000000002);\n"
    ));
}

#[test]
fn malformed_format_lines_are_skipped() {
    let header = b"constexpr PixelFormat Broken(__fourcc('A'), __mod(0, 0));\n";
    let out = s(&generate_formats_file(header));
    assert_eq!(out, "use crate::pixel_format::PixelFormat;\n\n");
}
