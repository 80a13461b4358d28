use libcamera::catalog::FormatConst;
use libcamera::consts::build_v4l2_fourcc_map;
use libcamera::layout::parse_pixel_format_info;

fn nv12_const() -> FormatConst {
    FormatConst { name: b"NV12".to_vec(), fourcc: 0x3231_564e, modifier: 0 }
}

const BLOCK: &[u8] = b"\
PixelFormatInfo pixelFormatInfo[] = {
\t{ formats::NV12, {
\t\t.name = \"NV12\",
\t\t.format = formats::NV12,
\t\t.v4l2Formats = { V4L2PixelFormat(V4L2_PIX_FMT_NV12), },
\t\t.bitsPerPixel = 12,
\t\t.colourEncoding = PixelFormatInfo::ColourEncodingYUV,
\t\t.packed = false,
\t\t.pixelsPerGroup = 2,
\t\t.planes = {{ { 2, 1 }, { 2, 2 }, { 0, 0 } }},
\t} },
};
";

#[test]
fn extracts_a_full_entry() {
    let consts = vec![nv12_const()];
    let v4l2 = build_v4l2_fourcc_map(b"#define V4L2_PIX_FMT_NV12 v4l2_fourcc('N', 'V', '1', '2')\n");
    let infos = parse_pixel_format_info(BLOCK, &consts, &v4l2);
    assert_eq!(infos.len(), 1);
    let p = &infos[0];
    assert_eq!(p.name, b"NV12".to_vec());
    assert_eq!(p.fourcc, 0x3231_564e);
    assert_eq!(p.modifier, 0);
    assert_eq!(p.bits_per_pixel, 12);
    assert_eq!(p.colour_encoding, 1);
    assert!(!p.packed);
    assert_eq!(p.pixels_per_group, 2);
    assert_eq!(p.planes, vec![(2, 1), (2, 2), (0, 0)]);
    let nv12 = (b'N' as u32) | ((b'V' as u32) << 8) | ((b'1' as u32) << 16)
        | ((b'2' as u32) << 24);
    assert_eq!(p.v4l2_formats, vec![nv12]);
}

#[test]
fn missing_packed_field_defaults_to_false() {
    // A layout block without its packed field still extracts, with the
    // flag defaulting to false.
    let src = b"\
{ formats::NV12, {
    .bitsPerPixel = 12,
    .pixelsPerGroup = 2,
} },
";
    let consts = vec![nv12_const()];
    let v4l2 = build_v4l2_fourcc_map(b"");
    let infos = parse_pixel_format_info(src, &consts, &v4l2);
    assert_eq!(infos.len(), 1);
    assert!(!infos[0].packed);
    assert_eq!(infos[0].bits_per_pixel, 12);
}

#[test]
fn absent_fields_default() {
    let src = b"{ formats::NV12, { .packed = true, } },\n";
    let consts = vec![nv12_const()];
    let v4l2 = build_v4l2_fourcc_map(b"");
    let infos = parse_pixel_format_info(src, &consts, &v4l2);
    assert_eq!(infos.len(), 1);
    let p = &infos[0];
    assert!(p.packed);
    assert_eq!(p.bits_per_pixel, 0);
    assert_eq!(p.colour_encoding, 0);
    assert_eq!(p.pixels_per_group, 1);
    assert_eq!(p.planes, vec![(0, 0), (0, 0), (0, 0)]);
    assert!(p.v4l2_formats.is_empty());
}

#[test]
fn entries_without_a_matching_constant_are_dropped() {
    let src = b"{ formats::GHOST, { .bitsPerPixel = 8, } },\n";
    let consts = vec![nv12_const()];
    let v4l2 = build_v4l2_fourcc_map(b"");
    let infos = parse_pixel_format_info(src, &consts, &v4l2);
    assert!(infos.is_empty());
}

#[test]
fn unresolvable_alias_names_are_dropped_silently() {
    let src = b"\
{ formats::NV12, {
    .v4l2Formats = { V4L2PixelFormat(V4L2_PIX_FMT_KNOWN), V4L2PixelFormat(V4L2_PIX_FMT_UNKNOWN), },
} },
";
    let consts = vec![nv12_const()];
    let v4l2 = build_v4l2_fourcc_map(b"#define V4L2_PIX_FMT_KNOWN v4l2_fourcc('K', 'N', 'O', 'W')\n");
    let infos = parse_pixel_format_info(src, &consts, &v4l2);
    assert_eq!(infos.len(), 1);
    let known = (b'K' as u32) | ((b'N' as u32) << 8) | ((b'O' as u32) << 16)
        | ((b'W' as u32) << 24);
    assert_eq!(infos[0].v4l2_formats, vec![known]);
}

#[test]
fn field_references_are_not_entries() {
    // The `.format = formats::NV12,` line inside a block must not start a
    // second entry.
    let consts = vec![nv12_const()];
    let v4l2 = build_v4l2_fourcc_map(b"");
    let infos = parse_pixel_format_info(BLOCK, &consts, &v4l2);
    assert_eq!(infos.len(), 1);
}
