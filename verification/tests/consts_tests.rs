use libcamera::consts::{
    build_drm_fourcc_map, build_drm_modifier_map, build_v4l2_fourcc_map, lookup_u32, lookup_u64,
    pack_fourcc,
};

#[test]
fn fourcc_packing_follows_byte_order() {
    // 'A' | 'B'<<8 | 'C'<<16 | 'D'<<24
    let expected = (b'A' as u32) | ((b'B' as u32) << 8) | ((b'C' as u32) << 16)
        | ((b'D' as u32) << 24);
    assert_eq!(expected, 0x4443_4241);
    assert_eq!(pack_fourcc(b'A', b'B', b'C', b'D', false), expected);
    assert_eq!(pack_fourcc(b'A', b'B', b'C', b'D', true), expected | 0x8000_0000);
}

#[test]
fn scans_fourcc_defines() {
    let header = b"\
/* comment */\n\
#define DRM_FORMAT_X fourcc_code('A', 'B', 'C', 'D')\n\
#define DRM_FORMAT_Y fourcc_code_be('A', 'B', 'C', 'D')\n\
#define DRM_FORMAT_MOD_VENDOR_FOO 0x01\n\
int unrelated;\n";
    let table = build_drm_fourcc_map(header);
    assert_eq!(table.len(), 2);
    assert_eq!(lookup_u32(&table, b"DRM_FORMAT_X"), Some(0x4443_4241));
    assert_eq!(lookup_u32(&table, b"DRM_FORMAT_Y"), Some(0x4443_4241 | 0x8000_0000));
    assert_eq!(lookup_u32(&table, b"DRM_FORMAT_Z"), None);
}

#[test]
fn scans_v4l2_defines() {
    let header = b"#define V4L2_PIX_FMT_GREY v4l2_fourcc('G', 'R', 'E', 'Y')\n";
    let table = build_v4l2_fourcc_map(header);
    assert_eq!(table.len(), 1);
    let expected = (b'G' as u32) | ((b'R' as u32) << 8) | ((b'E' as u32) << 16)
        | ((b'Y' as u32) << 24);
    assert_eq!(lookup_u32(&table, b"V4L2_PIX_FMT_GREY"), Some(expected));
}

#[test]
fn modifier_combines_vendor_and_code() {
    // Vendor id 1 in the top eight bits, code 2 in the low bits.
    let header = b"\
#define DRM_FORMAT_MOD_VENDOR_FOO 0x01\n\
#define DRM_FORMAT_MOD_BAR fourcc_mod_code(FOO, 0x02)\n";
    let table = build_drm_modifier_map(header);
    assert_eq!(table.len(), 1);
    assert_eq!(lookup_u64(&table, b"DRM_FORMAT_MOD_BAR"), Some((1u64 << 56) | 2));
}

#[test]
fn unknown_vendor_resolves_to_zero() {
    let header = b"#define DRM_FORMAT_MOD_BAZ fourcc_mod_code(NOBODY, 0x2f)\n";
    let table = build_drm_modifier_map(header);
    assert_eq!(lookup_u64(&table, b"DRM_FORMAT_MOD_BAZ"), Some(0x2f));
}

#[test]
fn vendor_defined_after_use_still_resolves() {
    let header = b"\
#define DRM_FORMAT_MOD_BAR fourcc_mod_code(FOO, 0x02)\n\
#define DRM_FORMAT_MOD_VENDOR_FOO 0x01\n";
    let table = build_drm_modifier_map(header);
    assert_eq!(lookup_u64(&table, b"DRM_FORMAT_MOD_BAR"), Some((1u64 << 56) | 2));
}

#[test]
fn malformed_lines_are_skipped() {
    let header = b"\
#define DRM_FORMAT_A fourcc_code('A','B','C')\n\
#define DRM_FORMAT_ fourcc_code('A','B','C','D')\n\
#define NOT_DRM fourcc_code('A','B','C','D')\n\
#define DRM_FORMAT_OK fourcc_code('A','B','C','D')\n";
    let table = build_drm_fourcc_map(header);
    assert_eq!(table.len(), 1);
    assert_eq!(lookup_u32(&table, b"DRM_FORMAT_OK"), Some(0x4443_4241));
}

#[test]
fn later_definition_wins() {
    let header = b"\
#define DRM_FORMAT_X fourcc_code('A','B','C','D')\n\
#define DRM_FORMAT_X fourcc_code('E','F','G','H')\n";
    let table = build_drm_fourcc_map(header);
    let expected = (b'E' as u32) | ((b'F' as u32) << 8) | ((b'G' as u32) << 16)
        | ((b'H' as u32) << 24);
    assert_eq!(lookup_u32(&table, b"DRM_FORMAT_X"), Some(expected));
}
