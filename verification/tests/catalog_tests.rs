use libcamera::catalog::{parse_format_consts, CatalogError};
use libcamera::consts::{build_drm_fourcc_map, build_drm_modifier_map, build_v4l2_fourcc_map};

#[test]
fn resolves_a_catalogue_entry_through_the_fourcc_table() {
    // Header line plus catalogue entry yield the packed NV12 constant with
    // a zero modifier.
    let header = b"#define DRM_FORMAT_NV12 fourcc_code('N', 'V', '1', '2')\n";
    let drm = build_drm_fourcc_map(header);
    let v4l2 = build_v4l2_fourcc_map(b"");
    let mods = build_drm_modifier_map(b"");
    let yaml = "formats:\n  - NV12:\n      fourcc: DRM_FORMAT_NV12\n";
    let consts = parse_format_consts(yaml, &drm, &v4l2, &mods).unwrap();
    assert_eq!(consts.len(), 1);
    assert_eq!(consts[0].name, b"NV12".to_vec());
    assert_eq!(consts[0].fourcc, 0x3231_564e);
    assert_eq!(consts[0].modifier, 0);
}

#[test]
fn big_endian_flag_sets_the_top_bit() {
    let header = b"#define DRM_FORMAT_NV12 fourcc_code('N', 'V', '1', '2')\n";
    let drm = build_drm_fourcc_map(header);
    let v4l2 = build_v4l2_fourcc_map(b"");
    let mods = build_drm_modifier_map(b"");
    let yaml = "formats:\n  - NV12:\n      fourcc: DRM_FORMAT_NV12\n      big_endian: true\n";
    let consts = parse_format_consts(yaml, &drm, &v4l2, &mods).unwrap();
    assert_eq!(consts[0].fourcc, 0x3231_564e | 0x8000_0000);
}

#[test]
fn falls_back_to_the_legacy_alias_table() {
    let v4l2_header = b"#define V4L2_PIX_FMT_MJPEG v4l2_fourcc('M', 'J', 'P', 'G')\n";
    let drm = build_drm_fourcc_map(b"");
    let v4l2 = build_v4l2_fourcc_map(v4l2_header);
    let mods = build_drm_modifier_map(b"");
    let yaml = "formats:\n  - MJPEG:\n      fourcc: DRM_FORMAT_MJPEG\n";
    let consts = parse_format_consts(yaml, &drm, &v4l2, &mods).unwrap();
    assert_eq!(consts[0].name, b"MJPEG".to_vec());
    let expected = (b'M' as u32) | ((b'J' as u32) << 8) | ((b'P' as u32) << 16)
        | ((b'G' as u32) << 24);
    assert_eq!(consts[0].fourcc, expected);
}

#[test]
fn unresolved_names_abort_with_both_attempts() {
    let drm = build_drm_fourcc_map(b"");
    let v4l2 = build_v4l2_fourcc_map(b"");
    let mods = build_drm_modifier_map(b"");
    let yaml = "formats:\n  - GHOST:\n      fourcc: DRM_FORMAT_GHOST\n";
    match parse_format_consts(yaml, &drm, &v4l2, &mods) {
        Err(CatalogError::Unresolved(name, alt)) => {
            assert_eq!(name, b"DRM_FORMAT_GHOST".to_vec());
            assert_eq!(alt, b"V4L2_PIX_FMT_GHOST".to_vec());
        },
        other => panic!("expected an unresolved-name error, got {:?}", other),
    }
}

#[test]
fn modifier_names_resolve_through_the_modifier_table() {
    let header = b"\
#define DRM_FORMAT_NV12 fourcc_code('N', 'V', '1', '2')\n\
#define DRM_FORMAT_MOD_VENDOR_FOO 0x01\n\
#define DRM_FORMAT_MOD_TILED fourcc_mod_code(FOO, 0x02)\n";
    let drm = build_drm_fourcc_map(header);
    let v4l2 = build_v4l2_fourcc_map(b"");
    let mods = build_drm_modifier_map(header);
    let yaml = "formats:\n  - NV12:\n      fourcc: DRM_FORMAT_NV12\n      modifier: DRM_FORMAT_MOD_TILED\n";
    let consts = parse_format_consts(yaml, &drm, &v4l2, &mods).unwrap();
    assert_eq!(consts[0].modifier, (1u64 << 56) | 2);
}

#[test]
fn unknown_modifier_name_defaults_to_zero() {
    let header = b"#define DRM_FORMAT_NV12 fourcc_code('N', 'V', '1', '2')\n";
    let drm = build_drm_fourcc_map(header);
    let v4l2 = build_v4l2_fourcc_map(b"");
    let mods = build_drm_modifier_map(b"");
    let yaml = "formats:\n  - NV12:\n      fourcc: DRM_FORMAT_NV12\n      modifier: DRM_FORMAT_MOD_NONE\n";
    let consts = parse_format_consts(yaml, &drm, &v4l2, &mods).unwrap();
    assert_eq!(consts[0].modifier, 0);
}

#[test]
fn documents_without_a_formats_list_yield_nothing() {
    let drm = build_drm_fourcc_map(b"");
    let v4l2 = build_v4l2_fourcc_map(b"");
    let mods = build_drm_modifier_map(b"");
    let consts = parse_format_consts("unrelated: 1\n", &drm, &v4l2, &mods).unwrap();
    assert!(consts.is_empty());
}
