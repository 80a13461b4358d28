use libcamera::camera::CameraConfigurationStatus;
use libcamera::color_space::{ColorSpace, Primaries, Range, TransferFunction, YcbcrEncoding};
use libcamera::logging::LoggingLevel;
use libcamera::framebuffer_map::{plan_mappings, MemoryMappedFrameBufferError, PlaneRequest};
use libcamera::geometry::{Point, Rectangle, Size, SizeRange};
use libcamera::pixel_format::{
    ColourEncoding, PixelFormat, PixelFormatInfo, PixelFormatInfoData, PixelFormatPlaneInfo,
    PixelFormats,
};

#[test]
fn sizes_align_and_bound() {
    let s = Size::new(1921, 1081);
    assert_eq!(s.align_down_to(16, 8), Size { width: 1920, height: 1080 });
    assert_eq!(s.align_up_to(16, 8), Size { width: 1936, height: 1088 });
    assert_eq!(s.align_down_to(0, 8), s);
    assert_eq!(
        s.bound_to(Size { width: 1280, height: 2000 }),
        Size { width: 1280, height: 1081 }
    );
    assert_eq!(
        s.expand_to(Size { width: 1280, height: 2000 }),
        Size { width: 1921, height: 2000 }
    );
    assert_eq!(
        Size::new(10, 20).grow_by(Size { width: 5, height: 6 }),
        Size { width: 15, height: 26 }
    );
    assert_eq!(
        Size::new(10, 20).shrink_by(Size { width: 15, height: 6 }),
        Size { width: 0, height: 14 }
    );
    assert_eq!(Size::new(3, 7).transposed(), Size { width: 7, height: 3 });
}

#[test]
fn aspect_ratio_adjustments() {
    let s = Size::new(1920, 1440);
    assert_eq!(
        s.bounded_to_aspect_ratio(Size { width: 16, height: 9 }),
        Size { width: 1920, height: 1080 }
    );
    assert_eq!(
        s.expanded_to_aspect_ratio(Size { width: 16, height: 9 }),
        Size { width: 2560, height: 1440 }
    );
}

#[test]
fn rectangles_intersect_and_translate() {
    let a = Rectangle { x: 0, y: 0, width: 100, height: 100 };
    let b = Rectangle { x: 50, y: 60, width: 100, height: 100 };
    assert_eq!(a.bounded_to(b), Rectangle { x: 50, y: 60, width: 50, height: 40 });
    assert_eq!(a.size(), Size { width: 100, height: 100 });
    assert_eq!(a.center(), Point { x: 50, y: 50 });
    assert_eq!(b.top_left(), Point { x: 50, y: 60 });
    assert_eq!(
        a.translated_by(Point { x: 7, y: -3 }),
        Rectangle { x: 7, y: -3, width: 100, height: 100 }
    );
    let big = Rectangle { x: 20, y: 20, width: 50, height: 50 };
    let fence = Rectangle { x: 0, y: 0, width: 40, height: 40 };
    assert_eq!(big.enclosed_in(fence), Rectangle { x: 0, y: 0, width: 40, height: 40 });
    assert_eq!(
        a.scaled_by(Size { width: 1, height: 1 }, Size { width: 2, height: 2 }),
        Rectangle { x: 0, y: 0, width: 50, height: 50 }
    );
}

#[test]
fn size_ranges_check_bounds_and_steps() {
    let r = SizeRange {
        min: Size { width: 320, height: 240 },
        max: Size { width: 1920, height: 1080 },
        h_step: 16,
        v_step: 2,
    };
    assert!(r.contains(Size { width: 336, height: 242 }));
    assert!(!r.contains(Size { width: 321, height: 242 }));
    assert!(!r.contains(Size { width: 2000, height: 242 }));
}

#[test]
fn pixel_format_round_trips_its_raw_pair() {
    // Packing a (code, modifier) pair and reading it back yields the
    // identical pair.
    let mut f = PixelFormat::new(0x3231_564e, 7);
    assert_eq!(f.to_raw(), (0x3231_564e, 7));
    assert_eq!(f.fourcc(), 0x3231_564e);
    assert_eq!(f.modifier(), 7);
    assert!(f.has_modifier());
    f.clear_modifier();
    assert!(!f.has_modifier());
    f.set_fourcc(0x1111);
    f.set_modifier(9);
    assert_eq!(PixelFormat::from_raw_parts(0x1111, 9), f);
}

fn nv12_data() -> PixelFormatInfoData {
    PixelFormatInfoData {
        name: b"NV12".to_vec(),
        fourcc: 0x3231_564e,
        modifier: 0,
        bits_per_pixel: 12,
        colour_encoding: 1,
        packed: false,
        pixels_per_group: 2,
        planes: vec![
            PixelFormatPlaneInfo { bytes_per_group: 2, vertical_sub_sampling: 1 },
            PixelFormatPlaneInfo { bytes_per_group: 2, vertical_sub_sampling: 2 },
            PixelFormatPlaneInfo { bytes_per_group: 0, vertical_sub_sampling: 0 },
        ],
        v4l2_formats: vec![0x3231_564e],
    }
}

#[test]
fn stride_and_frame_sizes_follow_the_table() {
    let table = vec![nv12_data()];
    let f = PixelFormat::new(0x3231_564e, 0);
    // 1920 pixels in groups of 2, 2 bytes per group.
    assert_eq!(f.stride(&table, 1920, 0, 0), 1920);
    assert_eq!(f.stride(&table, 1920, 0, 4096), 4096);
    // The unused plane has stride zero.
    assert_eq!(f.stride(&table, 1920, 2, 0), 0);
    assert_eq!(f.plane_size(&table, Size::new(1920, 1080), 0, 0), 1920 * 1080);
    assert_eq!(f.plane_size(&table, Size::new(1920, 1080), 1, 0), 1920 * 540);
    assert_eq!(f.frame_size(&table, Size::new(1920, 1080), 0), 1920 * 1080 + 1920 * 540);
    // An unknown format yields zero sizes.
    let g = PixelFormat::new(0x1234, 0);
    assert_eq!(g.stride(&table, 1920, 0, 0), 0);
    assert_eq!(g.frame_size(&table, Size::new(1920, 1080), 0), 0);
}

#[test]
fn info_drops_unused_plane_slots() {
    let table = vec![nv12_data()];
    let f = PixelFormat::new(0x3231_564e, 0);
    let info: PixelFormatInfo = f.info(&table).unwrap();
    assert_eq!(info.name, b"NV12".to_vec());
    assert_eq!(info.format, f);
    assert_eq!(info.colour_encoding, ColourEncoding::Yuv);
    assert_eq!(info.planes.len(), 2);
    assert_eq!(info.planes[0].bytes_per_group, 2);
    assert!(f.info(&vec![]).is_none());
}

#[test]
fn recognized_drm_codes_are_the_catalogued_ones() {
    // NV12 is a catalogued DRM fourcc; an arbitrary bit pattern is not.
    let nv12 = (b'N' as u32) | ((b'V' as u32) << 8) | ((b'1' as u32) << 16)
        | ((b'2' as u32) << 24);
    assert!(PixelFormat::new(nv12, 0).is_known_drm_format());
    assert!(!PixelFormat::new(0xffff_ffff, 0).is_known_drm_format());
}

#[test]
fn pixel_format_lists_index_safely() {
    let fs = PixelFormats::new(vec![PixelFormat::new(1, 0), PixelFormat::new(2, 0)]);
    assert_eq!(fs.len(), 2);
    assert!(!fs.is_empty());
    assert_eq!(fs.get(1), Some(PixelFormat::new(2, 0)));
    assert_eq!(fs.get(2), None);
    assert!(PixelFormats::new(vec![]).is_empty());
}

#[test]
fn configuration_status_predicates() {
    assert!(CameraConfigurationStatus::Valid.is_valid());
    assert!(CameraConfigurationStatus::Adjusted.is_adjusted());
    assert!(CameraConfigurationStatus::Invalid.is_invalid());
    assert!(!CameraConfigurationStatus::Valid.is_invalid());
}

#[test]
fn colour_spaces_carry_their_components() {
    let cs = ColorSpace::new(
        Primaries::Rec709,
        TransferFunction::Srgb,
        YcbcrEncoding::NoEncoding,
        Range::Full,
    );
    assert_eq!(cs.primaries, Primaries::Rec709);
    assert_eq!(cs.transfer_function, TransferFunction::Srgb);
    assert_eq!(cs.ycbcr_encoding, YcbcrEncoding::NoEncoding);
    assert_eq!(cs.range, Range::Full);
}

#[test]
fn logging_levels_name_themselves() {
    assert_eq!(LoggingLevel::Debug.name(), "DEBUG");
    assert_eq!(LoggingLevel::Fatal.name(), "FATAL");
}

#[test]
fn mapping_plans_merge_planes_per_descriptor() {
    let planes = vec![
        PlaneRequest { fd: 3, offset: Some(4096), len: 100, fd_len: 10000 },
        PlaneRequest { fd: 3, offset: Some(5000), len: 200, fd_len: 10000 },
        PlaneRequest { fd: 4, offset: Some(10), len: 20, fd_len: 0 },
    ];
    let plan = plan_mappings(&planes, 4096).unwrap();
    assert_eq!(plan.len(), 2);
    assert_eq!(plan[0].fd, 3);
    assert_eq!(plan[0].start, 4096);
    assert_eq!(plan[0].end, 5200);
    // An unknown total size skips the bound check; the start aligns down.
    assert_eq!(plan[1].fd, 4);
    assert_eq!(plan[1].start, 0);
    assert_eq!(plan[1].end, 30);
}

#[test]
fn mapping_plans_reject_bad_planes() {
    let no_offset = vec![PlaneRequest { fd: 3, offset: None, len: 10, fd_len: 100 }];
    assert_eq!(
        plan_mappings(&no_offset, 4096),
        Err(MemoryMappedFrameBufferError::InvalidOffset { index: 0 })
    );
    let out_of_bounds = vec![PlaneRequest { fd: 3, offset: Some(90), len: 20, fd_len: 100 }];
    assert_eq!(
        plan_mappings(&out_of_bounds, 4096),
        Err(MemoryMappedFrameBufferError::PlaneOutOfBounds {
            index: 0,
            offset: 90,
            len: 20,
            fd_len: 100,
        })
    );
}
