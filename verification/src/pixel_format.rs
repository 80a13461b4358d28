//! Pixel formats: the fourcc/modifier pair, the per-format layout
//! description, and the stride / plane-size / frame-size arithmetic that is
//! derived from it.

use vstd::prelude::*;

use crate::geometry::Size;

verus! {

/// How the samples of a format are to be interpreted.
#[derive(Debug, Clone, Copy, PartialEq, Eq, Structural)]
pub enum ColourEncoding {
    Rgb,
    Yuv,
    Raw,
    Unknown(u32),
}

pub open spec fn spec_colour_encoding(v: u32) -> ColourEncoding {
    if v == 0 {
        ColourEncoding::Rgb
    } else if v == 1 {
        ColourEncoding::Yuv
    } else if v == 2 {
        ColourEncoding::Raw
    } else {
        ColourEncoding::Unknown(v)
    }
}

impl ColourEncoding {
    /// Decode the numeric tag used by the generated format table.
    pub fn from_code(v: u32) -> (r: Self)
        ensures
            r == spec_colour_encoding(v),
    {
        if v == 0 {
            ColourEncoding::Rgb
        } else if v == 1 {
            ColourEncoding::Yuv
        } else if v == 2 {
            ColourEncoding::Raw
        } else {
            ColourEncoding::Unknown(v)
        }
    }
}

/// Per-plane layout: bytes per pixel group and vertical subsampling.
#[derive(Debug, Clone, Copy, PartialEq, Eq, Structural)]
pub struct PixelFormatPlaneInfo {
    pub bytes_per_group: u32,
    pub vertical_sub_sampling: u32,
}

/// One row of the generated per-version format table. A plane slot with both
/// fields zero means "unused".
#[derive(Debug, Clone)]
pub struct PixelFormatInfoData {
    pub name: Vec<u8>,
    pub fourcc: u32,
    pub modifier: u64,
    pub bits_per_pixel: u32,
    pub colour_encoding: u32,
    pub packed: bool,
    pub pixels_per_group: u32,
    pub planes: Vec<PixelFormatPlaneInfo>,
    pub v4l2_formats: Vec<u32>,
}

impl PixelFormatInfoData {
    /// A table row is well formed when it groups at least one pixel; the
    /// stride arithmetic divides by this count.
    pub open spec fn wf(&self) -> bool {
        self.pixels_per_group > 0
    }
}

/// The user-facing description of a format, with unused plane slots dropped.
#[derive(Debug, Clone)]
pub struct PixelFormatInfo {
    pub name: Vec<u8>,
    pub format: PixelFormat,
    pub bits_per_pixel: u32,
    pub colour_encoding: ColourEncoding,
    pub packed: bool,
    pub pixels_per_group: u32,
    pub planes: Vec<PixelFormatPlaneInfo>,
    pub v4l2_formats: Vec<u32>,
}

pub open spec fn plane_used(p: PixelFormatPlaneInfo) -> bool {
    p.bytes_per_group > 0 && p.vertical_sub_sampling > 0
}

impl PixelFormatInfo {
    /// Expand a table row into the user-facing description for `fmt`,
    /// keeping exactly the used plane slots, in order.
    pub fn from_data(fmt: PixelFormat, data: &PixelFormatInfoData) -> (r: Self)
        ensures
            info_matches(r, fmt, *data),
    {
        let mut planes: Vec<PixelFormatPlaneInfo> = Vec::new();
        let n = data.planes.len();
        for i in 0..n
            invariant
                n == data.planes.len(),
                planes@ == data.planes@.take(i as int).filter(|p: PixelFormatPlaneInfo| plane_used(p)),
        {
            let p = data.planes[i];
            proof {
                assert(data.planes@.take(i + 1).drop_last() == data.planes@.take(i as int));
                assert(data.planes@.take(i + 1).last() == data.planes@[i as int]);
                reveal(Seq::filter);
            }
            if p.bytes_per_group > 0 && p.vertical_sub_sampling > 0 {
                planes.push(p);
            }
        }
        proof {
            assert(data.planes@.take(n as int) == data.planes@);
        }
        Self {
            name: clone_bytes(&data.name),
            format: fmt,
            bits_per_pixel: data.bits_per_pixel,
            colour_encoding: ColourEncoding::from_code(data.colour_encoding),
            packed: data.packed,
            pixels_per_group: data.pixels_per_group,
            planes,
            v4l2_formats: clone_u32s(&data.v4l2_formats),
        }
    }
}

/// What `PixelFormatInfo::from_data` builds, stated field by field: the
/// format is carried through unchanged and exactly the used plane slots are
/// kept, in order.
pub open spec fn info_matches(info: PixelFormatInfo, fmt: PixelFormat, data: PixelFormatInfoData) -> bool {
    &&& info.name@ == data.name@
    &&& info.format == fmt
    &&& info.bits_per_pixel == data.bits_per_pixel
    &&& info.colour_encoding == spec_colour_encoding(data.colour_encoding)
    &&& info.packed == data.packed
    &&& info.pixels_per_group == data.pixels_per_group
    &&& info.planes@ == data.planes@.filter(|p: PixelFormatPlaneInfo| plane_used(p))
    &&& info.v4l2_formats@ == data.v4l2_formats@
}

fn clone_bytes(v: &Vec<u8>) -> (r: Vec<u8>)
    ensures
        r@ == v@,
{
    let mut out: Vec<u8> = Vec::new();
    let n = v.len();
    for i in 0..n
        invariant
            n == v.len(),
            out@ == v@.take(i as int),
    {
        out.push(v[i]);
        proof {
            assert(v@.take(i + 1) == v@.take(i as int).push(v@[i as int]));
        }
    }
    proof {
        assert(v@.take(n as int) == v@);
    }
    out
}

fn clone_u32s(v: &Vec<u32>) -> (r: Vec<u32>)
    ensures
        r@ == v@,
{
    let mut out: Vec<u32> = Vec::new();
    let n = v.len();
    for i in 0..n
        invariant
            n == v.len(),
            out@ == v@.take(i as int),
    {
        out.push(v[i]);
        proof {
            assert(v@.take(i + 1) == v@.take(i as int).push(v@[i as int]));
        }
    }
    proof {
        assert(v@.take(n as int) == v@);
    }
    out
}

/// A pixel format: a 32-bit fourcc code paired with a 64-bit layout
/// modifier, as defined by the DRM conventions.
#[derive(Debug, Clone, Copy, PartialEq, Eq, Structural)]
pub struct PixelFormat {
    pub fourcc: u32,
    pub modifier: u64,
}

impl PixelFormat {
    pub fn new(fourcc: u32, modifier: u64) -> (r: Self)
        ensures
            r == (PixelFormat { fourcc, modifier }),
    {
        Self { fourcc, modifier }
    }

    pub fn fourcc(&self) -> (r: u32)
        ensures
            r == self.fourcc,
    {
        self.fourcc
    }

    pub fn set_fourcc(&mut self, fourcc: u32)
        ensures
            *final(self) == (PixelFormat { fourcc, modifier: old(self).modifier }),
    {
        self.fourcc = fourcc;
    }

    pub fn modifier(&self) -> (r: u64)
        ensures
            r == self.modifier,
    {
        self.modifier
    }

    pub fn set_modifier(&mut self, modifier: u64)
        ensures
            *final(self) == (PixelFormat { fourcc: old(self).fourcc, modifier }),
    {
        self.modifier = modifier;
    }

    /// True when a non-zero modifier is set.
    pub fn has_modifier(&self) -> (r: bool)
        ensures
            r == (self.modifier != 0),
    {
        self.modifier != 0
    }

    /// Reset the modifier to the default linear layout.
    pub fn clear_modifier(&mut self)
        ensures
            *final(self) == (PixelFormat { fourcc: old(self).fourcc, modifier: 0 }),
    {
        self.modifier = 0;
    }

    /// The raw `(fourcc, modifier)` pair.
    pub fn to_raw(self) -> (r: (u32, u64))
        ensures
            r == (self.fourcc, self.modifier),
    {
        (self.fourcc, self.modifier)
    }

    pub fn from_raw_parts(fourcc: u32, modifier: u64) -> (r: Self)
        ensures
            r == (PixelFormat { fourcc, modifier }),
    {
        PixelFormat::new(fourcc, modifier)
    }

    /// The first table row whose fourcc and modifier match this format.
    pub fn info_entry<'a>(&self, table: &'a Vec<PixelFormatInfoData>) -> (r: Option<
        &'a PixelFormatInfoData,
    >)
        ensures
            match r {
                Some(d) => spec_info_entry(table@, self.fourcc, self.modifier) == Some(*d),
                None => spec_info_entry(table@, self.fourcc, self.modifier) is None,
            },
    {
        let n = table.len();
        proof {
            assert(table@.skip(0) =~= table@);
        }
        for i in 0..n
            invariant
                n == table.len(),
                spec_info_entry(table@, self.fourcc, self.modifier) == spec_info_entry(
                    table@.skip(i as int),
                    self.fourcc,
                    self.modifier,
                ),
        {
            proof {
                assert(table@.skip(i as int).drop_first() =~= table@.skip(i + 1));
                assert(table@.skip(i as int)[0] == table@[i as int]);
            }
            if table[i].fourcc == self.fourcc && table[i].modifier == self.modifier {
                return Some(&table[i]);
            }
        }
        proof {
            assert(table@.skip(n as int) =~= Seq::<PixelFormatInfoData>::empty());
        }
        None
    }

    /// Stride in bytes of the given plane for a row of `width` pixels,
    /// rounded up to `align` when non-zero; zero when the plane is unused.
    pub fn stride(&self, table: &Vec<PixelFormatInfoData>, width: u32, plane: u32, align: u32) -> (r:
        u32)
        requires
            table_wf(table@),
            spec_lookup_stride(table@, *self, width as int, plane as int, align as int)
                <= u32::MAX,
        ensures
            r == spec_lookup_stride(table@, *self, width as int, plane as int, align as int),
    {
        match self.info_entry(table) {
            Some(info) => {
                proof {
                    lemma_info_entry_in_table(table@, self.fourcc, self.modifier);
                }
                compute_stride(info, width, plane, align)
            },
            None => 0,
        }
    }

    /// Size in bytes of the given plane for a frame of `size` pixels.
    pub fn plane_size(&self, table: &Vec<PixelFormatInfoData>, size: Size, plane: u32, align: u32) -> (r:
        u32)
        requires
            table_wf(table@),
            spec_lookup_plane_size(table@, *self, size, plane as int, align as int) <= u32::MAX,
            spec_lookup_stride(table@, *self, size.width as int, plane as int, align as int)
                <= u32::MAX,
        ensures
            r == spec_lookup_plane_size(table@, *self, size, plane as int, align as int),
    {
        match self.info_entry(table) {
            Some(info) => {
                proof {
                    lemma_info_entry_in_table(table@, self.fourcc, self.modifier);
                }
                compute_plane_size(info, size, plane, align)
            },
            None => 0,
        }
    }

    /// Total size in bytes of a frame of `size` pixels, all planes summed.
    pub fn frame_size(&self, table: &Vec<PixelFormatInfoData>, size: Size, align: u32) -> (r: u32)
        requires
            table_wf(table@),
            spec_lookup_frame_size(table@, *self, size, align as int) <= u32::MAX,
            spec_info_entry(table@, self.fourcc, self.modifier) matches Some(d) ==> {
                &&& d.planes.len() <= u32::MAX
                &&& forall|p: int|
                    0 <= p < d.planes.len() ==> {
                        &&& #[trigger] spec_plane_size(d, size, p, align as int) <= u32::MAX
                        &&& spec_stride(d, size.width as int, p, align as int) <= u32::MAX
                        &&& spec_frame_size_upto(d, size, align as int, p + 1) <= u32::MAX
                    }
            },
        ensures
            r == spec_lookup_frame_size(table@, *self, size, align as int),
    {
        match self.info_entry(table) {
            Some(info) => {
                proof {
                    lemma_info_entry_in_table(table@, self.fourcc, self.modifier);
                }
                compute_frame_size(info, size, align)
            },
            None => 0,
        }
    }

    /// The user-facing description of this format, if the table knows it.
    pub fn info(&self, table: &Vec<PixelFormatInfoData>) -> (r: Option<PixelFormatInfo>)
        ensures
            match r {
                Some(info) => {
                    &&& spec_info_entry(table@, self.fourcc, self.modifier) matches Some(d)
                        && info_matches(info, *self, d)
                },
                None => spec_info_entry(table@, self.fourcc, self.modifier) is None,
            },
    {
        match self.info_entry(table) {
            Some(data) => Some(PixelFormatInfo::from_data(*self, data)),
            None => None,
        }
    }
}

/// Whether the DRM format catalogue recognizes a packed code: what the
/// catalogue crate's code lookup decides, a function of the code alone.
pub uninterp spec fn drm_code_known(code: u32) -> bool;

/// Relies on `drm_fourcc::DrmFourcc::try_from`: whether a packed code is a
/// catalogued DRM fourcc depends on the code alone.
#[verifier::external_body]
fn drm_fourcc_recognized(code: u32) -> (r: bool)
    ensures
        r == drm_code_known(code),
{
    drm_fourcc::DrmFourcc::try_from(code).is_ok()
}

impl PixelFormat {
    /// True when this format's fourcc code is one the DRM format
    /// catalogue knows, so the format can be restated as a catalogued DRM
    /// format.
    pub fn is_known_drm_format(&self) -> (r: bool)
        ensures
            r == drm_code_known(self.fourcc),
    {
        drm_fourcc_recognized(self.fourcc)
    }
}

/// Every row of a format table groups at least one pixel.
pub open spec fn table_wf(s: Seq<PixelFormatInfoData>) -> bool {
    forall|i: int| 0 <= i < s.len() ==> (#[trigger] s[i]).wf()
}

/// First row matching the fourcc/modifier pair, searched front to back.
pub open spec fn spec_info_entry(s: Seq<PixelFormatInfoData>, fourcc: u32, modifier: u64) -> Option<
    PixelFormatInfoData,
>
    decreases s.len(),
{
    if s.len() == 0 {
        None
    } else if s[0].fourcc == fourcc && s[0].modifier == modifier {
        Some(s[0])
    } else {
        spec_info_entry(s.drop_first(), fourcc, modifier)
    }
}

proof fn lemma_info_entry_in_table(s: Seq<PixelFormatInfoData>, fourcc: u32, modifier: u64)
    ensures
        spec_info_entry(s, fourcc, modifier) matches Some(d) ==> s.contains(d),
    decreases s.len(),
{
    if s.len() > 0 && !(s[0].fourcc == fourcc && s[0].modifier == modifier) {
        lemma_info_entry_in_table(s.drop_first(), fourcc, modifier);
        match spec_info_entry(s, fourcc, modifier) {
            Some(d) => {
                assert(s.drop_first().contains(d));
                let i = choose|i: int| 0 <= i < s.drop_first().len() && s.drop_first()[i] == d;
                assert(s[i + 1] == d);
            },
            None => {},
        }
    }
}

/// `v` rounded up to a multiple of `a`, in the integers.
pub open spec fn spec_align_up(v: int, a: int) -> int {
    if a > 0 {
        ((v + a - 1) / a) * a
    } else {
        v
    }
}

/// Stride of `plane` in `info` for a row of `width` pixels: the number of
/// pixel groups in the row times the plane's bytes per group, aligned up.
/// Unused planes have stride zero.
pub open spec fn spec_stride(info: PixelFormatInfoData, width: int, plane: int, align: int) -> int
    recommends
        info.wf(),
{
    if plane >= info.planes.len() {
        0
    } else if !plane_used(info.planes[plane]) {
        0
    } else {
        let groups = (width + info.pixels_per_group - 1) / (info.pixels_per_group as int);
        spec_align_up(groups * info.planes[plane].bytes_per_group, align)
    }
}

/// Plane size: stride times the vertically subsampled height.
pub open spec fn spec_plane_size(info: PixelFormatInfoData, size: Size, plane: int, align: int) -> int
    recommends
        info.wf(),
{
    if plane >= info.planes.len() {
        0
    } else if !plane_used(info.planes[plane]) {
        0
    } else {
        spec_stride(info, size.width as int, plane, align) * (size.height as int
            / info.planes[plane].vertical_sub_sampling as int)
    }
}

/// Frame size: the sum of the sizes of the first `n` planes.
pub open spec fn spec_frame_size_upto(info: PixelFormatInfoData, size: Size, align: int, n: int) -> int
    decreases n,
{
    if n <= 0 {
        0
    } else {
        spec_frame_size_upto(info, size, align, n - 1) + spec_plane_size(info, size, n - 1, align)
    }
}

pub open spec fn spec_frame_size(info: PixelFormatInfoData, size: Size, align: int) -> int {
    spec_frame_size_upto(info, size, align, info.planes.len() as int)
}

/// Stride of the table row matching `fmt`, or zero when none matches.
pub open spec fn spec_lookup_stride(
    s: Seq<PixelFormatInfoData>,
    fmt: PixelFormat,
    width: int,
    plane: int,
    align: int,
) -> int {
    match spec_info_entry(s, fmt.fourcc, fmt.modifier) {
        Some(d) => spec_stride(d, width, plane, align),
        None => 0,
    }
}

pub open spec fn spec_lookup_plane_size(
    s: Seq<PixelFormatInfoData>,
    fmt: PixelFormat,
    size: Size,
    plane: int,
    align: int,
) -> int {
    match spec_info_entry(s, fmt.fourcc, fmt.modifier) {
        Some(d) => spec_plane_size(d, size, plane, align),
        None => 0,
    }
}

pub open spec fn spec_lookup_frame_size(
    s: Seq<PixelFormatInfoData>,
    fmt: PixelFormat,
    size: Size,
    align: int,
) -> int {
    match spec_info_entry(s, fmt.fourcc, fmt.modifier) {
        Some(d) => spec_frame_size(d, size, align),
        None => 0,
    }
}

/// Executable stride computation over one table row.
pub fn compute_stride(info: &PixelFormatInfoData, width: u32, plane: u32, align: u32) -> (r: u32)
    requires
        info.wf(),
        spec_stride(*info, width as int, plane as int, align as int) <= u32::MAX,
    ensures
        r == spec_stride(*info, width as int, plane as int, align as int),
{
    if plane as usize >= info.planes.len() {
        return 0;
    }
    let plane_info = info.planes[plane as usize];
    if plane_info.bytes_per_group == 0 || plane_info.vertical_sub_sampling == 0 {
        return 0;
    }
    let groups: u64 = (width as u64 + info.pixels_per_group as u64 - 1)
        / info.pixels_per_group as u64;
    proof {
        lemma_align_up_ge(groups as int * plane_info.bytes_per_group as int, align as int);
        assert(groups * plane_info.bytes_per_group as int >= 0) by (nonlinear_arith)
            requires
                groups >= 0,
                plane_info.bytes_per_group >= 0,
        ;
    }
    let stride: u64 = mul_u64_bounded(groups, plane_info.bytes_per_group as u64);
    let stride = if align > 0 {
        let a = align as u64;
        let q = (stride + a - 1) / a;
        proof {
            assert(q * a == spec_align_up(stride as int, a as int) && 0 <= q * a <= stride + a
                - 1) by (nonlinear_arith)
                requires
                    a > 0,
                    q == (stride + a - 1) as int / a as int,
            ;
        }
        q * a
    } else {
        stride
    };
    stride as u32
}

/// `a * b` for values whose product is known to fit, because the aligned
/// stride it feeds into is bounded by the caller.
fn mul_u64_bounded(a: u64, b: u64) -> (r: u64)
    requires
        a * b <= u64::MAX,
    ensures
        r == a * b,
{
    a * b
}

/// Aligning a non-negative value up never shrinks it.
proof fn lemma_align_up_ge(v: int, a: int)
    requires
        v >= 0,
    ensures
        spec_align_up(v, a) >= v,
{
    if a > 0 {
        assert(((v + a - 1) / a) * a >= v) by (nonlinear_arith)
            requires
                a > 0,
                v >= 0,
        ;
    }
}

/// Executable plane-size computation over one table row.
pub fn compute_plane_size(info: &PixelFormatInfoData, size: Size, plane: u32, align: u32) -> (r: u32)
    requires
        info.wf(),
        spec_plane_size(*info, size, plane as int, align as int) <= u32::MAX,
        spec_stride(*info, size.width as int, plane as int, align as int) <= u32::MAX,
    ensures
        r == spec_plane_size(*info, size, plane as int, align as int),
{
    if plane as usize >= info.planes.len() {
        return 0;
    }
    let plane_info = info.planes[plane as usize];
    if plane_info.bytes_per_group == 0 || plane_info.vertical_sub_sampling == 0 {
        return 0;
    }
    let stride = compute_stride(info, size.width, plane, align) as u64;
    let height = size.height as u64 / plane_info.vertical_sub_sampling as u64;
    proof {
        assert(stride * height == spec_plane_size(*info, size, plane as int, align as int))
            by (nonlinear_arith)
            requires
                plane_info.vertical_sub_sampling > 0,
                stride == spec_stride(*info, size.width as int, plane as int, align as int),
                height == size.height as int / plane_info.vertical_sub_sampling as int,
                (plane as int) < info.planes.len(),
                info.planes[plane as int] == plane_info,
                plane_used(plane_info),
                spec_plane_size(*info, size, plane as int, align as int) == spec_stride(
                    *info,
                    size.width as int,
                    plane as int,
                    align as int,
                ) * (size.height as int / plane_info.vertical_sub_sampling as int),
        ;
    }
    let out: u64 = mul_u64_bounded(stride, height);
    out as u32
}

/// Executable frame-size computation over one table row.
pub fn compute_frame_size(info: &PixelFormatInfoData, size: Size, align: u32) -> (r: u32)
    requires
        info.wf(),
        info.planes.len() <= u32::MAX,
        spec_frame_size(*info, size, align as int) <= u32::MAX,
        forall|p: int| 0 <= p < info.planes.len() ==> {
            &&& #[trigger] spec_plane_size(*info, size, p, align as int) <= u32::MAX
            &&& spec_stride(*info, size.width as int, p, align as int) <= u32::MAX
            &&& spec_frame_size_upto(*info, size, align as int, p + 1) <= u32::MAX
        },
    ensures
        r == spec_frame_size(*info, size, align as int),
{
    let mut total: u32 = 0;
    let n = info.planes.len();
    for p in 0..n
        invariant
            n == info.planes.len(),
            n <= u32::MAX,
            info.wf(),
            spec_frame_size(*info, size, align as int) <= u32::MAX,
            forall|q: int| 0 <= q < info.planes.len() ==> {
                &&& #[trigger] spec_plane_size(*info, size, q, align as int) <= u32::MAX
                &&& spec_stride(*info, size.width as int, q, align as int) <= u32::MAX
                &&& spec_frame_size_upto(*info, size, align as int, q + 1) <= u32::MAX
            },
            total == spec_frame_size_upto(*info, size, align as int, p as int),
            0 <= total,
    {
        let plane_info = info.planes[p];
        if plane_info.bytes_per_group == 0 || plane_info.vertical_sub_sampling == 0 {
            proof {
                assert(spec_plane_size(*info, size, p as int, align as int) == 0);
            }
        } else {
            let ps = compute_plane_size(info, size, p as u32, align);
            proof {
                lemma_frame_size_upto_nonneg(*info, size, align as int, p as int);
                lemma_plane_size_nonneg(*info, size, p as int, align as int);
            }
            total = total + ps;
        }
    }
    total
}

proof fn lemma_plane_size_nonneg(info: PixelFormatInfoData, size: Size, plane: int, align: int)
    requires
        info.wf(),
    ensures
        spec_plane_size(info, size, plane, align) >= 0,
        spec_stride(info, size.width as int, plane, align) >= 0,
{
    if plane < info.planes.len() && plane_used(info.planes[plane]) {
        let groups = (size.width as int + info.pixels_per_group - 1) / (
        info.pixels_per_group as int);
        let bpg = info.planes[plane].bytes_per_group as int;
        assert(groups >= 0 && groups * bpg >= 0) by (nonlinear_arith)
            requires
                info.pixels_per_group > 0,
                size.width >= 0,
                bpg >= 0,
                groups == (size.width as int + info.pixels_per_group - 1) / (
                info.pixels_per_group as int),
        ;
        let stride = groups * bpg;
        if align > 0 {
            assert(((stride + align - 1) / align) * align >= 0) by (nonlinear_arith)
                requires
                    align > 0,
                    stride >= 0,
            ;
        }
        let vss = info.planes[plane].vertical_sub_sampling as int;
        assert(spec_stride(info, size.width as int, plane, align) * (size.height as int / vss)
            >= 0) by (nonlinear_arith)
            requires
                vss > 0,
                size.height >= 0,
                spec_stride(info, size.width as int, plane, align) >= 0,
        ;
    }
}

proof fn lemma_frame_size_upto_nonneg(info: PixelFormatInfoData, size: Size, align: int, n: int)
    requires
        info.wf(),
    ensures
        spec_frame_size_upto(info, size, align, n) >= 0,
    decreases n,
{
    if n > 0 {
        lemma_frame_size_upto_nonneg(info, size, align, n - 1);
        lemma_plane_size_nonneg(info, size, n - 1, align);
    }
}

/// A list of pixel formats.
#[derive(Debug, Clone)]
pub struct PixelFormats {
    formats: Vec<PixelFormat>,
}

impl PixelFormats {
    pub closed spec fn view(&self) -> Seq<PixelFormat> {
        self.formats@
    }

    pub fn new(formats: Vec<PixelFormat>) -> (r: Self)
        ensures
            r@ == formats@,
    {
        Self { formats }
    }

    /// Number of formats in the list.
    pub fn len(&self) -> (r: usize)
        ensures
            r == self@.len(),
    {
        self.formats.len()
    }

    /// True when the list holds no format.
    pub fn is_empty(&self) -> (r: bool)
        ensures
            r == (self@.len() == 0),
    {
        self.formats.len() == 0
    }

    /// The format at `index`, or `None` when out of range.
    pub fn get(&self, index: usize) -> (r: Option<PixelFormat>)
        ensures
            index < self@.len() ==> r == Some(self@[index as int]),
            index >= self@.len() ==> r is None,
    {
        if index >= self.formats.len() {
            None
        } else {
            Some(self.formats[index])
        }
    }
}

/// Packing a fourcc/modifier pair into a format-info record and reading the
/// pair back yields the identical pair.
pub proof fn lemma_format_pair_round_trip(
    fourcc: u32,
    modifier: u64,
    info: PixelFormatInfo,
    data: PixelFormatInfoData,
)
    requires
        info_matches(info, PixelFormat { fourcc, modifier }, data),
    ensures
        info.format.fourcc == fourcc,
        info.format.modifier == modifier,
{
}

} // verus!
