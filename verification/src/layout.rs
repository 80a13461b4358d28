//! Pixel-format layout extraction: a balanced-delimiter scanner over the
//! layout source file that finds each `formats::<name>` entry block and
//! reads its fields, each field defaulting when absent, cross-referenced
//! against the resolved format constants by symbolic name.

use vstd::prelude::*;

use crate::catalog::{FormatConst, FormatConstView, format_const_view};
use crate::consts::{spec_assoc_u32, table32_view, v4l2_prefix, lookup_u32};
use crate::text::{
    alpha_end, dec_end, find_match, ident_end, match_at,
    parse_dec_u32, skip_ws, skip_wsnl, spec_alpha_end, spec_dec_end, spec_dec_u32_of, spec_find,
    spec_find_match, spec_ident_end, spec_match_at, spec_skip_ws, spec_skip_wsnl, find_byte,
};

verus! {

broadcast use crate::text::lemma_find_ge, crate::text::lemma_find_match_ge, crate::text::lemma_skip_wsnl_ge, crate::text::lemma_ident_end_ge;

/// `formats::`
pub open spec fn kw_formats_colons() -> Seq<u8> {
    seq![102u8, 111u8, 114u8, 109u8, 97u8, 116u8, 115u8, 58u8, 58u8]
}

fn kw_formats_colons_bytes() -> (r: Vec<u8>)
    ensures
        r@ == kw_formats_colons(),
{
    let r: Vec<u8> = vec![102u8, 111u8, 114u8, 109u8, 97u8, 116u8, 115u8, 58u8, 58u8];
    proof {
        assert(r@ =~= kw_formats_colons());
    }
    r
}

/// `.bitsPerPixel`
pub open spec fn kw_bits() -> Seq<u8> {
    seq![46u8, 98u8, 105u8, 116u8, 115u8, 80u8, 101u8, 114u8, 80u8, 105u8, 120u8, 101u8, 108u8]
}

fn kw_bits_bytes() -> (r: Vec<u8>)
    ensures
        r@ == kw_bits(),
{
    let r: Vec<u8> = vec![46u8, 98u8, 105u8, 116u8, 115u8, 80u8, 101u8, 114u8, 80u8, 105u8, 120u8, 101u8, 108u8];
    proof {
        assert(r@ =~= kw_bits());
    }
    r
}

/// `ColourEncoding`
pub open spec fn kw_colour() -> Seq<u8> {
    seq![67u8, 111u8, 108u8, 111u8, 117u8, 114u8, 69u8, 110u8, 99u8, 111u8, 100u8, 105u8, 110u8, 103u8]
}

fn kw_colour_bytes() -> (r: Vec<u8>)
    ensures
        r@ == kw_colour(),
{
    let r: Vec<u8> = vec![67u8, 111u8, 108u8, 111u8, 117u8, 114u8, 69u8, 110u8, 99u8, 111u8, 100u8, 105u8, 110u8, 103u8];
    proof {
        assert(r@ =~= kw_colour());
    }
    r
}

/// `.packed`
pub open spec fn kw_packed() -> Seq<u8> {
    seq![46u8, 112u8, 97u8, 99u8, 107u8, 101u8, 100u8]
}

fn kw_packed_bytes() -> (r: Vec<u8>)
    ensures
        r@ == kw_packed(),
{
    let r: Vec<u8> = vec![46u8, 112u8, 97u8, 99u8, 107u8, 101u8, 100u8];
    proof {
        assert(r@ =~= kw_packed());
    }
    r
}

/// `.pixelsPerGroup`
pub open spec fn kw_ppg() -> Seq<u8> {
    seq![46u8, 112u8, 105u8, 120u8, 101u8, 108u8, 115u8, 80u8, 101u8, 114u8, 71u8, 114u8, 111u8, 117u8, 112u8]
}

fn kw_ppg_bytes() -> (r: Vec<u8>)
    ensures
        r@ == kw_ppg(),
{
    let r: Vec<u8> = vec![46u8, 112u8, 105u8, 120u8, 101u8, 108u8, 115u8, 80u8, 101u8, 114u8, 71u8, 114u8, 111u8, 117u8, 112u8];
    proof {
        assert(r@ =~= kw_ppg());
    }
    r
}

/// `.planes`
pub open spec fn kw_planes() -> Seq<u8> {
    seq![46u8, 112u8, 108u8, 97u8, 110u8, 101u8, 115u8]
}

fn kw_planes_bytes() -> (r: Vec<u8>)
    ensures
        r@ == kw_planes(),
{
    let r: Vec<u8> = vec![46u8, 112u8, 108u8, 97u8, 110u8, 101u8, 115u8];
    proof {
        assert(r@ =~= kw_planes());
    }
    r
}

/// `.v4l2Formats`
pub open spec fn kw_v4l2_field() -> Seq<u8> {
    seq![46u8, 118u8, 52u8, 108u8, 50u8, 70u8, 111u8, 114u8, 109u8, 97u8, 116u8, 115u8]
}

fn kw_v4l2_field_bytes() -> (r: Vec<u8>)
    ensures
        r@ == kw_v4l2_field(),
{
    let r: Vec<u8> = vec![46u8, 118u8, 52u8, 108u8, 50u8, 70u8, 111u8, 114u8, 109u8, 97u8, 116u8, 115u8];
    proof {
        assert(r@ =~= kw_v4l2_field());
    }
    r
}

/// `V4L2PixelFormat(`
pub open spec fn kw_v4l2_call() -> Seq<u8> {
    seq![86u8, 52u8, 76u8, 50u8, 80u8, 105u8, 120u8, 101u8, 108u8, 70u8, 111u8, 114u8, 109u8, 97u8, 116u8, 40u8]
}

fn kw_v4l2_call_bytes() -> (r: Vec<u8>)
    ensures
        r@ == kw_v4l2_call(),
{
    let r: Vec<u8> = vec![86u8, 52u8, 76u8, 50u8, 80u8, 105u8, 120u8, 101u8, 108u8, 70u8, 111u8, 114u8, 109u8, 97u8, 116u8, 40u8];
    proof {
        assert(r@ =~= kw_v4l2_call());
    }
    r
}

/// `RGB`
pub open spec fn kw_rgb() -> Seq<u8> {
    seq![82u8, 71u8, 66u8]
}

fn kw_rgb_bytes() -> (r: Vec<u8>)
    ensures
        r@ == kw_rgb(),
{
    let r: Vec<u8> = vec![82u8, 71u8, 66u8];
    proof {
        assert(r@ =~= kw_rgb());
    }
    r
}

/// `YUV`
pub open spec fn kw_yuv() -> Seq<u8> {
    seq![89u8, 85u8, 86u8]
}

fn kw_yuv_bytes() -> (r: Vec<u8>)
    ensures
        r@ == kw_yuv(),
{
    let r: Vec<u8> = vec![89u8, 85u8, 86u8];
    proof {
        assert(r@ =~= kw_yuv());
    }
    r
}

/// `RAW`
pub open spec fn kw_raw() -> Seq<u8> {
    seq![82u8, 65u8, 87u8]
}

fn kw_raw_bytes() -> (r: Vec<u8>)
    ensures
        r@ == kw_raw(),
{
    let r: Vec<u8> = vec![82u8, 65u8, 87u8];
    proof {
        assert(r@ =~= kw_raw());
    }
    r
}

/// `true`
pub open spec fn kw_true() -> Seq<u8> {
    seq![116u8, 114u8, 117u8, 101u8]
}

fn kw_true_bytes() -> (r: Vec<u8>)
    ensures
        r@ == kw_true(),
{
    let r: Vec<u8> = vec![116u8, 114u8, 117u8, 101u8];
    proof {
        assert(r@ =~= kw_true());
    }
    r
}

/// One harvested layout record, cross-referenced against the format
/// constants.
#[derive(Debug, Clone)]
pub struct PixelFormatInfo {
    pub name: Vec<u8>,
    pub fourcc: u32,
    pub modifier: u64,
    pub bits_per_pixel: u32,
    pub colour_encoding: u32,
    pub packed: bool,
    pub pixels_per_group: u32,
    pub planes: Vec<(u32, u32)>,
    pub v4l2_formats: Vec<u32>,
}

/// Mathematical image of `PixelFormatInfo`.
pub struct PixelFormatInfoView {
    pub name: Seq<u8>,
    pub fourcc: u32,
    pub modifier: u64,
    pub bits_per_pixel: u32,
    pub colour_encoding: u32,
    pub packed: bool,
    pub pixels_per_group: u32,
    pub planes: Seq<(u32, u32)>,
    pub v4l2_formats: Seq<u32>,
}

pub open spec fn layout_view(p: PixelFormatInfo) -> PixelFormatInfoView {
    PixelFormatInfoView {
        name: p.name@,
        fourcc: p.fourcc,
        modifier: p.modifier,
        bits_per_pixel: p.bits_per_pixel,
        colour_encoding: p.colour_encoding,
        packed: p.packed,
        pixels_per_group: p.pixels_per_group,
        planes: p.planes@,
        v4l2_formats: p.v4l2_formats@,
    }
}

/// Index of the brace closing the block that starts just before `i` at
/// nesting `depth`, or the length when the block never closes.
pub open spec fn spec_balance_end(s: Seq<u8>, i: int, depth: int) -> int
    decreases s.len() - i,
{
    if i < 0 {
        spec_balance_end(s, 0, depth)
    } else if i >= s.len() {
        s.len() as int
    } else if s[i] == 123u8 {
        spec_balance_end(s, i + 1, depth + 1)
    } else if s[i] == 125u8 {
        if depth <= 1 {
            i
        } else {
            spec_balance_end(s, i + 1, depth - 1)
        }
    } else {
        spec_balance_end(s, i + 1, depth)
    }
}

/// Bounds of `spec_balance_end`.
pub proof fn lemma_balance_ge(s: Seq<u8>, i: int, depth: int)
    ensures
        0 <= i <= s.len() ==> i <= spec_balance_end(s, i, depth) <= s.len(),
    decreases s.len() - i,
{
    if 0 <= i < s.len() {
        if s[i] == 123u8 {
            lemma_balance_ge(s, i + 1, depth + 1);
        } else if s[i] == 125u8 {
            if depth > 1 {
                lemma_balance_ge(s, i + 1, depth - 1);
            }
        } else {
            lemma_balance_ge(s, i + 1, depth);
        }
    }
}

/// Executable balanced-brace scan.
fn balance_end(s: &[u8], from: usize) -> (r: usize)
    requires
        from <= s@.len(),
        s@.len() < usize::MAX,
    ensures
        r == spec_balance_end(s@, from as int, 1),
        from <= r <= s@.len(),
{
    let n = s.len();
    let mut i = from;
    let mut depth: usize = 1;
    while i < n && !(s[i] == 125u8 && depth == 1)
        invariant
            from <= i <= n,
            n == s@.len(),
            n < usize::MAX,
            1 <= depth <= i - from + 1,
            spec_balance_end(s@, from as int, 1) == spec_balance_end(s@, i as int, depth as int),
        decreases n - i,
    {
        if s[i] == 123u8 {
            depth = depth + 1;
        } else if s[i] == 125u8 {
            depth = depth - 1;
        }
        i = i + 1;
    }
    proof {
        lemma_balance_ge(s@, from as int, 1);
    }
    i
}

/// A numeric field `<key> = <digits>` of a block, with a default for a
/// missing or malformed field.
pub open spec fn spec_field_u32(block: Seq<u8>, key: Seq<u8>, default: u32) -> u32 {
    let p = spec_find_match(block, 0, key);
    if p >= block.len() {
        default
    } else {
        let q = spec_skip_wsnl(block, p + key.len());
        if q < block.len() && block[q] == 61u8 {
            let r2 = spec_skip_wsnl(block, q + 1);
            let e = spec_dec_end(block, r2);
            match spec_dec_u32_of(block.subrange(r2, e)) {
                Some(v) => v,
                None => default,
            }
        } else {
            default
        }
    }
}

/// Executable form of `spec_field_u32`.
fn field_u32(block: &[u8], key: &[u8], default: u32) -> (r: u32)
    ensures
        r == spec_field_u32(block@, key@, default),
{
    let n = block.len();
    let p = find_match(block, 0, key);
    if p >= n {
        return default;
    }
    let q = skip_wsnl(block, p + key.len());
    if q < n && block[q] == 61u8 {
        let r2 = skip_wsnl(block, q + 1);
        let e = dec_end(block, r2);
        let digits = vstd::slice::slice_subrange(block, r2, e);
        match parse_dec_u32(digits) {
            Some(v) => v,
            None => default,
        }
    } else {
        default
    }
}

/// The colour-encoding tag of a block: 0 for RGB, 1 for YUV, 2 for RAW,
/// defaulting to RGB when no keyword is found.
pub open spec fn spec_colour(block: Seq<u8>) -> u32 {
    let p = spec_find_match(block, 0, kw_colour());
    if p >= block.len() {
        0
    } else {
        let e = spec_alpha_end(block, p + 14);
        let kw = block.subrange(p + 14, e);
        if kw == kw_rgb() {
            0
        } else if kw == kw_yuv() {
            1
        } else if kw == kw_raw() {
            2
        } else {
            0
        }
    }
}

/// Executable form of `spec_colour`.
fn colour_of(block: &[u8]) -> (r: u32)
    ensures
        r == spec_colour(block@),
{
    let n = block.len();
    let lit = kw_colour_bytes();
    let p = find_match(block, 0, lit.as_slice());
    if p >= n {
        return 0;
    }
    let e = alpha_end(block, p + 14);
    let kw = vstd::slice::slice_subrange(block, p + 14, e);
    let rgb = kw_rgb_bytes();
    let yuv = kw_yuv_bytes();
    let raw = kw_raw_bytes();
    if crate::text::bytes_eq(kw, rgb.as_slice()) {
        0
    } else if crate::text::bytes_eq(kw, yuv.as_slice()) {
        1
    } else if crate::text::bytes_eq(kw, raw.as_slice()) {
        2
    } else {
        0
    }
}

/// The packed flag of a block, false when absent or not literally true.
pub open spec fn spec_packed(block: Seq<u8>) -> bool {
    let p = spec_find_match(block, 0, kw_packed());
    if p >= block.len() {
        false
    } else {
        let q = spec_skip_wsnl(block, p + 7);
        if q < block.len() && block[q] == 61u8 {
            let r2 = spec_skip_wsnl(block, q + 1);
            spec_match_at(block, r2, kw_true())
        } else {
            false
        }
    }
}

/// Executable form of `spec_packed`.
fn packed_of(block: &[u8]) -> (r: bool)
    ensures
        r == spec_packed(block@),
{
    let n = block.len();
    let lit = kw_packed_bytes();
    let p = find_match(block, 0, lit.as_slice());
    if p >= n {
        return false;
    }
    let q = skip_wsnl(block, p + 7);
    if q < n && block[q] == 61u8 {
        let r2 = skip_wsnl(block, q + 1);
        let t = kw_true_bytes();
        match_at(block, r2, t.as_slice())
    } else {
        false
    }
}

/// One `{ a, b }` pair starting at `i` (whitespace-tolerant): its two
/// values and the index after the closing brace.
pub open spec fn spec_pair_at(block: Seq<u8>, i: int) -> Option<(u32, u32, int)> {
    let a = spec_skip_wsnl(block, i);
    if a < block.len() && block[a] == 123u8 {
        let b0 = spec_skip_wsnl(block, a + 1);
        let e0 = spec_dec_end(block, b0);
        match spec_dec_u32_of(block.subrange(b0, e0)) {
            None => None,
            Some(x) => {
                let c0 = spec_skip_wsnl(block, e0);
                if c0 < block.len() && block[c0] == 44u8 {
                    let b1 = spec_skip_wsnl(block, c0 + 1);
                    let e1 = spec_dec_end(block, b1);
                    match spec_dec_u32_of(block.subrange(b1, e1)) {
                        None => None,
                        Some(y) => {
                            let d0 = spec_skip_wsnl(block, e1);
                            if d0 < block.len() && block[d0] == 125u8 {
                                Some((x, y, d0 + 1))
                            } else {
                                None
                            }
                        },
                    }
                } else {
                    None
                }
            },
        }
    } else {
        None
    }
}

/// Executable form of `spec_pair_at`; the returned index stays in bounds.
fn pair_at(block: &[u8], i: usize) -> (r: Option<(u32, u32, usize)>)
    requires
        i <= block@.len(),
    ensures
        match r {
            Some(p) => spec_pair_at(block@, i as int) == Some((p.0, p.1, p.2 as int)) && p.2
                <= block@.len(),
            None => spec_pair_at(block@, i as int) is None,
        },
{
    let n = block.len();
    let a = skip_wsnl(block, i);
    if !(a < n && block[a] == 123u8) {
        return None;
    }
    let b0 = skip_wsnl(block, a + 1);
    let e0 = dec_end(block, b0);
    let x = match parse_dec_u32(vstd::slice::slice_subrange(block, b0, e0)) {
        None => {
            return None;
        },
        Some(x) => x,
    };
    let c0 = skip_wsnl(block, e0);
    if !(c0 < n && block[c0] == 44u8) {
        return None;
    }
    let b1 = skip_wsnl(block, c0 + 1);
    let e1 = dec_end(block, b1);
    let y = match parse_dec_u32(vstd::slice::slice_subrange(block, b1, e1)) {
        None => {
            return None;
        },
        Some(y) => y,
    };
    let d0 = skip_wsnl(block, e1);
    if d0 < n && block[d0] == 125u8 {
        Some((x, y, d0 + 1))
    } else {
        None
    }
}

/// Three plane-slot pairs, all zero when absent or malformed.
pub open spec fn zero_planes() -> Seq<(u32, u32)> {
    seq![(0u32, 0u32), (0u32, 0u32), (0u32, 0u32)]
}

/// The `planes = {{ {a,b}, {c,d}, {e,f} }}` field of a block.
pub open spec fn spec_planes(block: Seq<u8>) -> Seq<(u32, u32)> {
    let p = spec_find_match(block, 0, kw_planes());
    if p >= block.len() {
        zero_planes()
    } else {
        let q = spec_skip_wsnl(block, p + 7);
        if q < block.len() && block[q] == 61u8 {
            let r2 = spec_skip_wsnl(block, q + 1);
            if r2 < block.len() && block[r2] == 123u8 {
                let r3 = spec_skip_wsnl(block, r2 + 1);
                if r3 < block.len() && block[r3] == 123u8 {
                    match spec_pair_at(block, r3 + 1) {
                        None => zero_planes(),
                        Some((a0, b0, n1)) => {
                            let c1 = spec_skip_wsnl(block, n1);
                            if c1 < block.len() && block[c1] == 44u8 {
                                match spec_pair_at(block, c1 + 1) {
                                    None => zero_planes(),
                                    Some((a1, b1, n2)) => {
                                        let c2 = spec_skip_wsnl(block, n2);
                                        if c2 < block.len() && block[c2] == 44u8 {
                                            match spec_pair_at(block, c2 + 1) {
                                                None => zero_planes(),
                                                Some((a2, b2, n3)) => {
                                                    let d1 = spec_skip_wsnl(block, n3);
                                                    if d1 < block.len() && block[d1] == 125u8 {
                                                        let d2 = spec_skip_wsnl(block, d1 + 1);
                                                        if d2 < block.len() && block[d2]
                                                            == 125u8 {
                                                            seq![(a0, b0), (a1, b1), (a2, b2)]
                                                        } else {
                                                            zero_planes()
                                                        }
                                                    } else {
                                                        zero_planes()
                                                    }
                                                },
                                            }
                                        } else {
                                            zero_planes()
                                        }
                                    },
                                }
                            } else {
                                zero_planes()
                            }
                        },
                    }
                } else {
                    zero_planes()
                }
            } else {
                zero_planes()
            }
        } else {
            zero_planes()
        }
    }
}

/// Executable form of `spec_planes`.
fn planes_of(block: &[u8]) -> (r: Vec<(u32, u32)>)
    ensures
        r@ == spec_planes(block@),
{
    let n = block.len();
    let mut zeros: Vec<(u32, u32)> = Vec::new();
    zeros.push((0, 0));
    zeros.push((0, 0));
    zeros.push((0, 0));
    proof {
        assert(zeros@ =~= zero_planes());
    }
    let lit = kw_planes_bytes();
    let p = find_match(block, 0, lit.as_slice());
    if p >= n {
        return zeros;
    }
    let q = skip_wsnl(block, p + 7);
    if !(q < n && block[q] == 61u8) {
        return zeros;
    }
    let r2 = skip_wsnl(block, q + 1);
    if !(r2 < n && block[r2] == 123u8) {
        return zeros;
    }
    let r3 = skip_wsnl(block, r2 + 1);
    if !(r3 < n && block[r3] == 123u8) {
        return zeros;
    }
    let (a0, b0, n1) = match pair_at(block, r3 + 1) {
        None => {
            return zeros;
        },
        Some(t) => t,
    };
    let c1 = skip_wsnl(block, n1);
    if !(c1 < n && block[c1] == 44u8) {
        return zeros;
    }
    let (a1, b1, n2) = match pair_at(block, c1 + 1) {
        None => {
            return zeros;
        },
        Some(t) => t,
    };
    let c2 = skip_wsnl(block, n2);
    if !(c2 < n && block[c2] == 44u8) {
        return zeros;
    }
    let (a2, b2, n3) = match pair_at(block, c2 + 1) {
        None => {
            return zeros;
        },
        Some(t) => t,
    };
    let d1 = skip_wsnl(block, n3);
    if !(d1 < n && block[d1] == 125u8) {
        return zeros;
    }
    let d2 = skip_wsnl(block, d1 + 1);
    if !(d2 < n && block[d2] == 125u8) {
        return zeros;
    }
    let mut out: Vec<(u32, u32)> = Vec::new();
    out.push((a0, b0));
    out.push((a1, b1));
    out.push((a2, b2));
    proof {
        assert(out@ =~= seq![(a0, b0), (a1, b1), (a2, b2)]);
    }
    out
}

/// The legacy alias codes listed in `content`, from `pos` on: each
/// `V4L2PixelFormat(<alias-name>)` whose name the alias table resolves,
/// in list order; unresolvable names are dropped.
pub open spec fn spec_v4l2_items(content: Seq<u8>, pos: int, table: Seq<(Seq<u8>, u32)>) -> Seq<
    u32,
>
    decreases content.len() - pos + 1,
{
    if pos < 0 || pos > content.len() {
        Seq::empty()
    } else {
        let p = spec_find_match(content, pos, kw_v4l2_call());
        if p >= content.len() {
            Seq::empty()
        } else {
            let q = spec_skip_wsnl(content, p + 16);
            let e = spec_ident_end(content, q);
            let name = content.subrange(q, e);
            let c = spec_skip_wsnl(content, e);
            let ok = name.len() > v4l2_prefix().len() && name.subrange(
                0,
                v4l2_prefix().len() as int,
            ) == v4l2_prefix() && c < content.len() && content[c] == 41u8;
            let head = if ok {
                match spec_assoc_u32(table, name) {
                    Some(v) => seq![v],
                    None => Seq::<u32>::empty(),
                }
            } else {
                Seq::<u32>::empty()
            };
            let nxt: int = if p + 16 <= content.len() {
                p + 16
            } else {
                content.len() as int + 1
            };
            head + spec_v4l2_items(content, nxt, table)
        }
    }
}

/// Executable form of `spec_v4l2_items`, starting at 0.
fn v4l2_items(content: &[u8], table: &Vec<(Vec<u8>, u32)>) -> (r: Vec<u32>)
    ensures
        r@ == spec_v4l2_items(content@, 0, table32_view(table@)),
{
    let n = content.len();
    let mut out: Vec<u32> = Vec::new();
    let mut pos: usize = 0;
    let mut more = true;
    let lit = kw_v4l2_call_bytes();
    let pfx = crate::consts::v4l2_prefix_bytes();
    while more
        invariant
            pos <= n,
            n == content@.len(),
            lit@ == kw_v4l2_call(),
            pfx@ == v4l2_prefix(),
            more ==> spec_v4l2_items(content@, 0, table32_view(table@)) == out@
                + spec_v4l2_items(content@, pos as int, table32_view(table@)),
            !more ==> spec_v4l2_items(content@, 0, table32_view(table@)) == out@,
        decreases n - pos, more_rank(more),
    {
        let p = find_match(content, pos, lit.as_slice());
        if p >= n {
            proof {
                assert(out@ + Seq::<u32>::empty() =~= out@);
            }
            more = false;
        } else {
            let q = skip_wsnl(content, p + 16);
            let e = ident_end(content, q);
            let name = vstd::slice::slice_subrange(content, q, e);
            let c = skip_wsnl(content, e);
            let ok = name.len() > pfx.len() && match_at(name, 0, pfx.as_slice()) && c < n
                && content[c] == 41u8;
            proof {
                if name@.len() > v4l2_prefix().len() {
                    assert(name@.subrange(0, v4l2_prefix().len() as int) == content@.subrange(
                        q as int,
                        e as int,
                    ).subrange(0, v4l2_prefix().len() as int));
                }
            }
            let ghost pre = out@;
            if ok {
                match lookup_u32(table, name) {
                    Some(v) => {
                        out.push(v);
                        proof {
                            assert(out@ =~= pre + seq![v]);
                        }
                    },
                    None => {},
                }
            }
            if p + 16 <= n {
                proof {
                    assert(out@ + spec_v4l2_items(content@, p + 16, table32_view(table@)) =~= pre
                        + spec_v4l2_items(content@, pos as int, table32_view(table@)));
                }
                pos = p + 16;
            } else {
                proof {
                    assert(spec_v4l2_items(
                        content@,
                        content@.len() as int + 1,
                        table32_view(table@),
                    ) =~= Seq::<u32>::empty());
                    assert(out@ + Seq::<u32>::empty() =~= out@);
                    assert(out@ =~= pre + spec_v4l2_items(
                        content@,
                        pos as int,
                        table32_view(table@),
                    ));
                }
                more = false;
            }
        }
    }
    out
}

spec fn more_rank(more: bool) -> int {
    if more {
        1
    } else {
        0
    }
}

/// The alias-code list of a block: the bracketed list after the alias
/// field name, or nothing when absent.
pub open spec fn spec_v4l2_of_block(block: Seq<u8>, table: Seq<(Seq<u8>, u32)>) -> Seq<u32> {
    let p = spec_find_match(block, 0, kw_v4l2_field());
    if p >= block.len() {
        Seq::empty()
    } else {
        let q = spec_skip_wsnl(block, p + 12);
        if q < block.len() && block[q] == 61u8 {
            let r2 = spec_skip_wsnl(block, q + 1);
            if r2 < block.len() && block[r2] == 123u8 {
                let close = spec_find(block, r2 + 1, 125u8);
                spec_v4l2_items(block.subrange(r2 + 1, close), 0, table)
            } else {
                Seq::empty()
            }
        } else {
            Seq::empty()
        }
    }
}

/// Executable form of `spec_v4l2_of_block`.
fn v4l2_of_block(block: &[u8], table: &Vec<(Vec<u8>, u32)>) -> (r: Vec<u32>)
    ensures
        r@ == spec_v4l2_of_block(block@, table32_view(table@)),
{
    let n = block.len();
    let lit = kw_v4l2_field_bytes();
    let p = find_match(block, 0, lit.as_slice());
    if p >= n {
        return Vec::new();
    }
    let q = skip_wsnl(block, p + 12);
    if !(q < n && block[q] == 61u8) {
        return Vec::new();
    }
    let r2 = skip_wsnl(block, q + 1);
    if !(r2 < n && block[r2] == 123u8) {
        return Vec::new();
    }
    let close = find_byte(block, r2 + 1, 125u8);
    let content = vstd::slice::slice_subrange(block, r2 + 1, close);
    v4l2_items(content, table)
}

/// The code and modifier a symbolic name resolves to in the constants
/// list; a name defined more than once resolves to its latest entry.
pub open spec fn spec_const_lookup(consts: Seq<FormatConstView>, name: Seq<u8>) -> Option<
    (u32, u64),
>
    decreases consts.len(),
{
    if consts.len() == 0 {
        None
    } else if consts.last().name == name {
        Some((consts.last().fourcc, consts.last().modifier))
    } else {
        spec_const_lookup(consts.drop_last(), name)
    }
}

/// Executable lookup in the constants list.
fn const_lookup(consts: &Vec<FormatConst>, name: &[u8]) -> (r: Option<(u32, u64)>)
    ensures
        r == spec_const_lookup(
            consts@.map_values(|f: FormatConst| format_const_view(f)),
            name@,
        ),
{
    let mut i = consts.len();
    proof {
        assert(consts@.take(i as int) == consts@);
    }
    while i > 0
        invariant
            i <= consts@.len(),
            spec_const_lookup(
                consts@.map_values(|f: FormatConst| format_const_view(f)),
                name@,
            ) == spec_const_lookup(
                consts@.take(i as int).map_values(|f: FormatConst| format_const_view(f)),
                name@,
            ),
        decreases i,
    {
        proof {
            assert(consts@.take(i as int).map_values(|f: FormatConst| format_const_view(f)).last()
                == format_const_view(consts@[i - 1]));
            assert(consts@.take(i as int).map_values(
                |f: FormatConst| format_const_view(f),
            ).drop_last() =~= consts@.take(i - 1).map_values(
                |f: FormatConst| format_const_view(f),
            ));
        }
        if crate::text::bytes_eq(consts[i - 1].name.as_slice(), name) {
            return Some((consts[i - 1].fourcc, consts[i - 1].modifier));
        }
        i = i - 1;
    }
    proof {
        assert(consts@.take(0).map_values(|f: FormatConst| format_const_view(f)) =~= Seq::<
            FormatConstView,
        >::empty());
    }
    None
}


/// A scan position clamped to just past the end of the text.
pub open spec fn clamp_pos(s: Seq<u8>, x: int) -> int {
    if x <= s.len() + 1 {
        x
    } else {
        s.len() as int + 1
    }
}

/// The layout records of `s` from `pos` on: each `formats::<name>` marker
/// followed by a comma and a braced field block yields one record when
/// `name` has a resolved format constant, and is dropped silently when it
/// has none; anything else is skipped.
pub open spec fn spec_layout_entries(
    s: Seq<u8>,
    pos: int,
    consts: Seq<FormatConstView>,
    table: Seq<(Seq<u8>, u32)>,
) -> Seq<PixelFormatInfoView>
    decreases s.len() - pos + 1,
{
    if pos < 0 || pos > s.len() {
        Seq::empty()
    } else {
        let p = spec_find_match(s, pos, kw_formats_colons());
        if p >= s.len() {
            Seq::empty()
        } else {
            let q = p + 9;
            let ne = spec_ident_end(s, q);
            if ne <= q {
                spec_layout_entries(s, clamp_pos(s, q), consts, table)
            } else {
                let w1 = spec_skip_wsnl(s, ne);
                if !(w1 < s.len() && s[w1] == 44u8) {
                    spec_layout_entries(s, clamp_pos(s, ne), consts, table)
                } else {
                    let w2 = spec_skip_wsnl(s, w1 + 1);
                    if !(w2 < s.len() && s[w2] == 123u8) {
                        spec_layout_entries(s, clamp_pos(s, ne), consts, table)
                    } else {
                        let be = spec_balance_end(s, w2 + 1, 1);
                        let nxt0 = if be + 1 > w2 + 2 {
                            be + 1
                        } else {
                            w2 + 2
                        };
                        let block = s.subrange(w2 + 1, be);
                        let name = s.subrange(q, ne);
                        let head = match spec_const_lookup(consts, name) {
                            None => Seq::<PixelFormatInfoView>::empty(),
                            Some((fourcc, modifier)) => seq![
                                PixelFormatInfoView {
                                    name,
                                    fourcc,
                                    modifier,
                                    bits_per_pixel: spec_field_u32(block, kw_bits(), 0),
                                    colour_encoding: spec_colour(block),
                                    packed: spec_packed(block),
                                    pixels_per_group: spec_field_u32(block, kw_ppg(), 1),
                                    planes: spec_planes(block),
                                    v4l2_formats: spec_v4l2_of_block(block, table),
                                },
                            ],
                        };
                        head + spec_layout_entries(s, clamp_pos(s, nxt0), consts, table)
                    }
                }
            }
        }
    }
}

/// Scan the layout source for format entries, resolving each against the
/// format constants and the legacy alias table, in source order.
#[verifier::rlimit(100)]
pub fn parse_pixel_format_info(
    src: &[u8],
    consts: &Vec<FormatConst>,
    v4l2: &Vec<(Vec<u8>, u32)>,
) -> (r: Vec<PixelFormatInfo>)
    requires
        src@.len() < usize::MAX,
    ensures
        r@.map_values(|p: PixelFormatInfo| layout_view(p)) == spec_layout_entries(
            src@,
            0,
            consts@.map_values(|f: FormatConst| format_const_view(f)),
            table32_view(v4l2@),
        ),
{
    let ghost gconsts = consts@.map_values(|f: FormatConst| format_const_view(f));
    let ghost gtable = table32_view(v4l2@);
    let n = src.len();
    let marker = kw_formats_colons_bytes();
    let bits_kw = kw_bits_bytes();
    let ppg_kw = kw_ppg_bytes();
    let mut out: Vec<PixelFormatInfo> = Vec::new();
    let mut pos: usize = 0;
    let mut more = true;
    while more
        invariant
            pos <= n,
            n == src@.len(),
            n < usize::MAX,
            marker@ == kw_formats_colons(),
            bits_kw@ == kw_bits(),
            ppg_kw@ == kw_ppg(),
            gconsts == consts@.map_values(|f: FormatConst| format_const_view(f)),
            gtable == table32_view(v4l2@),
            more ==> spec_layout_entries(src@, 0, gconsts, gtable) == out@.map_values(
                |p: PixelFormatInfo| layout_view(p),
            ) + spec_layout_entries(src@, pos as int, gconsts, gtable),
            !more ==> spec_layout_entries(src@, 0, gconsts, gtable) == out@.map_values(
                |p: PixelFormatInfo| layout_view(p),
            ),
        decreases n - pos, more_rank(more),
    {
        let ghost pre = out@.map_values(|p: PixelFormatInfo| layout_view(p));
        let p = find_match(src, pos, marker.as_slice());
        if p >= n {
            proof {
                assert(pre + Seq::<PixelFormatInfoView>::empty() =~= pre);
            }
            more = false;
        } else {
            let q = p + 9;
            proof {
                assert(q <= n);
            }
            let ne = ident_end(src, q);
            if ne <= q {
                proof {
                    assert(clamp_pos(src@, q as int) == q as int);
                }
                pos = q;
            } else {
                let w1 = skip_wsnl(src, ne);
                let comma_ok = w1 < n && src[w1] == 44u8;
                let mut brace_pos: usize = 0;
                let mut entry_ok = false;
                if comma_ok {
                    let w2 = skip_wsnl(src, w1 + 1);
                    if w2 < n && src[w2] == 123u8 {
                        entry_ok = true;
                        brace_pos = w2;
                    }
                }
                if !entry_ok {
                    proof {
                        assert(clamp_pos(src@, ne as int) == ne as int);
                    }
                    pos = ne;
                } else {
                    let w2 = brace_pos;
                    let be = balance_end(src, w2 + 1);
                    let block = vstd::slice::slice_subrange(src, w2 + 1, be);
                    let name = vstd::slice::slice_subrange(src, q, ne);
                    match const_lookup(consts, name) {
                        None => {
                            proof {
                                assert(pre + Seq::<PixelFormatInfoView>::empty() =~= pre);
                            }
                        },
                        Some((fourcc, modifier)) => {
                            let rec = PixelFormatInfo {
                                name: crate::text::bytes_to_vec(name),
                                fourcc,
                                modifier,
                                bits_per_pixel: field_u32(block, bits_kw.as_slice(), 0),
                                colour_encoding: colour_of(block),
                                packed: packed_of(block),
                                pixels_per_group: field_u32(block, ppg_kw.as_slice(), 1),
                                planes: planes_of(block),
                                v4l2_formats: v4l2_of_block(block, v4l2),
                            };
                            let ghost rv = layout_view(rec);
                            out.push(rec);
                            proof {
                                assert(out@.map_values(|pp: PixelFormatInfo| layout_view(pp))
                                    =~= pre + seq![rv]);
                            }
                        },
                    }
                    if be + 1 <= n {
                        proof {
                            assert(clamp_pos(src@, be + 1) == be + 1);
                            assert(out@.map_values(|pp: PixelFormatInfo| layout_view(pp))
                                + spec_layout_entries(src@, be + 1, gconsts, gtable) =~= pre
                                + spec_layout_entries(src@, pos as int, gconsts, gtable));
                        }
                        pos = be + 1;
                    } else {
                        proof {
                            assert(clamp_pos(src@, be + 1) == src@.len() as int + 1);
                            assert(spec_layout_entries(
                                src@,
                                src@.len() as int + 1,
                                gconsts,
                                gtable,
                            ) =~= Seq::<PixelFormatInfoView>::empty());
                            assert(out@.map_values(|pp: PixelFormatInfo| layout_view(pp)) =~= pre
                                + spec_layout_entries(src@, pos as int, gconsts, gtable));
                        }
                        more = false;
                    }
                }
            }
        }
    }
    out
}

} // verus!
