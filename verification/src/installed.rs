//! Artifacts derived from the installed runtime library's own headers at
//! a consumer's build time, independent of the harvested historical set: a
//! boolean feature-flag file scraped from the control-id header, and a
//! pixel-format constant file scraped from the format declarations.

use vstd::prelude::*;

use crate::consts::{spec_arg_chars, spec_mod_combine, spec_pack_fourcc, arg_chars, mod_combine, pack_fourcc};
use crate::text::{
    find_byte, find_match, is_space, match_at, parse_dec_u64_or_zero, push_bytes, render_hex_u64,
    skip_ws, spec_dec_u64_of, spec_find, spec_find_match, spec_hex_render, spec_match_at,
    spec_skip_ws, spec_strip_leading, spec_strip_trailing, spec_token_end, spec_trim_pred,
    strip_leading_start, strip_trailing_end, token_end, trim_ws_range,
};

verus! {

broadcast use crate::text::lemma_find_ge, crate::text::lemma_find_match_ge;

/// `#define LIBCAMERA_HAS_`
pub open spec fn kw_has_define() -> Seq<u8> {
    seq![35u8, 100u8, 101u8, 102u8, 105u8, 110u8, 101u8, 32u8, 76u8, 73u8, 66u8, 67u8, 65u8, 77u8, 69u8, 82u8, 65u8, 95u8, 72u8, 65u8, 83u8, 95u8]
}

fn kw_has_define_v() -> (r: Vec<u8>)
    ensures
        r@ == kw_has_define(),
{
    let r: Vec<u8> = vec![35u8, 100u8, 101u8, 102u8, 105u8, 110u8, 101u8, 32u8, 76u8, 73u8, 66u8, 67u8, 65u8, 77u8, 69u8, 82u8, 65u8, 95u8, 72u8, 65u8, 83u8, 95u8];
    proof {
        assert(r@ =~= kw_has_define());
    }
    r
}

/// `pub const LIBCAMERA_HAS_`
pub open spec fn l_pub_const_has() -> Seq<u8> {
    seq![112u8, 117u8, 98u8, 32u8, 99u8, 111u8, 110u8, 115u8, 116u8, 32u8, 76u8, 73u8, 66u8, 67u8, 65u8, 77u8, 69u8, 82u8, 65u8, 95u8, 72u8, 65u8, 83u8, 95u8]
}

fn l_pub_const_has_v() -> (r: Vec<u8>)
    ensures
        r@ == l_pub_const_has(),
{
    let r: Vec<u8> = vec![112u8, 117u8, 98u8, 32u8, 99u8, 111u8, 110u8, 115u8, 116u8, 32u8, 76u8, 73u8, 66u8, 67u8, 65u8, 77u8, 69u8, 82u8, 65u8, 95u8, 72u8, 65u8, 83u8, 95u8];
    proof {
        assert(r@ =~= l_pub_const_has());
    }
    r
}

/// `: bool = true;\n`
pub open spec fn l_bool_true() -> Seq<u8> {
    seq![58u8, 32u8, 98u8, 111u8, 111u8, 108u8, 32u8, 61u8, 32u8, 116u8, 114u8, 117u8, 101u8, 59u8, 10u8]
}

fn l_bool_true_v() -> (r: Vec<u8>)
    ensures
        r@ == l_bool_true(),
{
    let r: Vec<u8> = vec![58u8, 32u8, 98u8, 111u8, 111u8, 108u8, 32u8, 61u8, 32u8, 116u8, 114u8, 117u8, 101u8, 59u8, 10u8];
    proof {
        assert(r@ =~= l_bool_true());
    }
    r
}

/// `LIBCAMERA_VENDOR_CONTROLS`
pub open spec fn kw_vendor_controls_marker() -> Seq<u8> {
    seq![76u8, 73u8, 66u8, 67u8, 65u8, 77u8, 69u8, 82u8, 65u8, 95u8, 86u8, 69u8, 78u8, 68u8, 79u8, 82u8, 95u8, 67u8, 79u8, 78u8, 84u8, 82u8, 79u8, 76u8, 83u8]
}

fn kw_vendor_controls_marker_v() -> (r: Vec<u8>)
    ensures
        r@ == kw_vendor_controls_marker(),
{
    let r: Vec<u8> = vec![76u8, 73u8, 66u8, 67u8, 65u8, 77u8, 69u8, 82u8, 65u8, 95u8, 86u8, 69u8, 78u8, 68u8, 79u8, 82u8, 95u8, 67u8, 79u8, 78u8, 84u8, 82u8, 79u8, 76u8, 83u8];
    proof {
        assert(r@ =~= kw_vendor_controls_marker());
    }
    r
}

/// `constexpr PixelFormat `
pub open spec fn kw_constexpr_pf() -> Seq<u8> {
    seq![99u8, 111u8, 110u8, 115u8, 116u8, 101u8, 120u8, 112u8, 114u8, 32u8, 80u8, 105u8, 120u8, 101u8, 108u8, 70u8, 111u8, 114u8, 109u8, 97u8, 116u8, 32u8]
}

fn kw_constexpr_pf_v() -> (r: Vec<u8>)
    ensures
        r@ == kw_constexpr_pf(),
{
    let r: Vec<u8> = vec![99u8, 111u8, 110u8, 115u8, 116u8, 101u8, 120u8, 112u8, 114u8, 32u8, 80u8, 105u8, 120u8, 101u8, 108u8, 70u8, 111u8, 114u8, 109u8, 97u8, 116u8, 32u8];
    proof {
        assert(r@ =~= kw_constexpr_pf());
    }
    r
}

/// `__mod(`
pub open spec fn kw_mod_call() -> Seq<u8> {
    seq![95u8, 95u8, 109u8, 111u8, 100u8, 40u8]
}

fn kw_mod_call_v() -> (r: Vec<u8>)
    ensures
        r@ == kw_mod_call(),
{
    let r: Vec<u8> = vec![95u8, 95u8, 109u8, 111u8, 100u8, 40u8];
    proof {
        assert(r@ =~= kw_mod_call());
    }
    r
}

/// `__fourcc(`
pub open spec fn kw_fourcc_call() -> Seq<u8> {
    seq![95u8, 95u8, 102u8, 111u8, 117u8, 114u8, 99u8, 99u8, 40u8]
}

fn kw_fourcc_call_v() -> (r: Vec<u8>)
    ensures
        r@ == kw_fourcc_call(),
{
    let r: Vec<u8> = vec![95u8, 95u8, 102u8, 111u8, 117u8, 114u8, 99u8, 99u8, 40u8];
    proof {
        assert(r@ =~= kw_fourcc_call());
    }
    r
}

/// `kDrmFormatBigEndian`
pub open spec fn kw_be_marker() -> Seq<u8> {
    seq![107u8, 68u8, 114u8, 109u8, 70u8, 111u8, 114u8, 109u8, 97u8, 116u8, 66u8, 105u8, 103u8, 69u8, 110u8, 100u8, 105u8, 97u8, 110u8]
}

fn kw_be_marker_v() -> (r: Vec<u8>)
    ensures
        r@ == kw_be_marker(),
{
    let r: Vec<u8> = vec![107u8, 68u8, 114u8, 109u8, 70u8, 111u8, 114u8, 109u8, 97u8, 116u8, 66u8, 105u8, 103u8, 69u8, 110u8, 100u8, 105u8, 97u8, 110u8];
    proof {
        assert(r@ =~= kw_be_marker());
    }
    r
}

/// `, `
pub open spec fn l_comma_space_lit() -> Seq<u8> {
    seq![44u8, 32u8]
}

fn l_comma_space_lit_v() -> (r: Vec<u8>)
    ensures
        r@ == l_comma_space_lit(),
{
    let r: Vec<u8> = vec![44u8, 32u8];
    proof {
        assert(r@ =~= l_comma_space_lit());
    }
    r
}

/// `use crate::pixel_format::PixelFormat;\n\n`
pub open spec fn l_formats_header() -> Seq<u8> {
    seq![117u8, 115u8, 101u8, 32u8, 99u8, 114u8, 97u8, 116u8, 101u8, 58u8, 58u8, 112u8, 105u8, 120u8, 101u8, 108u8, 95u8, 102u8, 111u8, 114u8, 109u8, 97u8, 116u8, 58u8, 58u8, 80u8, 105u8, 120u8, 101u8, 108u8, 70u8, 111u8, 114u8, 109u8, 97u8, 116u8, 59u8, 10u8, 10u8]
}

fn l_formats_header_v() -> (r: Vec<u8>)
    ensures
        r@ == l_formats_header(),
{
    let r: Vec<u8> = vec![117u8, 115u8, 101u8, 32u8, 99u8, 114u8, 97u8, 116u8, 101u8, 58u8, 58u8, 112u8, 105u8, 120u8, 101u8, 108u8, 95u8, 102u8, 111u8, 114u8, 109u8, 97u8, 116u8, 58u8, 58u8, 80u8, 105u8, 120u8, 101u8, 108u8, 70u8, 111u8, 114u8, 109u8, 97u8, 116u8, 59u8, 10u8, 10u8];
    proof {
        assert(r@ =~= l_formats_header());
    }
    r
}

/// `pub const `
pub open spec fn l_pub_const() -> Seq<u8> {
    seq![112u8, 117u8, 98u8, 32u8, 99u8, 111u8, 110u8, 115u8, 116u8, 32u8]
}

fn l_pub_const_v() -> (r: Vec<u8>)
    ensures
        r@ == l_pub_const(),
{
    let r: Vec<u8> = vec![112u8, 117u8, 98u8, 32u8, 99u8, 111u8, 110u8, 115u8, 116u8, 32u8];
    proof {
        assert(r@ =~= l_pub_const());
    }
    r
}

/// `: PixelFormat = PixelFormat::new(0x`
pub open spec fn l_pf_new() -> Seq<u8> {
    seq![58u8, 32u8, 80u8, 105u8, 120u8, 101u8, 108u8, 70u8, 111u8, 114u8, 109u8, 97u8, 116u8, 32u8, 61u8, 32u8, 80u8, 105u8, 120u8, 101u8, 108u8, 70u8, 111u8, 114u8, 109u8, 97u8, 116u8, 58u8, 58u8, 110u8, 101u8, 119u8, 40u8, 48u8, 120u8]
}

fn l_pf_new_v() -> (r: Vec<u8>)
    ensures
        r@ == l_pf_new(),
{
    let r: Vec<u8> = vec![58u8, 32u8, 80u8, 105u8, 120u8, 101u8, 108u8, 70u8, 111u8, 114u8, 109u8, 97u8, 116u8, 32u8, 61u8, 32u8, 80u8, 105u8, 120u8, 101u8, 108u8, 70u8, 111u8, 114u8, 109u8, 97u8, 116u8, 58u8, 58u8, 110u8, 101u8, 119u8, 40u8, 48u8, 120u8];
    proof {
        assert(r@ =~= l_pf_new());
    }
    r
}

/// `, 0x`
pub open spec fn l_comma_0x() -> Seq<u8> {
    seq![44u8, 32u8, 48u8, 120u8]
}

fn l_comma_0x_v() -> (r: Vec<u8>)
    ensures
        r@ == l_comma_0x(),
{
    let r: Vec<u8> = vec![44u8, 32u8, 48u8, 120u8];
    proof {
        assert(r@ =~= l_comma_0x());
    }
    r
}

/// `);\n`
pub open spec fn l_close_line() -> Seq<u8> {
    seq![41u8, 59u8, 10u8]
}

fn l_close_line_v() -> (r: Vec<u8>)
    ensures
        r@ == l_close_line(),
{
    let r: Vec<u8> = vec![41u8, 59u8, 10u8];
    proof {
        assert(r@ =~= l_close_line());
    }
    r
}

/// Every trailing occurrence of `suf` removed from `s`.
pub open spec fn spec_strip_suffix_all(s: Seq<u8>, suf: Seq<u8>) -> Seq<u8>
    decreases s.len(),
{
    if suf.len() > 0 && s.len() >= suf.len() && s.subrange(
        s.len() - suf.len(),
        s.len() as int,
    ) == suf {
        spec_strip_suffix_all(s.take(s.len() - suf.len()), suf)
    } else {
        s
    }
}

/// End index of `s` once every trailing `suf` is removed.
fn strip_suffix_all_end(s: &[u8], suf: &[u8]) -> (r: usize)
    requires
        suf@.len() > 0,
    ensures
        r <= s@.len(),
        s@.subrange(0, r as int) == spec_strip_suffix_all(s@, suf@),
{
    let n = s.len();
    let sl = suf.len();
    let mut end = n;
    proof {
        assert(s@.subrange(0, n as int) =~= s@);
    }
    while end >= sl && match_at(s, end - sl, suf)
        invariant
            end <= n,
            n == s@.len(),
            sl == suf@.len(),
            sl > 0,
            spec_strip_suffix_all(s@, suf@) == spec_strip_suffix_all(
                s@.subrange(0, end as int),
                suf@,
            ),
            forall|k: int| end <= k < n ==> s@[k] == s@[k],
        decreases end,
    {
        proof {
            assert(s@.subrange(0, end as int).subrange(end - sl, end as int) =~= s@.subrange(
                end - sl,
                end as int,
            ));
            assert(s@.subrange(end - sl, end as int) =~= s@.subrange(
                end - sl,
                end - sl + sl,
            ));
            assert(s@.subrange(0, end as int).take(end - sl) =~= s@.subrange(0, end - sl));
        }
        end = end - sl;
    }
    proof {
        if end >= sl {
            assert(s@.subrange(0, end as int).subrange(end - sl, end as int) =~= s@.subrange(
                end - sl,
                end - sl + sl,
            ));
        }
        assert(spec_strip_suffix_all(s@.subrange(0, end as int), suf@) == s@.subrange(
            0,
            end as int,
        ));
    }
    end
}

/// Every leading occurrence of `pre` removed from `s`.
pub open spec fn spec_strip_prefix_rep(s: Seq<u8>, pre: Seq<u8>) -> Seq<u8>
    decreases s.len(),
{
    if pre.len() > 0 && s.len() >= pre.len() && s.subrange(0, pre.len() as int) == pre {
        spec_strip_prefix_rep(s.skip(pre.len() as int), pre)
    } else {
        s
    }
}

/// Start index of `s` once every leading `pre` is removed.
fn strip_prefix_rep_start(s: &[u8], pre: &[u8]) -> (r: usize)
    requires
        pre@.len() > 0,
    ensures
        r <= s@.len(),
        s@.subrange(r as int, s@.len() as int) == spec_strip_prefix_rep(s@, pre@),
{
    let n = s.len();
    let pl = pre.len();
    let mut start: usize = 0;
    proof {
        assert(s@.subrange(0, n as int) =~= s@);
    }
    while n - start >= pl && match_at(s, start, pre)
        invariant
            start <= n,
            n == s@.len(),
            pl == pre@.len(),
            pl > 0,
            spec_strip_prefix_rep(s@, pre@) == spec_strip_prefix_rep(
                s@.subrange(start as int, n as int),
                pre@,
            ),
        decreases n - start,
    {
        proof {
            assert(s@.subrange(start as int, n as int).subrange(0, pl as int) =~= s@.subrange(
                start as int,
                start + pl,
            ));
            assert(s@.subrange(start as int, n as int).skip(pl as int) =~= s@.subrange(
                start + pl,
                n as int,
            ));
        }
        start = start + pl;
    }
    proof {
        if n - start >= pl {
            assert(s@.subrange(start as int, n as int).subrange(0, pl as int) =~= s@.subrange(
                start as int,
                start + pl,
            ));
        }
        assert(spec_strip_prefix_rep(s@.subrange(start as int, n as int), pre@) == s@.subrange(
            start as int,
            n as int,
        ));
    }
    start
}

/// The feature name a header line declares: the line must carry the
/// feature-presence prefix, and the name is its next whitespace-separated
/// token.
pub open spec fn spec_feature_name(line: Seq<u8>) -> Option<Seq<u8>> {
    let t = spec_trim_pred(line, |b: u8| is_space(b));
    if !spec_match_at(t, 0, kw_has_define()) {
        None
    } else {
        let q = spec_skip_ws(t, kw_has_define().len() as int);
        let e = spec_token_end(t, q);
        if e <= q {
            None
        } else {
            Some(t.subrange(q, e))
        }
    }
}

/// One emitted feature constant.
pub open spec fn spec_feature_line(name: Seq<u8>) -> Seq<u8> {
    l_pub_const_has() + name + l_bool_true()
}

/// Whether a feature name mentions the vendor-control marker.
pub open spec fn spec_has_vendor_marker(name: Seq<u8>) -> bool {
    spec_find_match(name, 0, kw_vendor_controls_marker()) < name.len()
}

/// The emitted feature constants of the header from `pos` on, paired with
/// whether any declared feature mentions the vendor-control marker.
pub open spec fn spec_features_from(s: Seq<u8>, pos: int) -> (Seq<u8>, bool)
    decreases s.len() - pos + 1,
{
    if pos < 0 || pos >= s.len() {
        (Seq::empty(), false)
    } else {
        let k = spec_find(s, pos, 10u8);
        let rest = spec_features_from(s, k + 1);
        match spec_feature_name(s.subrange(pos, k)) {
            Some(name) => (
                spec_feature_line(name) + rest.0,
                spec_has_vendor_marker(name) || rest.1,
            ),
            None => rest,
        }
    }
}

/// Executable form of `spec_feature_name`.
fn feature_name(line: &[u8]) -> (r: Option<(usize, usize)>)
    ensures
        match r {
            Some(p) => p.0 <= p.1 <= line@.len() && spec_feature_name(line@) == Some(
                line@.subrange(p.0 as int, p.1 as int),
            ),
            None => spec_feature_name(line@) is None,
        },
{
    let (a, b) = trim_ws_range(line);
    let t = vstd::slice::slice_subrange(line, a, b);
    let pre = kw_has_define_v();
    if !match_at(t, 0, pre.as_slice()) {
        return None;
    }
    proof {
        assert(kw_has_define().len() == 22);
    }
    let q = skip_ws(t, 22);
    let e = token_end(t, q);
    if e <= q {
        return None;
    }
    proof {
        assert(t@.subrange(q as int, e as int) =~= line@.subrange(a + q, a + e));
    }
    Some((a + q, a + e))
}

/// Scrape the installed library's control-id header for feature-presence
/// macros: one boolean constant per declared feature, in line order, and
/// a flag telling whether any feature mentions the vendor-control marker.
pub fn generate_vendor_features(header: &[u8]) -> (r: (Vec<u8>, bool))
    ensures
        r.0@ == spec_features_from(header@, 0).0,
        r.1 == spec_features_from(header@, 0).1,
{
    let n = header.len();
    let mut out: Vec<u8> = Vec::new();
    let mut vendor = false;
    let mut pos: usize = 0;
    let mut more = true;
    let marker = kw_vendor_controls_marker_v();
    while more
        invariant
            pos <= n,
            n == header@.len(),
            marker@ == kw_vendor_controls_marker(),
            more ==> spec_features_from(header@, 0).0 == out@ + spec_features_from(
                header@,
                pos as int,
            ).0,
            more ==> spec_features_from(header@, 0).1 == (vendor || spec_features_from(
                header@,
                pos as int,
            ).1),
            !more ==> spec_features_from(header@, 0).0 == out@,
            !more ==> spec_features_from(header@, 0).1 == vendor,
        decreases n - pos, inst_rank(more),
    {
        if pos >= n {
            proof {
                assert(out@ + Seq::<u8>::empty() =~= out@);
            }
            more = false;
        } else {
            let k = find_byte(header, pos, 10u8);
            let line = vstd::slice::slice_subrange(header, pos, k);
            let ghost pre = out@;
            match feature_name(line) {
                Some((s0, s1)) => {
                    let name = vstd::slice::slice_subrange(line, s0, s1);
                    let h = l_pub_const_has_v();
                    push_bytes(&mut out, h.as_slice());
                    push_bytes(&mut out, name);
                    let tl = l_bool_true_v();
                    push_bytes(&mut out, tl.as_slice());
                    if find_match(name, 0, marker.as_slice()) < name.len() {
                        vendor = true;
                    }
                    proof {
                        assert(out@ =~= pre + spec_feature_line(name@));
                    }
                },
                None => {},
            }
            proof {
                match spec_feature_name(header@.subrange(pos as int, k as int)) {
                    Some(nm) => {
                        assert(out@ + spec_features_from(header@, k + 1).0 =~= pre
                            + spec_features_from(header@, pos as int).0);
                    },
                    None => {},
                }
            }
            if k < n {
                pos = k + 1;
            } else {
                proof {
                    assert(spec_features_from(header@, k + 1).0 =~= Seq::<u8>::empty());
                    assert(out@ + Seq::<u8>::empty() =~= out@);
                }
                more = false;
            }
        }
    }
    (out, vendor)
}

spec fn inst_rank(more: bool) -> int {
    if more {
        1
    } else {
        0
    }
}


/// The pixel-format constant a header line declares: the declaration
/// keyword, a name up to the opening parenthesis, the four packed
/// character arguments with an optional big-endian marker, and the
/// two-part modifier.
pub open spec fn spec_format_line(line: Seq<u8>) -> Option<(Seq<u8>, u32, u64)> {
    let t = spec_trim_pred(line, |b: u8| is_space(b));
    if !spec_match_at(t, 0, kw_constexpr_pf()) {
        None
    } else {
        let par = spec_find(t, kw_constexpr_pf().len() as int, 40u8);
        if par >= t.len() {
            None
        } else {
            let name = t.subrange(kw_constexpr_pf().len() as int, par);
            let m = spec_find_match(t, par + 1, kw_mod_call());
            if m >= t.len() {
                None
            } else {
                let fp = spec_strip_suffix_all(t.subrange(par + 1, m), l_comma_space_lit());
                if fp.len() < 9 {
                    None
                } else {
                    let be = spec_find_match(fp, 0, kw_be_marker()) < fp.len();
                    let inner = spec_trim_pred(
                        spec_strip_trailing(
                            spec_strip_prefix_rep(fp.skip(9), kw_fourcc_call()),
                            41u8,
                        ),
                        |b: u8| is_space(b),
                    );
                    let chs = spec_arg_chars(inner, 0);
                    if chs.len() != 4 {
                        None
                    } else {
                        let code = spec_pack_fourcc(chs[0], chs[1], chs[2], chs[3], be);
                        let close = spec_find(t, m + 6, 41u8);
                        let mi = spec_strip_leading(
                            spec_trim_pred(t.subrange(m + 6, close), |b: u8| is_space(b)),
                            40u8,
                        );
                        let c1 = spec_find(mi, 0, 44u8);
                        let vendor = spec_dec_u64_of(
                            spec_trim_pred(mi.subrange(0, c1), |b: u8| is_space(b)),
                        );
                        let code2 = if c1 < mi.len() {
                            let c2 = spec_find(mi, c1 + 1, 44u8);
                            spec_dec_u64_of(
                                spec_trim_pred(mi.subrange(c1 + 1, c2), |b: u8| is_space(b)),
                            )
                        } else {
                            0u64
                        };
                        Some((name, code, spec_mod_combine(vendor, code2)))
                    }
                }
            }
        }
    }
}

/// Executable form of `spec_format_line`.
#[verifier::rlimit(100)]
fn format_line(line: &[u8]) -> (r: Option<(Vec<u8>, u32, u64)>)
    ensures
        match r {
            Some(p) => spec_format_line(line@) == Some((p.0@, p.1, p.2)),
            None => spec_format_line(line@) is None,
        },
{
    let (a, b) = trim_ws_range(line);
    let t = vstd::slice::slice_subrange(line, a, b);
    let kw = kw_constexpr_pf_v();
    if !match_at(t, 0, kw.as_slice()) {
        return None;
    }
    proof {
        assert(kw_constexpr_pf().len() == 22);
    }
    let par = find_byte(t, 22, 40u8);
    if par >= t.len() {
        return None;
    }
    let name = vstd::slice::slice_subrange(t, 22, par);
    let mc = kw_mod_call_v();
    let m = find_match(t, par + 1, mc.as_slice());
    if m >= t.len() {
        return None;
    }
    let seg = vstd::slice::slice_subrange(t, par + 1, m);
    let cs = l_comma_space_lit_v();
    let fe = strip_suffix_all_end(seg, cs.as_slice());
    let fp = vstd::slice::slice_subrange(seg, 0, fe);
    if fp.len() < 9 {
        return None;
    }
    let bm = kw_be_marker_v();
    let be = find_match(fp, 0, bm.as_slice()) < fp.len();
    let after9 = vstd::slice::slice_subrange(fp, 9, fp.len());
    proof {
        assert(after9@ =~= fp@.skip(9));
    }
    let fc = kw_fourcc_call_v();
    let ps = strip_prefix_rep_start(after9, fc.as_slice());
    let seg2 = vstd::slice::slice_subrange(after9, ps, after9.len());
    let te = strip_trailing_end(seg2, 41u8);
    let seg3 = vstd::slice::slice_subrange(seg2, 0, te);
    let (ia, ib) = trim_ws_range(seg3);
    let inner = vstd::slice::slice_subrange(seg3, ia, ib);
    let chs = arg_chars(inner);
    if chs.len() != 4 {
        return None;
    }
    let code = pack_fourcc(chs[0], chs[1], chs[2], chs[3], be);
    proof {
        assert(m + 6 == m + kw_mod_call().len());
        assert(m + 6 <= t@.len());
    }
    let close = find_byte(t, m + 6, 41u8);
    let seg4 = vstd::slice::slice_subrange(t, m + 6, close);
    let (ma, mb) = trim_ws_range(seg4);
    let seg5 = vstd::slice::slice_subrange(seg4, ma, mb);
    let ls = strip_leading_start(seg5, 40u8);
    let mi = vstd::slice::slice_subrange(seg5, ls, seg5.len());
    let c1 = find_byte(mi, 0, 44u8);
    let first = vstd::slice::slice_subrange(mi, 0, c1);
    let (fa, fb) = trim_ws_range(first);
    let vendor = parse_dec_u64_or_zero(vstd::slice::slice_subrange(first, fa, fb));
    let code2: u64 = if c1 < mi.len() {
        let c2 = find_byte(mi, c1 + 1, 44u8);
        let second = vstd::slice::slice_subrange(mi, c1 + 1, c2);
        let (ga, gb) = trim_ws_range(second);
        parse_dec_u64_or_zero(vstd::slice::slice_subrange(second, ga, gb))
    } else {
        0
    };
    let modifier = mod_combine(vendor, code2);
    Some((crate::text::bytes_to_vec(name), code, modifier))
}

/// One emitted pixel-format constant.
pub open spec fn spec_format_const_render(name: Seq<u8>, code: u32, modifier: u64) -> Seq<u8> {
    l_pub_const() + name + l_pf_new() + spec_hex_render(code as int, 8) + l_comma_0x()
        + spec_hex_render(modifier as int, 16) + l_close_line()
}

/// The emitted constants of the header from `pos` on, in line order.
pub open spec fn spec_format_consts_from(s: Seq<u8>, pos: int) -> Seq<u8>
    decreases s.len() - pos + 1,
{
    if pos < 0 || pos >= s.len() {
        Seq::empty()
    } else {
        let k = spec_find(s, pos, 10u8);
        let head = match spec_format_line(s.subrange(pos, k)) {
            Some(e) => spec_format_const_render(e.0, e.1, e.2),
            None => Seq::empty(),
        };
        head + spec_format_consts_from(s, k + 1)
    }
}

/// The complete generated pixel-format constant file.
pub open spec fn spec_formats_file(s: Seq<u8>) -> Seq<u8> {
    l_formats_header() + spec_format_consts_from(s, 0)
}

/// Scrape the installed library's format header for pixel-format
/// declarations and render one constant per declaration, in line order.
#[verifier::rlimit(100)]
pub fn generate_formats_file(header: &[u8]) -> (r: Vec<u8>)
    ensures
        r@ == spec_formats_file(header@),
{
    let n = header.len();
    let mut out = l_formats_header_v();
    let mut pos: usize = 0;
    let mut more = true;
    proof {
        assert(out@ + spec_format_consts_from(header@, 0) =~= spec_formats_file(header@));
    }
    while more
        invariant
            pos <= n,
            n == header@.len(),
            more ==> spec_formats_file(header@) == out@ + spec_format_consts_from(
                header@,
                pos as int,
            ),
            !more ==> spec_formats_file(header@) == out@,
        decreases n - pos, inst_rank(more),
    {
        if pos >= n {
            proof {
                assert(out@ + Seq::<u8>::empty() =~= out@);
            }
            more = false;
        } else {
            let k = find_byte(header, pos, 10u8);
            let line = vstd::slice::slice_subrange(header, pos, k);
            let ghost pre = out@;
            match format_line(line) {
                Some((name, code, modifier)) => {
                    let h = l_pub_const_v();
                    push_bytes(&mut out, h.as_slice());
                    push_bytes(&mut out, name.as_slice());
                    let h = l_pf_new_v();
                    push_bytes(&mut out, h.as_slice());
                    let hx = render_hex_u64(code as u64, 8);
                    push_bytes(&mut out, hx.as_slice());
                    let h = l_comma_0x_v();
                    push_bytes(&mut out, h.as_slice());
                    let hx = render_hex_u64(modifier, 16);
                    push_bytes(&mut out, hx.as_slice());
                    let h = l_close_line_v();
                    push_bytes(&mut out, h.as_slice());
                    proof {
                        assert(out@ =~= pre + spec_format_const_render(name@, code, modifier));
                    }
                },
                None => {},
            }
            proof {
                assert(out@ + spec_format_consts_from(header@, k + 1) =~= pre
                    + spec_format_consts_from(header@, pos as int));
            }
            if k < n {
                pos = k + 1;
            } else {
                proof {
                    assert(spec_format_consts_from(header@, k + 1) =~= Seq::<u8>::empty());
                    assert(out@ + Seq::<u8>::empty() =~= out@);
                }
                more = false;
            }
        }
    }
    out
}

} // verus!
