//! Constant table builder: scans system header text for the `#define`
//! families that pack four-character pixel-format codes and layout
//! modifiers, and builds symbolic-name lookup tables from them.
//!
//! Scraping semi-structured text with patterns is fragile, so the scanner
//! works line by line with a small token walk instead, while preserving
//! the exact packing and shift semantics.

use vstd::prelude::*;

use crate::text::{
    bytes_to_vec, find_byte, is_hex_digit, is_quote, is_space, ident_end, match_at,
    parse_hex_u64, skip_ws, spec_find, spec_hex_of, spec_ident_end, spec_match_at, spec_skip_ws,
    spec_trim_pred, trim_quotes_range, trim_ws_range,
};

verus! {

broadcast use crate::text::lemma_find_ge;

/// `#define`
pub open spec fn kw_define() -> Seq<u8> {
    seq![35u8, 100u8, 101u8, 102u8, 105u8, 110u8, 101u8]
}

fn kw_define_bytes() -> (r: Vec<u8>)
    ensures
        r@ == kw_define(),
{
    let r: Vec<u8> = vec![35u8, 100u8, 101u8, 102u8, 105u8, 110u8, 101u8];
    proof {
        assert(r@ =~= kw_define());
    }
    r
}

/// `DRM_FORMAT_`
pub open spec fn drm_format_prefix() -> Seq<u8> {
    seq![68u8, 82u8, 77u8, 95u8, 70u8, 79u8, 82u8, 77u8, 65u8, 84u8, 95u8]
}

pub fn drm_format_prefix_bytes() -> (r: Vec<u8>)
    ensures
        r@ == drm_format_prefix(),
{
    let r: Vec<u8> = vec![68u8, 82u8, 77u8, 95u8, 70u8, 79u8, 82u8, 77u8, 65u8, 84u8, 95u8];
    proof {
        assert(r@ =~= drm_format_prefix());
    }
    r
}

/// `fourcc_code`
pub open spec fn fourcc_code_kw() -> Seq<u8> {
    seq![102u8, 111u8, 117u8, 114u8, 99u8, 99u8, 95u8, 99u8, 111u8, 100u8, 101u8]
}

fn fourcc_code_kw_bytes() -> (r: Vec<u8>)
    ensures
        r@ == fourcc_code_kw(),
{
    let r: Vec<u8> = vec![102u8, 111u8, 117u8, 114u8, 99u8, 99u8, 95u8, 99u8, 111u8, 100u8, 101u8];
    proof {
        assert(r@ =~= fourcc_code_kw());
    }
    r
}

/// `_be(`
pub open spec fn be_paren() -> Seq<u8> {
    seq![95u8, 98u8, 101u8, 40u8]
}

fn be_paren_bytes() -> (r: Vec<u8>)
    ensures
        r@ == be_paren(),
{
    let r: Vec<u8> = vec![95u8, 98u8, 101u8, 40u8];
    proof {
        assert(r@ =~= be_paren());
    }
    r
}

/// `V4L2_PIX_FMT_`
pub open spec fn v4l2_prefix() -> Seq<u8> {
    seq![86u8, 52u8, 76u8, 50u8, 95u8, 80u8, 73u8, 88u8, 95u8, 70u8, 77u8, 84u8, 95u8]
}

pub fn v4l2_prefix_bytes() -> (r: Vec<u8>)
    ensures
        r@ == v4l2_prefix(),
{
    let r: Vec<u8> = vec![
        86u8,
        52u8,
        76u8,
        50u8,
        95u8,
        80u8,
        73u8,
        88u8,
        95u8,
        70u8,
        77u8,
        84u8,
        95u8,
    ];
    proof {
        assert(r@ =~= v4l2_prefix());
    }
    r
}

/// `v4l2_fourcc`
pub open spec fn v4l2_fourcc_kw() -> Seq<u8> {
    seq![118u8, 52u8, 108u8, 50u8, 95u8, 102u8, 111u8, 117u8, 114u8, 99u8, 99u8]
}

fn v4l2_fourcc_kw_bytes() -> (r: Vec<u8>)
    ensures
        r@ == v4l2_fourcc_kw(),
{
    let r: Vec<u8> = vec![118u8, 52u8, 108u8, 50u8, 95u8, 102u8, 111u8, 117u8, 114u8, 99u8, 99u8];
    proof {
        assert(r@ =~= v4l2_fourcc_kw());
    }
    r
}

/// The four-character packing rule: byte values in little-endian order,
/// with the top bit flagging big-endian variants.
pub open spec fn spec_pack_fourcc(c0: u8, c1: u8, c2: u8, c3: u8, be: bool) -> u32 {
    let v = (c0 as u32) | ((c1 as u32) << 8) | ((c2 as u32) << 16) | ((c3 as u32) << 24);
    if be {
        v | 0x8000_0000
    } else {
        v
    }
}

/// Executable packing rule.
pub fn pack_fourcc(c0: u8, c1: u8, c2: u8, c3: u8, be: bool) -> (r: u32)
    ensures
        r == spec_pack_fourcc(c0, c1, c2, c3, be),
{
    let v = (c0 as u32) | ((c1 as u32) << 8) | ((c2 as u32) << 16) | ((c3 as u32) << 24);
    if be {
        v | 0x8000_0000
    } else {
        v
    }
}

/// The character a macro-argument segment denotes: whitespace trimmed, then
/// quote characters trimmed, then the first remaining byte.
pub open spec fn spec_seg_char(seg: Seq<u8>) -> Option<u8> {
    let t = spec_trim_pred(spec_trim_pred(seg, |b: u8| is_space(b)), |b: u8| is_quote(b));
    if t.len() == 0 {
        None
    } else {
        Some(t[0])
    }
}

/// Characters denoted by a comma-separated argument list from position
/// `pos` on; segments that denote no character are dropped.
pub open spec fn spec_arg_chars(args: Seq<u8>, pos: int) -> Seq<u8>
    decreases args.len() - pos + 1,
{
    if pos < 0 || pos > args.len() {
        Seq::empty()
    } else {
        let c = spec_find(args, pos, 44u8);
        let seg = args.subrange(pos, c);
        let chs = match spec_seg_char(seg) {
            Some(ch) => seq![ch],
            None => Seq::empty(),
        };
        if c < args.len() {
            chs + spec_arg_chars(args, c + 1)
        } else {
            chs
        }
    }
}

/// Executable form of `spec_seg_char`.
fn seg_char(seg: &[u8]) -> (r: Option<u8>)
    ensures
        r == spec_seg_char(seg@),
{
    let (a1, b1) = trim_ws_range(seg);
    let t1 = vstd::slice::slice_subrange(seg, a1, b1);
    let (a2, b2) = trim_quotes_range(t1);
    if b2 > a2 {
        proof {
            assert(t1@.subrange(a2 as int, b2 as int)[0] == t1@[a2 as int]);
        }
        Some(t1[a2])
    } else {
        proof {
            assert(t1@.subrange(a2 as int, b2 as int).len() == 0);
        }
        None
    }
}

/// Executable form of `spec_arg_chars`.
pub fn arg_chars(args: &[u8]) -> (r: Vec<u8>)
    ensures
        r@ == spec_arg_chars(args@, 0),
{
    let n = args.len();
    let mut out: Vec<u8> = Vec::new();
    let mut pos: usize = 0;
    let mut more = true;
    while more
        invariant
            pos <= n,
            n == args@.len(),
            more ==> spec_arg_chars(args@, 0) == out@ + spec_arg_chars(args@, pos as int),
            !more ==> spec_arg_chars(args@, 0) == out@,
        decreases n - pos, more_rank(more),
    {
        let c = find_byte(args, pos, 44u8);
        let seg = vstd::slice::slice_subrange(args, pos, c);
        let ghost pre = out@;
        match seg_char(seg) {
            Some(ch) => {
                out.push(ch);
                proof {
                    assert(out@ =~= pre + seq![ch]);
                }
            },
            None => {},
        }
        proof {
            if c < n {
                assert(out@ + spec_arg_chars(args@, c + 1) =~= pre + spec_arg_chars(
                    args@,
                    pos as int,
                ));
            } else {
                assert(out@ =~= pre + spec_arg_chars(args@, pos as int));
            }
        }
        if c < n {
            pos = c + 1;
        } else {
            more = false;
        }
    }
    out
}

spec fn more_rank(more: bool) -> int {
    if more {
        1
    } else {
        0
    }
}

/// One `#define <name> <macro>(args)` line, where `name` extends `prefix`
/// and `macro` is the plain packing macro, with an optional big-endian
/// variant. Yields the name and the packed code.
pub open spec fn spec_parse_packed_line(line: Seq<u8>, prefix: Seq<u8>, mac: Seq<u8>) -> Option<
    (Seq<u8>, u32),
> {
    let i0 = spec_skip_ws(line, 0);
    if !spec_match_at(line, i0, kw_define()) {
        None
    } else {
        let j = i0 + kw_define().len();
        if !(j < line.len() && is_space(line[j])) {
            None
        } else {
            let i1 = spec_skip_ws(line, j);
            let ne = spec_ident_end(line, i1);
            let name = line.subrange(i1, ne);
            if !(name.len() > prefix.len() && name.subrange(0, prefix.len() as int) == prefix) {
                None
            } else {
                let i2 = spec_skip_ws(line, ne);
                if i2 <= ne || !spec_match_at(line, i2, mac) {
                    None
                } else {
                    let k = i2 + mac.len();
                    let be = spec_match_at(line, k, be_paren());
                    let k2 = if be {
                        k + 4
                    } else {
                        k + 1
                    };
                    if !be && !(k < line.len() && line[k] == 40u8) {
                        None
                    } else {
                        let close = spec_find(line, k2, 41u8);
                        if close >= line.len() || close <= k2 {
                            None
                        } else {
                            let chs = spec_arg_chars(line.subrange(k2, close), 0);
                            if chs.len() != 4 {
                                None
                            } else {
                                Some((name, spec_pack_fourcc(chs[0], chs[1], chs[2], chs[3], be)))
                            }
                        }
                    }
                }
            }
        }
    }
}

/// Executable form of `spec_parse_packed_line`.
fn parse_packed_line(line: &[u8], prefix: &[u8], mac: &[u8]) -> (r: Option<(Vec<u8>, u32)>)
    ensures
        match r {
            Some(p) => spec_parse_packed_line(line@, prefix@, mac@) == Some((p.0@, p.1)),
            None => spec_parse_packed_line(line@, prefix@, mac@) is None,
        },
{
    let n = line.len();
    let i0 = skip_ws(line, 0);
    let define_kw = kw_define_bytes();
    if !match_at(line, i0, define_kw.as_slice()) {
        return None;
    }
    let j = i0 + 7;
    proof {
        assert(j == i0 + kw_define().len());
    }
    if !(j < n && crate::text::byte_is_space(line[j])) {
        return None;
    }
    let i1 = skip_ws(line, j);
    let ne = ident_end(line, i1);
    let name = vstd::slice::slice_subrange(line, i1, ne);
    if !(name.len() > prefix.len() && match_at(name, 0, prefix)) {
        proof {
            if name@.len() > prefix@.len() {
                assert(name@.subrange(0, prefix@.len() as int) == line@.subrange(
                    i1 as int,
                    ne as int,
                ).subrange(0, prefix@.len() as int));
            }
        }
        return None;
    }
    proof {
        assert(name@.subrange(0, prefix@.len() as int) == prefix@);
    }
    let i2 = skip_ws(line, ne);
    if i2 <= ne || !match_at(line, i2, mac) {
        return None;
    }
    let k = i2 + mac.len();
    proof {
        assert(k <= n);
    }
    let be_lit = be_paren_bytes();
    let be = match_at(line, k, be_lit.as_slice());
    let k2: usize;
    if be {
        proof {
            assert(k + be_paren().len() <= n);
        }
        k2 = k + 4;
    } else {
        if !(k < n && line[k] == 40u8) {
            return None;
        }
        k2 = k + 1;
    }
    let close = find_byte(line, k2, 41u8);
    if close >= n || close <= k2 {
        return None;
    }
    let args = vstd::slice::slice_subrange(line, k2, close);
    let chs = arg_chars(args);
    if chs.len() != 4 {
        return None;
    }
    let code = pack_fourcc(chs[0], chs[1], chs[2], chs[3], be);
    Some((bytes_to_vec(name), code))
}

/// View of an owned name/code table as a mathematical sequence of pairs.
pub open spec fn table32_view(v: Seq<(Vec<u8>, u32)>) -> Seq<(Seq<u8>, u32)> {
    v.map_values(|p: (Vec<u8>, u32)| (p.0@, p.1))
}

/// All name/code pairs harvested from the lines of `s` starting at `pos`.
pub open spec fn spec_packed_table(s: Seq<u8>, pos: int, prefix: Seq<u8>, mac: Seq<u8>) -> Seq<
    (Seq<u8>, u32),
>
    decreases s.len() - pos + 1,
{
    if pos < 0 || pos >= s.len() {
        Seq::empty()
    } else {
        let k = spec_find(s, pos, 10u8);
        let head = match spec_parse_packed_line(s.subrange(pos, k), prefix, mac) {
            Some(e) => seq![e],
            None => Seq::empty(),
        };
        head + spec_packed_table(s, k + 1, prefix, mac)
    }
}

/// Scan `header` for packing defines whose names extend `prefix`, built
/// with macro `mac`; the table lists one entry per matching line, in line
/// order.
pub fn build_packed_table(header: &[u8], prefix: &[u8], mac: &[u8]) -> (r: Vec<(Vec<u8>, u32)>)
    ensures
        table32_view(r@) == spec_packed_table(header@, 0, prefix@, mac@),
{
    let n = header.len();
    let mut out: Vec<(Vec<u8>, u32)> = Vec::new();
    let mut pos: usize = 0;
    let mut more = true;
    while more
        invariant
            pos <= n,
            n == header@.len(),
            more ==> spec_packed_table(header@, 0, prefix@, mac@) == table32_view(out@)
                + spec_packed_table(header@, pos as int, prefix@, mac@),
            !more ==> spec_packed_table(header@, 0, prefix@, mac@) == table32_view(out@),
        decreases n - pos, more_rank(more),
    {
        if pos >= n {
            proof {
                assert(spec_packed_table(header@, pos as int, prefix@, mac@) =~= Seq::<
                    (Seq<u8>, u32),
                >::empty());
                assert(table32_view(out@) + Seq::<(Seq<u8>, u32)>::empty() =~= table32_view(
                    out@,
                ));
            }
            more = false;
        } else {
            let k = find_byte(header, pos, 10u8);
            let line = vstd::slice::slice_subrange(header, pos, k);
            let ghost pre = table32_view(out@);
            match parse_packed_line(line, prefix, mac) {
                Some(p) => {
                    let ghost e = (p.0@, p.1);
                    out.push(p);
                    proof {
                        assert(table32_view(out@) =~= pre + seq![e]);
                    }
                },
                None => {},
            }
            proof {
                assert(table32_view(out@) + spec_packed_table(header@, k + 1, prefix@, mac@)
                    =~= pre + spec_packed_table(header@, pos as int, prefix@, mac@));
            }
            if k < n {
                pos = k + 1;
            } else {
                proof {
                    assert(spec_packed_table(header@, k + 1, prefix@, mac@) =~= Seq::<
                        (Seq<u8>, u32),
                    >::empty());
                    assert(table32_view(out@) + Seq::<(Seq<u8>, u32)>::empty() =~= table32_view(
                        out@,
                    ));
                }
                more = false;
            }
        }
    }
    out
}

/// The fourcc table: `DRM_FORMAT_*` names built with `fourcc_code`.
pub fn build_drm_fourcc_map(header: &[u8]) -> (r: Vec<(Vec<u8>, u32)>)
    ensures
        table32_view(r@) == spec_packed_table(header@, 0, drm_format_prefix(), fourcc_code_kw()),
{
    let prefix = drm_format_prefix_bytes();
    let mac = fourcc_code_kw_bytes();
    build_packed_table(header, prefix.as_slice(), mac.as_slice())
}

/// The legacy alias table: `V4L2_PIX_FMT_*` names built with `v4l2_fourcc`.
pub fn build_v4l2_fourcc_map(header: &[u8]) -> (r: Vec<(Vec<u8>, u32)>)
    ensures
        table32_view(r@) == spec_packed_table(header@, 0, v4l2_prefix(), v4l2_fourcc_kw()),
{
    let prefix = v4l2_prefix_bytes();
    let mac = v4l2_fourcc_kw_bytes();
    build_packed_table(header, prefix.as_slice(), mac.as_slice())
}

/// Table lookup; when a name was defined more than once, the latest
/// definition wins, as it does in a map filled in line order.
pub open spec fn spec_assoc_u32(t: Seq<(Seq<u8>, u32)>, key: Seq<u8>) -> Option<u32>
    decreases t.len(),
{
    if t.len() == 0 {
        None
    } else if t.last().0 == key {
        Some(t.last().1)
    } else {
        spec_assoc_u32(t.drop_last(), key)
    }
}

/// Executable lookup in a name/code table.
pub fn lookup_u32(table: &Vec<(Vec<u8>, u32)>, key: &[u8]) -> (r: Option<u32>)
    ensures
        r == spec_assoc_u32(table32_view(table@), key@),
{
    let mut i = table.len();
    proof {
        assert(table@.take(i as int) == table@);
    }
    while i > 0
        invariant
            i <= table@.len(),
            spec_assoc_u32(table32_view(table@), key@) == spec_assoc_u32(
                table32_view(table@.take(i as int)),
                key@,
            ),
        decreases i,
    {
        proof {
            assert(table32_view(table@.take(i as int)).last() == (table@[i - 1].0@, table@[i
                - 1].1));
            assert(table32_view(table@.take(i as int)).drop_last() =~= table32_view(
                table@.take(i - 1),
            ));
        }
        if crate::text::bytes_eq(table[i - 1].0.as_slice(), key) {
            return Some(table[i - 1].1);
        }
        i = i - 1;
    }
    proof {
        assert(table32_view(table@.take(0)) =~= Seq::<(Seq<u8>, u32)>::empty());
    }
    None
}


/// `DRM_FORMAT_MOD_VENDOR_`
pub open spec fn vendor_prefix() -> Seq<u8> {
    seq![
        68u8, 82u8, 77u8, 95u8, 70u8, 79u8, 82u8, 77u8, 65u8, 84u8, 95u8, 77u8, 79u8, 68u8, 95u8,
        86u8, 69u8, 78u8, 68u8, 79u8, 82u8, 95u8,
    ]
}

fn vendor_prefix_bytes() -> (r: Vec<u8>)
    ensures
        r@ == vendor_prefix(),
{
    let r: Vec<u8> = vec![
        68u8, 82u8, 77u8, 95u8, 70u8, 79u8, 82u8, 77u8, 65u8, 84u8, 95u8, 77u8, 79u8, 68u8, 95u8,
        86u8, 69u8, 78u8, 68u8, 79u8, 82u8, 95u8,
    ];
    proof {
        assert(r@ =~= vendor_prefix());
    }
    r
}

/// `DRM_FORMAT_MOD_`
pub open spec fn mod_prefix() -> Seq<u8> {
    seq![68u8, 82u8, 77u8, 95u8, 70u8, 79u8, 82u8, 77u8, 65u8, 84u8, 95u8, 77u8, 79u8, 68u8, 95u8]
}

fn mod_prefix_bytes() -> (r: Vec<u8>)
    ensures
        r@ == mod_prefix(),
{
    let r: Vec<u8> = vec![
        68u8, 82u8, 77u8, 95u8, 70u8, 79u8, 82u8, 77u8, 65u8, 84u8, 95u8, 77u8, 79u8, 68u8, 95u8,
    ];
    proof {
        assert(r@ =~= mod_prefix());
    }
    r
}

/// `fourcc_mod_code`
pub open spec fn mod_code_kw() -> Seq<u8> {
    seq![
        102u8, 111u8, 117u8, 114u8, 99u8, 99u8, 95u8, 109u8, 111u8, 100u8, 95u8, 99u8, 111u8,
        100u8, 101u8,
    ]
}

fn mod_code_kw_bytes() -> (r: Vec<u8>)
    ensures
        r@ == mod_code_kw(),
{
    let r: Vec<u8> = vec![
        102u8, 111u8, 117u8, 114u8, 99u8, 99u8, 95u8, 109u8, 111u8, 100u8, 95u8, 99u8, 111u8,
        100u8, 101u8,
    ];
    proof {
        assert(r@ =~= mod_code_kw());
    }
    r
}

/// A byte a numeric-value token may hold: a hex digit or an `x`/`X`.
pub open spec fn is_hexx_byte(b: u8) -> bool {
    is_hex_digit(b) || b == 120 || b == 88
}

fn byte_is_hexx(b: u8) -> (r: bool)
    ensures
        r == is_hexx_byte(b),
{
    (48 <= b && b <= 57) || (97 <= b && b <= 102) || (65 <= b && b <= 70) || b == 120 || b == 88
}

/// First index at or after `i` that is not a value-token byte.
pub open spec fn spec_hexx_end(s: Seq<u8>, i: int) -> int
    decreases s.len() - i,
{
    if i < 0 {
        spec_hexx_end(s, 0)
    } else if i >= s.len() {
        s.len() as int
    } else if is_hexx_byte(s[i]) {
        spec_hexx_end(s, i + 1)
    } else {
        i
    }
}

fn hexx_end(s: &[u8], from: usize) -> (r: usize)
    requires
        from <= s@.len(),
    ensures
        r == spec_hexx_end(s@, from as int),
        from <= r <= s@.len(),
{
    let n = s.len();
    let mut i = from;
    while i < n && byte_is_hexx(s[i])
        invariant
            from <= i <= n,
            n == s@.len(),
            spec_hexx_end(s@, from as int) == spec_hexx_end(s@, i as int),
        decreases n - i,
    {
        i = i + 1;
    }
    i
}

/// Repeatedly strip a leading `0x` marker, as a parser that trims the
/// marker before reading hex digits does.
pub open spec fn spec_strip_0x(s: Seq<u8>) -> Seq<u8>
    decreases s.len(),
{
    if s.len() >= 2 && s[0] == 48u8 && s[1] == 120u8 {
        spec_strip_0x(s.skip(2))
    } else {
        s
    }
}

/// Start index of `s` once every leading `0x` marker is stripped.
fn strip_0x_start(s: &[u8]) -> (r: usize)
    ensures
        r <= s@.len(),
        s@.subrange(r as int, s@.len() as int) == spec_strip_0x(s@),
{
    let n = s.len();
    let mut start: usize = 0;
    proof {
        assert(s@.subrange(0, n as int) =~= s@);
    }
    while n - start >= 2 && s[start] == 48u8 && s[start + 1] == 120u8
        invariant
            start <= n,
            n == s@.len(),
            spec_strip_0x(s@) == spec_strip_0x(s@.subrange(start as int, n as int)),
        decreases n - start,
    {
        proof {
            assert(s@.subrange(start as int, n as int).skip(2) =~= s@.subrange(
                start + 2,
                n as int,
            ));
        }
        start = start + 2;
    }
    proof {
        assert(spec_strip_0x(s@.subrange(start as int, n as int)) == s@.subrange(
            start as int,
            n as int,
        ));
    }
    start
}

/// The numeric value of a `#define` value token: hex digits after any `0x`
/// markers; anything malformed or overflowing counts as zero.
pub open spec fn spec_token_value(tok: Seq<u8>) -> u64 {
    spec_hex_of(spec_strip_0x(tok))
}

fn token_value(tok: &[u8]) -> (r: u64)
    ensures
        r == spec_token_value(tok@),
{
    let start = strip_0x_start(tok);
    let digits = vstd::slice::slice_subrange(tok, start, tok.len());
    parse_hex_u64(digits)
}

/// One `#define DRM_FORMAT_MOD_VENDOR_<V> <value>` line: the vendor key
/// (without the prefix) and its numeric id.
pub open spec fn spec_parse_vendor_line(line: Seq<u8>) -> Option<(Seq<u8>, u64)> {
    let i0 = spec_skip_ws(line, 0);
    if !spec_match_at(line, i0, kw_define()) {
        None
    } else {
        let j = i0 + kw_define().len();
        if !(j < line.len() && is_space(line[j])) {
            None
        } else {
            let i1 = spec_skip_ws(line, j);
            let ne = spec_ident_end(line, i1);
            let name = line.subrange(i1, ne);
            if !(name.len() > vendor_prefix().len() && name.subrange(
                0,
                vendor_prefix().len() as int,
            ) == vendor_prefix()) {
                None
            } else {
                let i2 = spec_skip_ws(line, ne);
                if i2 <= ne {
                    None
                } else {
                    let ve = spec_hexx_end(line, i2);
                    if ve <= i2 {
                        None
                    } else {
                        Some(
                            (
                                name.skip(vendor_prefix().len() as int),
                                spec_token_value(line.subrange(i2, ve)),
                            ),
                        )
                    }
                }
            }
        }
    }
}

/// Executable form of `spec_parse_vendor_line`.
fn parse_vendor_line(line: &[u8]) -> (r: Option<(Vec<u8>, u64)>)
    ensures
        match r {
            Some(p) => spec_parse_vendor_line(line@) == Some((p.0@, p.1)),
            None => spec_parse_vendor_line(line@) is None,
        },
{
    let n = line.len();
    let i0 = skip_ws(line, 0);
    let define_kw = kw_define_bytes();
    if !match_at(line, i0, define_kw.as_slice()) {
        return None;
    }
    let j = i0 + 7;
    if !(j < n && crate::text::byte_is_space(line[j])) {
        return None;
    }
    let i1 = skip_ws(line, j);
    let ne = ident_end(line, i1);
    let name = vstd::slice::slice_subrange(line, i1, ne);
    let prefix = vendor_prefix_bytes();
    if !(name.len() > prefix.len() && match_at(name, 0, prefix.as_slice())) {
        proof {
            if name@.len() > vendor_prefix().len() {
                assert(name@.subrange(0, vendor_prefix().len() as int) == line@.subrange(
                    i1 as int,
                    ne as int,
                ).subrange(0, vendor_prefix().len() as int));
            }
        }
        return None;
    }
    proof {
        assert(name@.subrange(0, vendor_prefix().len() as int) == vendor_prefix());
    }
    let i2 = skip_ws(line, ne);
    if i2 <= ne {
        return None;
    }
    let ve = hexx_end(line, i2);
    if ve <= i2 {
        return None;
    }
    let tok = vstd::slice::slice_subrange(line, i2, ve);
    let val = token_value(tok);
    let key = vstd::slice::slice_subrange(name, 22, name.len());
    proof {
        assert(key@ =~= line@.subrange(i1 as int, ne as int).skip(vendor_prefix().len() as int));
    }
    Some((bytes_to_vec(key), val))
}

/// One `#define DRM_FORMAT_MOD_<N> fourcc_mod_code(<V>, <value>)` line:
/// the full modifier name, the vendor key and the vendor-specific code.
pub open spec fn spec_parse_mod_line(line: Seq<u8>) -> Option<(Seq<u8>, Seq<u8>, u64)> {
    let i0 = spec_skip_ws(line, 0);
    if !spec_match_at(line, i0, kw_define()) {
        None
    } else {
        let j = i0 + kw_define().len();
        if !(j < line.len() && is_space(line[j])) {
            None
        } else {
            let i1 = spec_skip_ws(line, j);
            let ne = spec_ident_end(line, i1);
            let name = line.subrange(i1, ne);
            if !(name.len() > mod_prefix().len() && name.subrange(0, mod_prefix().len() as int)
                == mod_prefix()) {
                None
            } else {
                let i2 = spec_skip_ws(line, ne);
                if i2 <= ne || !spec_match_at(line, i2, mod_code_kw()) {
                    None
                } else {
                    let k = i2 + mod_code_kw().len();
                    if !(k < line.len() && line[k] == 40u8) {
                        None
                    } else {
                        let j1 = spec_skip_ws(line, k + 1);
                        let vend_end = spec_ident_end(line, j1);
                        if vend_end <= j1 {
                            None
                        } else {
                            let j2 = spec_skip_ws(line, vend_end);
                            if !(j2 < line.len() && line[j2] == 44u8) {
                                None
                            } else {
                                let j3 = spec_skip_ws(line, j2 + 1);
                                let te = spec_hexx_end(line, j3);
                                if te <= j3 {
                                    None
                                } else {
                                    let j4 = spec_skip_ws(line, te);
                                    if !(j4 < line.len() && line[j4] == 41u8) {
                                        None
                                    } else {
                                        Some(
                                            (
                                                name,
                                                line.subrange(j1, vend_end),
                                                spec_token_value(line.subrange(j3, te)),
                                            ),
                                        )
                                    }
                                }
                            }
                        }
                    }
                }
            }
        }
    }
}

/// Executable form of `spec_parse_mod_line`.
fn parse_mod_line(line: &[u8]) -> (r: Option<(Vec<u8>, Vec<u8>, u64)>)
    ensures
        match r {
            Some(p) => spec_parse_mod_line(line@) == Some((p.0@, p.1@, p.2)),
            None => spec_parse_mod_line(line@) is None,
        },
{
    let n = line.len();
    let i0 = skip_ws(line, 0);
    let define_kw = kw_define_bytes();
    if !match_at(line, i0, define_kw.as_slice()) {
        return None;
    }
    let j = i0 + 7;
    if !(j < n && crate::text::byte_is_space(line[j])) {
        return None;
    }
    let i1 = skip_ws(line, j);
    let ne = ident_end(line, i1);
    let name = vstd::slice::slice_subrange(line, i1, ne);
    let prefix = mod_prefix_bytes();
    if !(name.len() > prefix.len() && match_at(name, 0, prefix.as_slice())) {
        proof {
            if name@.len() > mod_prefix().len() {
                assert(name@.subrange(0, mod_prefix().len() as int) == line@.subrange(
                    i1 as int,
                    ne as int,
                ).subrange(0, mod_prefix().len() as int));
            }
        }
        return None;
    }
    proof {
        assert(name@.subrange(0, mod_prefix().len() as int) == mod_prefix());
    }
    let i2 = skip_ws(line, ne);
    let kw = mod_code_kw_bytes();
    if i2 <= ne || !match_at(line, i2, kw.as_slice()) {
        return None;
    }
    let k = i2 + 15;
    proof {
        assert(k == i2 + mod_code_kw().len());
        assert(k <= n);
    }
    if !(k < n && line[k] == 40u8) {
        return None;
    }
    let j1 = skip_ws(line, k + 1);
    let vend_end = ident_end(line, j1);
    if vend_end <= j1 {
        return None;
    }
    let j2 = skip_ws(line, vend_end);
    if !(j2 < n && line[j2] == 44u8) {
        return None;
    }
    let j3 = skip_ws(line, j2 + 1);
    let te = hexx_end(line, j3);
    if te <= j3 {
        return None;
    }
    let j4 = skip_ws(line, te);
    if !(j4 < n && line[j4] == 41u8) {
        return None;
    }
    let vendor = vstd::slice::slice_subrange(line, j1, vend_end);
    let tok = vstd::slice::slice_subrange(line, j3, te);
    let code = token_value(tok);
    Some((bytes_to_vec(name), bytes_to_vec(vendor), code))
}

/// View of an owned name/value table as a sequence of pairs.
pub open spec fn table64_view(v: Seq<(Vec<u8>, u64)>) -> Seq<(Seq<u8>, u64)> {
    v.map_values(|p: (Vec<u8>, u64)| (p.0@, p.1))
}

/// Vendor-id table harvested from the lines of `s` starting at `pos`.
pub open spec fn spec_vendor_table(s: Seq<u8>, pos: int) -> Seq<(Seq<u8>, u64)>
    decreases s.len() - pos + 1,
{
    if pos < 0 || pos >= s.len() {
        Seq::empty()
    } else {
        let k = spec_find(s, pos, 10u8);
        let head = match spec_parse_vendor_line(s.subrange(pos, k)) {
            Some(e) => seq![e],
            None => Seq::empty(),
        };
        head + spec_vendor_table(s, k + 1)
    }
}

/// Table lookup; the latest definition of a key wins.
pub open spec fn spec_assoc_u64(t: Seq<(Seq<u8>, u64)>, key: Seq<u8>) -> Option<u64>
    decreases t.len(),
{
    if t.len() == 0 {
        None
    } else if t.last().0 == key {
        Some(t.last().1)
    } else {
        spec_assoc_u64(t.drop_last(), key)
    }
}

/// Executable lookup in a name/value table.
pub fn lookup_u64(table: &Vec<(Vec<u8>, u64)>, key: &[u8]) -> (r: Option<u64>)
    ensures
        r == spec_assoc_u64(table64_view(table@), key@),
{
    let mut i = table.len();
    proof {
        assert(table@.take(i as int) == table@);
    }
    while i > 0
        invariant
            i <= table@.len(),
            spec_assoc_u64(table64_view(table@), key@) == spec_assoc_u64(
                table64_view(table@.take(i as int)),
                key@,
            ),
        decreases i,
    {
        proof {
            assert(table64_view(table@.take(i as int)).last() == (table@[i - 1].0@, table@[i
                - 1].1));
            assert(table64_view(table@.take(i as int)).drop_last() =~= table64_view(
                table@.take(i - 1),
            ));
        }
        if crate::text::bytes_eq(table[i - 1].0.as_slice(), key) {
            return Some(table[i - 1].1);
        }
        i = i - 1;
    }
    proof {
        assert(table64_view(table@.take(0)) =~= Seq::<(Seq<u8>, u64)>::empty());
    }
    None
}

/// The vendor id a modifier line resolves to: the vendor table entry, or
/// zero for an unknown vendor name.
pub open spec fn spec_vendor_value(s: Seq<u8>, vendor: Seq<u8>) -> u64 {
    match spec_assoc_u64(spec_vendor_table(s, 0), vendor) {
        Some(x) => x,
        None => 0,
    }
}

/// A complete modifier: the vendor id in the top eight bits, the
/// vendor-specific code in the low fifty-six.
pub open spec fn spec_mod_combine(vendor: u64, code: u64) -> u64 {
    (vendor << 56) | code
}

pub fn mod_combine(vendor: u64, code: u64) -> (r: u64)
    ensures
        r == spec_mod_combine(vendor, code),
{
    (vendor << 56) | code
}

/// Modifier table harvested from the lines of `s` starting at `pos`, with
/// vendor names resolved against the whole header's vendor table.
pub open spec fn spec_modifier_table(s: Seq<u8>, pos: int) -> Seq<(Seq<u8>, u64)>
    decreases s.len() - pos + 1,
{
    if pos < 0 || pos >= s.len() {
        Seq::empty()
    } else {
        let k = spec_find(s, pos, 10u8);
        let head = match spec_parse_mod_line(s.subrange(pos, k)) {
            Some(e) => seq![(e.0, spec_mod_combine(spec_vendor_value(s, e.1), e.2))],
            None => Seq::empty(),
        };
        head + spec_modifier_table(s, k + 1)
    }
}

/// Build the vendor-id table of `header`.
fn build_vendor_table(header: &[u8]) -> (r: Vec<(Vec<u8>, u64)>)
    ensures
        table64_view(r@) == spec_vendor_table(header@, 0),
{
    let n = header.len();
    let mut out: Vec<(Vec<u8>, u64)> = Vec::new();
    let mut pos: usize = 0;
    let mut more = true;
    while more
        invariant
            pos <= n,
            n == header@.len(),
            more ==> spec_vendor_table(header@, 0) == table64_view(out@) + spec_vendor_table(
                header@,
                pos as int,
            ),
            !more ==> spec_vendor_table(header@, 0) == table64_view(out@),
        decreases n - pos, more_rank(more),
    {
        if pos >= n {
            proof {
                assert(spec_vendor_table(header@, pos as int) =~= Seq::<(Seq<u8>, u64)>::empty());
                assert(table64_view(out@) + Seq::<(Seq<u8>, u64)>::empty() =~= table64_view(
                    out@,
                ));
            }
            more = false;
        } else {
            let k = find_byte(header, pos, 10u8);
            let line = vstd::slice::slice_subrange(header, pos, k);
            let ghost pre = table64_view(out@);
            match parse_vendor_line(line) {
                Some(p) => {
                    let ghost e = (p.0@, p.1);
                    out.push(p);
                    proof {
                        assert(table64_view(out@) =~= pre + seq![e]);
                    }
                },
                None => {},
            }
            proof {
                assert(table64_view(out@) + spec_vendor_table(header@, k + 1) =~= pre
                    + spec_vendor_table(header@, pos as int));
            }
            if k < n {
                pos = k + 1;
            } else {
                proof {
                    assert(spec_vendor_table(header@, k + 1) =~= Seq::<(Seq<u8>, u64)>::empty());
                    assert(table64_view(out@) + Seq::<(Seq<u8>, u64)>::empty() =~= table64_view(
                        out@,
                    ));
                }
                more = false;
            }
        }
    }
    out
}

/// Scan `header` for the two cooperating modifier macro families and build
/// the name-to-modifier table: vendor id in the top bits, code in the low
/// bits, unknown vendors resolving to zero.
pub fn build_drm_modifier_map(header: &[u8]) -> (r: Vec<(Vec<u8>, u64)>)
    ensures
        table64_view(r@) == spec_modifier_table(header@, 0),
{
    let vendors = build_vendor_table(header);
    let n = header.len();
    let mut out: Vec<(Vec<u8>, u64)> = Vec::new();
    let mut pos: usize = 0;
    let mut more = true;
    while more
        invariant
            pos <= n,
            n == header@.len(),
            table64_view(vendors@) == spec_vendor_table(header@, 0),
            more ==> spec_modifier_table(header@, 0) == table64_view(out@) + spec_modifier_table(
                header@,
                pos as int,
            ),
            !more ==> spec_modifier_table(header@, 0) == table64_view(out@),
        decreases n - pos, more_rank(more),
    {
        if pos >= n {
            proof {
                assert(spec_modifier_table(header@, pos as int) =~= Seq::<
                    (Seq<u8>, u64),
                >::empty());
                assert(table64_view(out@) + Seq::<(Seq<u8>, u64)>::empty() =~= table64_view(
                    out@,
                ));
            }
            more = false;
        } else {
            let k = find_byte(header, pos, 10u8);
            let line = vstd::slice::slice_subrange(header, pos, k);
            let ghost pre = table64_view(out@);
            match parse_mod_line(line) {
                Some(p) => {
                    let vendor_id = match lookup_u64(&vendors, p.1.as_slice()) {
                        Some(x) => x,
                        None => 0,
                    };
                    proof {
                        assert(vendor_id == spec_vendor_value(header@, p.1@));
                    }
                    let combined = mod_combine(vendor_id, p.2);
                    let ghost e = (p.0@, combined);
                    out.push((p.0, combined));
                    proof {
                        assert(table64_view(out@) =~= pre + seq![e]);
                    }
                },
                None => {},
            }
            proof {
                assert(table64_view(out@) + spec_modifier_table(header@, k + 1) =~= pre
                    + spec_modifier_table(header@, pos as int));
            }
            if k < n {
                pos = k + 1;
            } else {
                proof {
                    assert(spec_modifier_table(header@, k + 1) =~= Seq::<(Seq<u8>, u64)>::empty());
                    assert(table64_view(out@) + Seq::<(Seq<u8>, u64)>::empty() =~= table64_view(
                        out@,
                    ));
                }
                more = false;
            }
        }
    }
    out
}

} // verus!
