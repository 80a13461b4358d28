//! The code emitter: renders the normalized per-version model into the
//! three generated source files, deterministically, and reformats the two
//! generated Rust files through a pretty printer.

use vstd::prelude::*;

use crate::meta::{
    Control, ControlSize, ControlType, ControlView, EnumValueView, control_view, spec_valid_size,
};
use crate::text::{
    bytes_to_vec, push_bytes, render_dec_u64, render_hex_u64, spec_dec_render, spec_find_match,
    spec_hex_render, spec_match_at, spec_trim_pred, is_wsnl, find_match, match_at, spec_find,
    find_byte,
};

verus! {

broadcast use crate::text::lemma_find_ge, crate::text::lemma_find_match_ge;

/// An ASCII byte lowered: upper-case letters gain the case bit.
pub open spec fn lower_byte(b: u8) -> u8 {
    if 65 <= b <= 90 {
        (b + 32) as u8
    } else {
        b
    }
}

/// An ASCII byte raised: lower-case letters lose the case bit.
pub open spec fn upper_byte(b: u8) -> u8 {
    if 97 <= b <= 122 {
        (b - 32) as u8
    } else {
        b
    }
}

pub open spec fn is_upper(b: u8) -> bool {
    65 <= b <= 90
}

pub open spec fn is_lower(b: u8) -> bool {
    97 <= b <= 122
}

pub open spec fn is_digit_byte(b: u8) -> bool {
    48 <= b <= 57
}

/// Whether the camel-case-to-C conversion puts an underscore before
/// position `i`: at an upper-case letter after a lower-case one, at an
/// upper-case letter before a lower-case one, and where a digit run ends.
pub open spec fn spec_ctn_split(s: Seq<u8>, i: int) -> bool {
    i > 0 && ((is_upper(s[i]) && is_lower(s[i - 1])) || (is_upper(s[i]) && i + 1 < s.len()
        && is_lower(s[i + 1])) || (!is_digit_byte(s[i]) && is_digit_byte(s[i - 1])))
}

/// The C name bytes contributed by position `i` on.
pub open spec fn spec_ctn_from(s: Seq<u8>, i: int) -> Seq<u8>
    decreases s.len() - i,
{
    if i < 0 || i >= s.len() {
        Seq::empty()
    } else {
        let head = if spec_ctn_split(s, i) {
            seq![95u8, lower_byte(s[i])]
        } else {
            seq![lower_byte(s[i])]
        };
        head + spec_ctn_from(s, i + 1)
    }
}

/// The C-style name of a camel-case identifier: words split with
/// underscores, all letters lowered.
pub open spec fn spec_to_c_type_name(s: Seq<u8>) -> Seq<u8> {
    spec_ctn_from(s, 0)
}

/// Convert a camel-case identifier to its C-style name.
pub fn to_c_type_name(s: &[u8]) -> (r: Vec<u8>)
    ensures
        r@ == spec_to_c_type_name(s@),
{
    let n = s.len();
    let mut out: Vec<u8> = Vec::new();
    proof {
        assert(Seq::<u8>::empty() + spec_ctn_from(s@, 0) =~= spec_ctn_from(s@, 0));
    }
    for i in 0..n
        invariant
            n == s@.len(),
            spec_to_c_type_name(s@) == out@ + spec_ctn_from(s@, i as int),
    {
        let b = s[i];
        let mut split = false;
        if i > 0 {
            if 65 <= b && b <= 90 && 97 <= s[i - 1] && s[i - 1] <= 122 {
                split = true;
            }
            if 65 <= b && b <= 90 && i + 1 < n && 97 <= s[i + 1] && s[i + 1] <= 122 {
                split = true;
            }
            if !(48 <= b && b <= 57) && 48 <= s[i - 1] && s[i - 1] <= 57 {
                split = true;
            }
        }
        let ghost pre = out@;
        if split {
            out.push(95u8);
        }
        let low: u8 = if 65 <= b && b <= 90 {
            b + 32
        } else {
            b
        };
        out.push(low);
        proof {
            assert(split == spec_ctn_split(s@, i as int));
            if split {
                assert(out@ =~= pre + seq![95u8, lower_byte(s@[i as int])]);
            } else {
                assert(out@ =~= pre + seq![lower_byte(s@[i as int])]);
            }
        }
    }
    out
}

/// The same name with every letter raised, as the generated enum
/// discriminants reference the C constants.
pub open spec fn spec_upper(s: Seq<u8>) -> Seq<u8> {
    s.map_values(|b: u8| upper_byte(b))
}

/// Raise every ASCII letter of `s`.
pub fn to_ascii_upper(s: &[u8]) -> (r: Vec<u8>)
    ensures
        r@ == spec_upper(s@),
{
    let n = s.len();
    let mut out: Vec<u8> = Vec::new();
    for i in 0..n
        invariant
            n == s@.len(),
            out@ == spec_upper(s@.take(i as int)),
    {
        let b = s[i];
        let up: u8 = if 97 <= b && b <= 122 {
            b - 32
        } else {
            b
        };
        out.push(up);
        proof {
            assert(out@ =~= spec_upper(s@.take(i + 1)));
        }
    }
    proof {
        assert(s@.take(n as int) == s@);
    }
    out
}

/// A description escaped for a Rust string literal: backslashes and double
/// quotes gain a backslash.
pub open spec fn spec_escape_from(s: Seq<u8>, i: int) -> Seq<u8>
    decreases s.len() - i,
{
    if i < 0 || i >= s.len() {
        Seq::empty()
    } else {
        let head = if s[i] == 92u8 {
            seq![92u8, 92u8]
        } else if s[i] == 34u8 {
            seq![92u8, 34u8]
        } else {
            seq![s[i]]
        };
        head + spec_escape_from(s, i + 1)
    }
}

pub open spec fn spec_escape(s: Seq<u8>) -> Seq<u8> {
    spec_escape_from(s, 0)
}

/// Escape a description for embedding in a string literal.
pub fn escape_string(s: &[u8]) -> (r: Vec<u8>)
    ensures
        r@ == spec_escape(s@),
{
    let n = s.len();
    let mut out: Vec<u8> = Vec::new();
    proof {
        assert(Seq::<u8>::empty() + spec_escape_from(s@, 0) =~= spec_escape_from(s@, 0));
    }
    for i in 0..n
        invariant
            n == s@.len(),
            spec_escape(s@) == out@ + spec_escape_from(s@, i as int),
    {
        let b = s[i];
        let ghost pre = out@;
        if b == 92u8 {
            out.push(92u8);
            out.push(92u8);
            proof {
                assert(out@ =~= pre + seq![92u8, 92u8]);
            }
        } else if b == 34u8 {
            out.push(92u8);
            out.push(34u8);
            proof {
                assert(out@ =~= pre + seq![92u8, 34u8]);
            }
        } else {
            out.push(b);
            proof {
                assert(out@ =~= pre + seq![b]);
            }
        }
    }
    out
}

/// `s` with every occurrence of a non-empty `pat` removed, scanning left
/// to right, as enumeration variant names drop the control name.
pub open spec fn spec_remove_all(s: Seq<u8>, pos: int, pat: Seq<u8>) -> Seq<u8>
    decreases s.len() - pos + 1,
{
    if pat.len() == 0 || pos < 0 || pos > s.len() {
        s.subrange(if 0 <= pos <= s.len() {
            pos
        } else {
            0
        }, s.len() as int)
    } else {
        let p = spec_find_match(s, pos, pat);
        if p >= s.len() {
            s.subrange(pos, s.len() as int)
        } else {
            let nxt = if p + pat.len() <= s.len() {
                p + pat.len()
            } else {
                s.len() as int + 1
            };
            s.subrange(pos, p) + spec_remove_all(s, nxt, pat)
        }
    }
}

/// Remove every occurrence of `pat` from `s`.
pub fn remove_all(s: &[u8], pat: &[u8]) -> (r: Vec<u8>)
    ensures
        r@ == spec_remove_all(s@, 0, pat@),
{
    let n = s.len();
    if pat.len() == 0 {
        proof {
            assert(s@.subrange(0, n as int) =~= s@);
        }
        return bytes_to_vec(s);
    }
    let mut out: Vec<u8> = Vec::new();
    let mut pos: usize = 0;
    let mut more = true;
    while more
        invariant
            pos <= n,
            n == s@.len(),
            pat@.len() > 0,
            more ==> spec_remove_all(s@, 0, pat@) == out@ + spec_remove_all(s@, pos as int, pat@),
            !more ==> spec_remove_all(s@, 0, pat@) == out@,
        decreases n - pos, emit_rank(more),
    {
        let p = find_match(s, pos, pat);
        let ghost pre = out@;
        if p >= n {
            let tail = vstd::slice::slice_subrange(s, pos, n);
            push_bytes(&mut out, tail);
            proof {
                assert(out@ =~= pre + s@.subrange(pos as int, n as int));
            }
            more = false;
        } else {
            let piece = vstd::slice::slice_subrange(s, pos, p);
            push_bytes(&mut out, piece);
            let nxt = p + pat.len();
            proof {
                assert(spec_match_at(s@, p as int, pat@));
                assert(out@ + spec_remove_all(s@, nxt as int, pat@) =~= pre + spec_remove_all(
                    s@,
                    pos as int,
                    pat@,
                ));
            }
            if nxt <= n {
                pos = nxt;
            } else {
                proof {
                    assert(nxt > n);
                    assert(spec_remove_all(s@, nxt as int, pat@) =~= s@.subrange(0, 0));
                    assert(out@ =~= pre + spec_remove_all(s@, pos as int, pat@));
                }
                more = false;
            }
        }
    }
    out
}

spec fn emit_rank(more: bool) -> int {
    if more {
        1
    } else {
        0
    }
}

/// A signed decimal rendering.
pub open spec fn spec_dec_i64(v: int) -> Seq<u8> {
    if v >= 0 {
        spec_dec_render(v)
    } else {
        seq![45u8] + spec_dec_render(-v)
    }
}

/// Render a signed value in decimal.
pub fn render_dec_i64(v: i64) -> (r: Vec<u8>)
    ensures
        r@ == spec_dec_i64(v as int),
{
    if v >= 0 {
        render_dec_u64(v as u64)
    } else {
        let mag: u64 = if v == i64::MIN {
            9223372036854775808u64
        } else {
            (-v) as u64
        };
        let mut out: Vec<u8> = Vec::new();
        out.push(45u8);
        let digits = render_dec_u64(mag);
        push_bytes(&mut out, digits.as_slice());
        proof {
            assert(out@ =~= seq![45u8] + spec_dec_render(mag as int));
        }
        out
    }
}

/// `n` spaces.
pub open spec fn spec_spaces(n: int) -> Seq<u8>
    decreases n,
{
    if n <= 0 {
        Seq::empty()
    } else {
        spec_spaces(n - 1) + seq![32u8]
    }
}

/// Render an indentation of `n` spaces.
pub fn spaces(n: usize) -> (r: Vec<u8>)
    ensures
        r@ == spec_spaces(n as int),
{
    let mut out: Vec<u8> = Vec::new();
    let mut i: usize = 0;
    while i < n
        invariant
            i <= n,
            out@ == spec_spaces(i as int),
        decreases n - i,
    {
        out.push(32u8);
        proof {
            assert(out@ =~= spec_spaces(i as int) + seq![32u8]);
        }
        i = i + 1;
    }
    out
}


/// `/// ```text\n`
pub open spec fn l_doc_fence_open() -> Seq<u8> {
    seq![47u8, 47u8, 47u8, 32u8, 96u8, 96u8, 96u8, 116u8, 101u8, 120u8, 116u8, 10u8]
}

fn l_doc_fence_open_v() -> (r: Vec<u8>)
    ensures
        r@ == l_doc_fence_open(),
{
    let r: Vec<u8> = vec![47u8, 47u8, 47u8, 32u8, 96u8, 96u8, 96u8, 116u8, 101u8, 120u8, 116u8, 10u8];
    proof {
        assert(r@ =~= l_doc_fence_open());
    }
    r
}

/// `/// ```\n`
pub open spec fn l_doc_fence_close() -> Seq<u8> {
    seq![47u8, 47u8, 47u8, 32u8, 96u8, 96u8, 96u8, 10u8]
}

fn l_doc_fence_close_v() -> (r: Vec<u8>)
    ensures
        r@ == l_doc_fence_close(),
{
    let r: Vec<u8> = vec![47u8, 47u8, 47u8, 32u8, 96u8, 96u8, 96u8, 10u8];
    proof {
        assert(r@ =~= l_doc_fence_close());
    }
    r
}

/// `/// `
pub open spec fn l_doc_prefix() -> Seq<u8> {
    seq![47u8, 47u8, 47u8, 32u8]
}

fn l_doc_prefix_v() -> (r: Vec<u8>)
    ensures
        r@ == l_doc_prefix(),
{
    let r: Vec<u8> = vec![47u8, 47u8, 47u8, 32u8];
    proof {
        assert(r@ =~= l_doc_prefix());
    }
    r
}

/// `\n`
pub open spec fn l_nl() -> Seq<u8> {
    seq![10u8]
}

/// `  `
pub open spec fn l_two_spaces() -> Seq<u8> {
    seq![32u8, 32u8]
}

fn l_two_spaces_v() -> (r: Vec<u8>)
    ensures
        r@ == l_two_spaces(),
{
    let r: Vec<u8> = vec![32u8, 32u8];
    proof {
        assert(r@ =~= l_two_spaces());
    }
    r
}

/// `bool`
pub open spec fn l_ty_bool() -> Seq<u8> {
    seq![98u8, 111u8, 111u8, 108u8]
}

fn l_ty_bool_v() -> (r: Vec<u8>)
    ensures
        r@ == l_ty_bool(),
{
    let r: Vec<u8> = vec![98u8, 111u8, 111u8, 108u8];
    proof {
        assert(r@ =~= l_ty_bool());
    }
    r
}

/// `u8`
pub open spec fn l_ty_u8() -> Seq<u8> {
    seq![117u8, 56u8]
}

fn l_ty_u8_v() -> (r: Vec<u8>)
    ensures
        r@ == l_ty_u8(),
{
    let r: Vec<u8> = vec![117u8, 56u8];
    proof {
        assert(r@ =~= l_ty_u8());
    }
    r
}

/// `u16`
pub open spec fn l_ty_u16() -> Seq<u8> {
    seq![117u8, 49u8, 54u8]
}

fn l_ty_u16_v() -> (r: Vec<u8>)
    ensures
        r@ == l_ty_u16(),
{
    let r: Vec<u8> = vec![117u8, 49u8, 54u8];
    proof {
        assert(r@ =~= l_ty_u16());
    }
    r
}

/// `u32`
pub open spec fn l_ty_u32() -> Seq<u8> {
    seq![117u8, 51u8, 50u8]
}

fn l_ty_u32_v() -> (r: Vec<u8>)
    ensures
        r@ == l_ty_u32(),
{
    let r: Vec<u8> = vec![117u8, 51u8, 50u8];
    proof {
        assert(r@ =~= l_ty_u32());
    }
    r
}

/// `i32`
pub open spec fn l_ty_i32() -> Seq<u8> {
    seq![105u8, 51u8, 50u8]
}

fn l_ty_i32_v() -> (r: Vec<u8>)
    ensures
        r@ == l_ty_i32(),
{
    let r: Vec<u8> = vec![105u8, 51u8, 50u8];
    proof {
        assert(r@ =~= l_ty_i32());
    }
    r
}

/// `i64`
pub open spec fn l_ty_i64() -> Seq<u8> {
    seq![105u8, 54u8, 52u8]
}

fn l_ty_i64_v() -> (r: Vec<u8>)
    ensures
        r@ == l_ty_i64(),
{
    let r: Vec<u8> = vec![105u8, 54u8, 52u8];
    proof {
        assert(r@ =~= l_ty_i64());
    }
    r
}

/// `f32`
pub open spec fn l_ty_f32() -> Seq<u8> {
    seq![102u8, 51u8, 50u8]
}

fn l_ty_f32_v() -> (r: Vec<u8>)
    ensures
        r@ == l_ty_f32(),
{
    let r: Vec<u8> = vec![102u8, 51u8, 50u8];
    proof {
        assert(r@ =~= l_ty_f32());
    }
    r
}

/// `String`
pub open spec fn l_ty_string() -> Seq<u8> {
    seq![83u8, 116u8, 114u8, 105u8, 110u8, 103u8]
}

fn l_ty_string_v() -> (r: Vec<u8>)
    ensures
        r@ == l_ty_string(),
{
    let r: Vec<u8> = vec![83u8, 116u8, 114u8, 105u8, 110u8, 103u8];
    proof {
        assert(r@ =~= l_ty_string());
    }
    r
}

/// `Rectangle`
pub open spec fn l_ty_rectangle() -> Seq<u8> {
    seq![82u8, 101u8, 99u8, 116u8, 97u8, 110u8, 103u8, 108u8, 101u8]
}

fn l_ty_rectangle_v() -> (r: Vec<u8>)
    ensures
        r@ == l_ty_rectangle(),
{
    let r: Vec<u8> = vec![82u8, 101u8, 99u8, 116u8, 97u8, 110u8, 103u8, 108u8, 101u8];
    proof {
        assert(r@ =~= l_ty_rectangle());
    }
    r
}

/// `Size`
pub open spec fn l_ty_size() -> Seq<u8> {
    seq![83u8, 105u8, 122u8, 101u8]
}

fn l_ty_size_v() -> (r: Vec<u8>)
    ensures
        r@ == l_ty_size(),
{
    let r: Vec<u8> = vec![83u8, 105u8, 122u8, 101u8];
    proof {
        assert(r@ =~= l_ty_size());
    }
    r
}

/// `Point`
pub open spec fn l_ty_point() -> Seq<u8> {
    seq![80u8, 111u8, 105u8, 110u8, 116u8]
}

fn l_ty_point_v() -> (r: Vec<u8>)
    ensures
        r@ == l_ty_point(),
{
    let r: Vec<u8> = vec![80u8, 111u8, 105u8, 110u8, 116u8];
    proof {
        assert(r@ =~= l_ty_point());
    }
    r
}

/// `Vec<`
pub open spec fn l_vec_open() -> Seq<u8> {
    seq![86u8, 101u8, 99u8, 60u8]
}

fn l_vec_open_v() -> (r: Vec<u8>)
    ensures
        r@ == l_vec_open(),
{
    let r: Vec<u8> = vec![86u8, 101u8, 99u8, 60u8];
    proof {
        assert(r@ =~= l_vec_open());
    }
    r
}

/// `>`
pub open spec fn l_gt() -> Seq<u8> {
    seq![62u8]
}

fn l_gt_v() -> (r: Vec<u8>)
    ensures
        r@ == l_gt(),
{
    let r: Vec<u8> = vec![62u8];
    proof {
        assert(r@ =~= l_gt());
    }
    r
}

/// `[`
pub open spec fn l_lbrack() -> Seq<u8> {
    seq![91u8]
}

fn l_lbrack_v() -> (r: Vec<u8>)
    ensures
        r@ == l_lbrack(),
{
    let r: Vec<u8> = vec![91u8];
    proof {
        assert(r@ =~= l_lbrack());
    }
    r
}

/// `; `
pub open spec fn l_semi() -> Seq<u8> {
    seq![59u8, 32u8]
}

fn l_semi_v() -> (r: Vec<u8>)
    ensures
        r@ == l_semi(),
{
    let r: Vec<u8> = vec![59u8, 32u8];
    proof {
        assert(r@ =~= l_semi());
    }
    r
}

/// `]`
pub open spec fn l_rbrack() -> Seq<u8> {
    seq![93u8]
}

fn l_rbrack_v() -> (r: Vec<u8>)
    ensures
        r@ == l_rbrack(),
{
    let r: Vec<u8> = vec![93u8];
    proof {
        assert(r@ =~= l_rbrack());
    }
    r
}

/// One documentation line with its fence handling: entering a block when
/// an indented line starts one, leaving it at the first unindented line.
pub open spec fn spec_doc_line(line: Seq<u8>, indent: int, in_block: bool) -> (Seq<u8>, bool) {
    let starts2 = spec_match_at(line, 0, l_two_spaces());
    if !in_block && starts2 {
        (
            spec_spaces(indent) + l_doc_fence_open() + spec_spaces(indent) + l_doc_prefix()
                + line + l_nl(),
            true,
        )
    } else if in_block && !starts2 {
        (
            spec_spaces(indent) + l_doc_fence_close() + spec_spaces(indent) + l_doc_prefix()
                + line + l_nl(),
            false,
        )
    } else {
        (spec_spaces(indent) + l_doc_prefix() + line + l_nl(), in_block)
    }
}

/// The documentation lines of `s` from `pos` on, threading the block
/// state.
pub open spec fn spec_doc_from(s: Seq<u8>, pos: int, indent: int, in_block: bool) -> Seq<u8>
    decreases s.len() - pos + 1,
{
    if pos < 0 || pos > s.len() {
        Seq::empty()
    } else {
        let k = spec_find(s, pos, 10u8);
        let line = s.subrange(pos, k);
        let piece = spec_doc_line(line, indent, in_block);
        if k < s.len() {
            piece.0 + spec_doc_from(s, k + 1, indent, piece.1)
        } else {
            piece.0
        }
    }
}

/// A description as a doc comment: trimmed, each line prefixed, with any
/// preformatted block (a run of lines indented by at least two spaces)
/// fenced as literal text.
pub open spec fn spec_format_docstring(desc: Seq<u8>, indent: int) -> Seq<u8> {
    spec_doc_from(spec_trim_pred(desc, |b: u8| is_wsnl(b)), 0, indent, false)
}

/// Render a description as a doc comment at the given indentation.
pub fn format_docstring(desc: &[u8], indent: usize) -> (r: Vec<u8>)
    ensures
        r@ == spec_format_docstring(desc@, indent as int),
{
    let (ta, tb) = crate::text::trim_wsnl_range(desc);
    let s = vstd::slice::slice_subrange(desc, ta, tb);
    let n = s.len();
    let ind = spaces(indent);
    let fence_open = l_doc_fence_open_v();
    let fence_close = l_doc_fence_close_v();
    let prefix = l_doc_prefix_v();
    let two = l_two_spaces_v();
    let mut out: Vec<u8> = Vec::new();
    let mut pos: usize = 0;
    let mut in_block = false;
    let mut more = true;
    while more
        invariant
            pos <= n,
            n == s@.len(),
            s@ == spec_trim_pred(desc@, |b: u8| is_wsnl(b)),
            ind@ == spec_spaces(indent as int),
            fence_open@ == l_doc_fence_open(),
            fence_close@ == l_doc_fence_close(),
            prefix@ == l_doc_prefix(),
            two@ == l_two_spaces(),
            more ==> spec_format_docstring(desc@, indent as int) == out@ + spec_doc_from(
                s@,
                pos as int,
                indent as int,
                in_block,
            ),
            !more ==> spec_format_docstring(desc@, indent as int) == out@,
        decreases n - pos, emit_rank(more),
    {
        let k = find_byte(s, pos, 10u8);
        let line = vstd::slice::slice_subrange(s, pos, k);
        let starts2 = match_at(line, 0, two.as_slice());
        let ghost pre = out@;
        let ghost old_blk = in_block;
        if !in_block && starts2 {
            push_bytes(&mut out, ind.as_slice());
            push_bytes(&mut out, fence_open.as_slice());
            in_block = true;
        } else if in_block && !starts2 {
            push_bytes(&mut out, ind.as_slice());
            push_bytes(&mut out, fence_close.as_slice());
            in_block = false;
        }
        push_bytes(&mut out, ind.as_slice());
        push_bytes(&mut out, prefix.as_slice());
        push_bytes(&mut out, line);
        out.push(10u8);
        proof {
            assert(out@ =~= pre + spec_doc_line(line@, indent as int, old_blk).0);
            assert(in_block == spec_doc_line(line@, indent as int, old_blk).1);
        }
        if k < n {
            proof {
                assert(out@ + spec_doc_from(s@, k + 1, indent as int, in_block) =~= pre
                    + spec_doc_from(s@, pos as int, indent as int, old_blk));
            }
            pos = k + 1;
        } else {
            proof {
                assert(out@ =~= pre + spec_doc_from(s@, pos as int, indent as int, old_blk));
            }
            more = false;
        }
    }
    out
}

/// The scalar type's rendered Rust name.
pub open spec fn spec_inner_type(t: ControlType) -> Seq<u8> {
    match t {
        ControlType::Bool => l_ty_bool(),
        ControlType::Byte => l_ty_u8(),
        ControlType::Uint16 => l_ty_u16(),
        ControlType::Uint32 => l_ty_u32(),
        ControlType::Int32 => l_ty_i32(),
        ControlType::Int64 => l_ty_i64(),
        ControlType::Float => l_ty_f32(),
        ControlType::Text => l_ty_string(),
        ControlType::Rectangle => l_ty_rectangle(),
        ControlType::Size => l_ty_size(),
        ControlType::Point => l_ty_point(),
    }
}

fn inner_type(t: ControlType) -> (r: Vec<u8>)
    ensures
        r@ == spec_inner_type(t),
{
    match t {
        ControlType::Bool => l_ty_bool_v(),
        ControlType::Byte => l_ty_u8_v(),
        ControlType::Uint16 => l_ty_u16_v(),
        ControlType::Uint32 => l_ty_u32_v(),
        ControlType::Int32 => l_ty_i32_v(),
        ControlType::Int64 => l_ty_i64_v(),
        ControlType::Float => l_ty_f32_v(),
        ControlType::Text => l_ty_string_v(),
        ControlType::Rectangle => l_ty_rectangle_v(),
        ControlType::Size => l_ty_size_v(),
        ControlType::Point => l_ty_point_v(),
    }
}

/// Wrap a rendered type in the fixed array dimensions from `i` on.
pub open spec fn spec_wrap_from(sizes: Seq<ControlSize>, i: int, acc: Seq<u8>) -> Seq<u8>
    decreases sizes.len() - i,
{
    if i < 0 || i >= sizes.len() {
        acc
    } else {
        match sizes[i] {
            ControlSize::Dynamic => acc,
            ControlSize::Fixed(k) => spec_wrap_from(
                sizes,
                i + 1,
                l_lbrack() + acc + l_semi() + spec_dec_render(k as int) + l_rbrack(),
            ),
        }
    }
}

/// The rendered Rust type of a control: the scalar type, a vector of it
/// for a dynamic size, or nested fixed arrays.
pub open spec fn spec_to_rust_type(t: ControlType, size: Option<Seq<ControlSize>>) -> Seq<u8> {
    match size {
        None => spec_inner_type(t),
        Some(s) => if s[0] is Dynamic {
            l_vec_open() + spec_inner_type(t) + l_gt()
        } else {
            spec_wrap_from(s, 0, spec_inner_type(t))
        },
    }
}

/// Render the Rust type of a control; the size specification must satisfy
/// the dimension invariant.
pub fn to_rust_type(t: ControlType, size: &Option<Vec<ControlSize>>) -> (r: Vec<u8>)
    requires
        size matches Some(s) ==> spec_valid_size(s@),
    ensures
        r@ == spec_to_rust_type(
            t,
            match size {
                Some(s) => Some(s@),
                None => None,
            },
        ),
{
    let inner = inner_type(t);
    match size {
        None => inner,
        Some(s) => {
            let is_dyn = match s[0] {
                ControlSize::Dynamic => true,
                ControlSize::Fixed(_) => false,
            };
            if is_dyn {
                let mut out = l_vec_open_v();
                push_bytes(&mut out, inner.as_slice());
                let gt = l_gt_v();
                push_bytes(&mut out, gt.as_slice());
                proof {
                    assert(out@ =~= l_vec_open() + spec_inner_type(t) + l_gt());
                }
                out
            } else {
                let m = s.len();
                let mut acc = inner;
                for i in 0..m
                    invariant
                        m == s@.len(),
                        spec_valid_size(s@),
                        !(s@[0] is Dynamic),
                        spec_wrap_from(s@, i as int, acc@) == spec_wrap_from(
                            s@,
                            0,
                            spec_inner_type(t),
                        ),
                {
                    match s[i] {
                        ControlSize::Dynamic => {
                            proof {
                                assert(s@[i as int] is Dynamic);
                                assert(false);
                            }
                        },
                        ControlSize::Fixed(k) => {
                            let mut nacc = l_lbrack_v();
                            push_bytes(&mut nacc, acc.as_slice());
                            let semi = l_semi_v();
                            push_bytes(&mut nacc, semi.as_slice());
                            let digits = render_dec_u64(k as u64);
                            push_bytes(&mut nacc, digits.as_slice());
                            let rb = l_rbrack_v();
                            push_bytes(&mut nacc, rb.as_slice());
                            proof {
                                assert(nacc@ =~= l_lbrack() + acc@ + l_semi() + spec_dec_render(
                                    k as int,
                                ) + l_rbrack());
                            }
                            acc = nacc;
                        },
                    }
                }
                acc
            }
        },
    }
}


/// `#[cfg(feature = "vendor_`
pub open spec fn l_gate1() -> Seq<u8> {
    seq![35u8, 91u8, 99u8, 102u8, 103u8, 40u8, 102u8, 101u8, 97u8, 116u8, 117u8, 114u8, 101u8, 32u8, 61u8, 32u8, 34u8, 118u8, 101u8, 110u8, 100u8, 111u8, 114u8, 95u8]
}

fn l_gate1_v() -> (r: Vec<u8>)
    ensures
        r@ == l_gate1(),
{
    let r: Vec<u8> = vec![35u8, 91u8, 99u8, 102u8, 103u8, 40u8, 102u8, 101u8, 97u8, 116u8, 117u8, 114u8, 101u8, 32u8, 61u8, 32u8, 34u8, 118u8, 101u8, 110u8, 100u8, 111u8, 114u8, 95u8];
    proof {
        assert(r@ =~= l_gate1());
    }
    r
}

/// `")]\n`
pub open spec fn l_gate2() -> Seq<u8> {
    seq![34u8, 41u8, 93u8, 10u8]
}

fn l_gate2_v() -> (r: Vec<u8>)
    ensures
        r@ == l_gate2(),
{
    let r: Vec<u8> = vec![34u8, 41u8, 93u8, 10u8];
    proof {
        assert(r@ =~= l_gate2());
    }
    r
}

/// `a fixed emitted fragment`
pub open spec fn l_enum_derive() -> Seq<u8> {
    seq![35u8, 91u8, 100u8, 101u8, 114u8, 105u8, 118u8, 101u8, 40u8, 68u8, 101u8, 98u8, 117u8, 103u8, 44u8, 32u8, 67u8, 108u8, 111u8, 110u8, 101u8, 44u8, 32u8, 67u8, 111u8, 112u8, 121u8, 44u8, 32u8, 69u8, 113u8, 44u8, 32u8, 80u8, 97u8, 114u8, 116u8, 105u8, 97u8, 108u8, 69u8, 113u8, 44u8, 32u8, 84u8, 114u8, 121u8, 70u8, 114u8, 111u8, 109u8, 80u8, 114u8, 105u8, 109u8, 105u8, 116u8, 105u8, 118u8, 101u8, 44u8, 32u8, 73u8, 110u8, 116u8, 111u8, 80u8, 114u8, 105u8, 109u8, 105u8, 116u8, 105u8, 118u8, 101u8, 41u8, 93u8, 10u8, 35u8, 91u8, 114u8, 101u8, 112u8, 114u8, 40u8, 117u8, 51u8, 50u8, 41u8, 93u8, 10u8, 112u8, 117u8, 98u8, 32u8, 101u8, 110u8, 117u8, 109u8, 32u8]
}

fn l_enum_derive_v() -> (r: Vec<u8>)
    ensures
        r@ == l_enum_derive(),
{
    let r: Vec<u8> = vec![35u8, 91u8, 100u8, 101u8, 114u8, 105u8, 118u8, 101u8, 40u8, 68u8, 101u8, 98u8, 117u8, 103u8, 44u8, 32u8, 67u8, 108u8, 111u8, 110u8, 101u8, 44u8, 32u8, 67u8, 111u8, 112u8, 121u8, 44u8, 32u8, 69u8, 113u8, 44u8, 32u8, 80u8, 97u8, 114u8, 116u8, 105u8, 97u8, 108u8, 69u8, 113u8, 44u8, 32u8, 84u8, 114u8, 121u8, 70u8, 114u8, 111u8, 109u8, 80u8, 114u8, 105u8, 109u8, 105u8, 116u8, 105u8, 118u8, 101u8, 44u8, 32u8, 73u8, 110u8, 116u8, 111u8, 80u8, 114u8, 105u8, 109u8, 105u8, 116u8, 105u8, 118u8, 101u8, 41u8, 93u8, 10u8, 35u8, 91u8, 114u8, 101u8, 112u8, 114u8, 40u8, 117u8, 51u8, 50u8, 41u8, 93u8, 10u8, 112u8, 117u8, 98u8, 32u8, 101u8, 110u8, 117u8, 109u8, 32u8];
    proof {
        assert(r@ =~= l_enum_derive());
    }
    r
}

/// ` {\n`
pub open spec fn l_brace_open() -> Seq<u8> {
    seq![32u8, 123u8, 10u8]
}

fn l_brace_open_v() -> (r: Vec<u8>)
    ensures
        r@ == l_brace_open(),
{
    let r: Vec<u8> = vec![32u8, 123u8, 10u8];
    proof {
        assert(r@ =~= l_brace_open());
    }
    r
}

/// `}\n`
pub open spec fn l_brace_close() -> Seq<u8> {
    seq![125u8, 10u8]
}

fn l_brace_close_v() -> (r: Vec<u8>)
    ensures
        r@ == l_brace_close(),
{
    let r: Vec<u8> = vec![125u8, 10u8];
    proof {
        assert(r@ =~= l_brace_close());
    }
    r
}

/// ` = `
pub open spec fn l_eq_sign() -> Seq<u8> {
    seq![32u8, 61u8, 32u8]
}

fn l_eq_sign_v() -> (r: Vec<u8>)
    ensures
        r@ == l_eq_sign(),
{
    let r: Vec<u8> = vec![32u8, 61u8, 32u8];
    proof {
        assert(r@ =~= l_eq_sign());
    }
    r
}

/// `,\n`
pub open spec fn l_comma_nl() -> Seq<u8> {
    seq![44u8, 10u8]
}

fn l_comma_nl_v() -> (r: Vec<u8>)
    ensures
        r@ == l_comma_nl(),
{
    let r: Vec<u8> = vec![44u8, 10u8];
    proof {
        assert(r@ =~= l_comma_nl());
    }
    r
}

/// `impl `
pub open spec fn l_impl() -> Seq<u8> {
    seq![105u8, 109u8, 112u8, 108u8, 32u8]
}

fn l_impl_v() -> (r: Vec<u8>)
    ensures
        r@ == l_impl(),
{
    let r: Vec<u8> = vec![105u8, 109u8, 112u8, 108u8, 32u8];
    proof {
        assert(r@ =~= l_impl());
    }
    r
}

/// `pub fn id(&self) -> u32 {\n    u32::from(*self)\n}\n`
pub open spec fn l_id_fn() -> Seq<u8> {
    seq![112u8, 117u8, 98u8, 32u8, 102u8, 110u8, 32u8, 105u8, 100u8, 40u8, 38u8, 115u8, 101u8, 108u8, 102u8, 41u8, 32u8, 45u8, 62u8, 32u8, 117u8, 51u8, 50u8, 32u8, 123u8, 10u8, 32u8, 32u8, 32u8, 32u8, 117u8, 51u8, 50u8, 58u8, 58u8, 102u8, 114u8, 111u8, 109u8, 40u8, 42u8, 115u8, 101u8, 108u8, 102u8, 41u8, 10u8, 125u8, 10u8]
}

fn l_id_fn_v() -> (r: Vec<u8>)
    ensures
        r@ == l_id_fn(),
{
    let r: Vec<u8> = vec![112u8, 117u8, 98u8, 32u8, 102u8, 110u8, 32u8, 105u8, 100u8, 40u8, 38u8, 115u8, 101u8, 108u8, 102u8, 41u8, 32u8, 45u8, 62u8, 32u8, 117u8, 51u8, 50u8, 32u8, 123u8, 10u8, 32u8, 32u8, 32u8, 32u8, 117u8, 51u8, 50u8, 58u8, 58u8, 102u8, 114u8, 111u8, 109u8, 40u8, 42u8, 115u8, 101u8, 108u8, 102u8, 41u8, 10u8, 125u8, 10u8];
    proof {
        assert(r@ =~= l_id_fn());
    }
    r
}

/// `pub fn description(&self) -> &'static str {\n    match self {\n`
pub open spec fn l_desc_open() -> Seq<u8> {
    seq![112u8, 117u8, 98u8, 32u8, 102u8, 110u8, 32u8, 100u8, 101u8, 115u8, 99u8, 114u8, 105u8, 112u8, 116u8, 105u8, 111u8, 110u8, 40u8, 38u8, 115u8, 101u8, 108u8, 102u8, 41u8, 32u8, 45u8, 62u8, 32u8, 38u8, 39u8, 115u8, 116u8, 97u8, 116u8, 105u8, 99u8, 32u8, 115u8, 116u8, 114u8, 32u8, 123u8, 10u8, 32u8, 32u8, 32u8, 32u8, 109u8, 97u8, 116u8, 99u8, 104u8, 32u8, 115u8, 101u8, 108u8, 102u8, 32u8, 123u8, 10u8]
}

fn l_desc_open_v() -> (r: Vec<u8>)
    ensures
        r@ == l_desc_open(),
{
    let r: Vec<u8> = vec![112u8, 117u8, 98u8, 32u8, 102u8, 110u8, 32u8, 100u8, 101u8, 115u8, 99u8, 114u8, 105u8, 112u8, 116u8, 105u8, 111u8, 110u8, 40u8, 38u8, 115u8, 101u8, 108u8, 102u8, 41u8, 32u8, 45u8, 62u8, 32u8, 38u8, 39u8, 115u8, 116u8, 97u8, 116u8, 105u8, 99u8, 32u8, 115u8, 116u8, 114u8, 32u8, 123u8, 10u8, 32u8, 32u8, 32u8, 32u8, 109u8, 97u8, 116u8, 99u8, 104u8, 32u8, 115u8, 101u8, 108u8, 102u8, 32u8, 123u8, 10u8];
    proof {
        assert(r@ =~= l_desc_open());
    }
    r
}

/// `    }\n}\n`
pub open spec fn l_desc_close() -> Seq<u8> {
    seq![32u8, 32u8, 32u8, 32u8, 125u8, 10u8, 125u8, 10u8]
}

fn l_desc_close_v() -> (r: Vec<u8>)
    ensures
        r@ == l_desc_close(),
{
    let r: Vec<u8> = vec![32u8, 32u8, 32u8, 32u8, 125u8, 10u8, 125u8, 10u8];
    proof {
        assert(r@ =~= l_desc_close());
    }
    r
}

/// `::`
pub open spec fn l_colons() -> Seq<u8> {
    seq![58u8, 58u8]
}

fn l_colons_v() -> (r: Vec<u8>)
    ensures
        r@ == l_colons(),
{
    let r: Vec<u8> = vec![58u8, 58u8];
    proof {
        assert(r@ =~= l_colons());
    }
    r
}

/// ` => "`
pub open spec fn l_arrow_quote() -> Seq<u8> {
    seq![32u8, 61u8, 62u8, 32u8, 34u8]
}

fn l_arrow_quote_v() -> (r: Vec<u8>)
    ensures
        r@ == l_arrow_quote(),
{
    let r: Vec<u8> = vec![32u8, 61u8, 62u8, 32u8, 34u8];
    proof {
        assert(r@ =~= l_arrow_quote());
    }
    r
}

/// `",\n`
pub open spec fn l_quote_comma() -> Seq<u8> {
    seq![34u8, 44u8, 10u8]
}

fn l_quote_comma_v() -> (r: Vec<u8>)
    ensures
        r@ == l_quote_comma(),
{
    let r: Vec<u8> = vec![34u8, 44u8, 10u8];
    proof {
        assert(r@ =~= l_quote_comma());
    }
    r
}

/// `a fixed emitted fragment`
pub open spec fn l_ederive() -> Seq<u8> {
    seq![35u8, 91u8, 100u8, 101u8, 114u8, 105u8, 118u8, 101u8, 40u8, 68u8, 101u8, 98u8, 117u8, 103u8, 44u8, 32u8, 67u8, 108u8, 111u8, 110u8, 101u8, 44u8, 32u8, 67u8, 111u8, 112u8, 121u8, 44u8, 32u8, 69u8, 113u8, 44u8, 32u8, 80u8, 97u8, 114u8, 116u8, 105u8, 97u8, 108u8, 69u8, 113u8, 44u8, 32u8, 84u8, 114u8, 121u8, 70u8, 114u8, 111u8, 109u8, 80u8, 114u8, 105u8, 109u8, 105u8, 116u8, 105u8, 118u8, 101u8, 44u8, 32u8, 73u8, 110u8, 116u8, 111u8, 80u8, 114u8, 105u8, 109u8, 105u8, 116u8, 105u8, 118u8, 101u8, 41u8, 93u8, 10u8, 35u8, 91u8, 114u8, 101u8, 112u8, 114u8, 40u8]
}

fn l_ederive_v() -> (r: Vec<u8>)
    ensures
        r@ == l_ederive(),
{
    let r: Vec<u8> = vec![35u8, 91u8, 100u8, 101u8, 114u8, 105u8, 118u8, 101u8, 40u8, 68u8, 101u8, 98u8, 117u8, 103u8, 44u8, 32u8, 67u8, 108u8, 111u8, 110u8, 101u8, 44u8, 32u8, 67u8, 111u8, 112u8, 121u8, 44u8, 32u8, 69u8, 113u8, 44u8, 32u8, 80u8, 97u8, 114u8, 116u8, 105u8, 97u8, 108u8, 69u8, 113u8, 44u8, 32u8, 84u8, 114u8, 121u8, 70u8, 114u8, 111u8, 109u8, 80u8, 114u8, 105u8, 109u8, 105u8, 116u8, 105u8, 118u8, 101u8, 44u8, 32u8, 73u8, 110u8, 116u8, 111u8, 80u8, 114u8, 105u8, 109u8, 105u8, 116u8, 105u8, 118u8, 101u8, 41u8, 93u8, 10u8, 35u8, 91u8, 114u8, 101u8, 112u8, 114u8, 40u8];
    proof {
        assert(r@ =~= l_ederive());
    }
    r
}

/// `)]\npub enum `
pub open spec fn l_repr_close() -> Seq<u8> {
    seq![41u8, 93u8, 10u8, 112u8, 117u8, 98u8, 32u8, 101u8, 110u8, 117u8, 109u8, 32u8]
}

fn l_repr_close_v() -> (r: Vec<u8>)
    ensures
        r@ == l_repr_close(),
{
    let r: Vec<u8> = vec![41u8, 93u8, 10u8, 112u8, 117u8, 98u8, 32u8, 101u8, 110u8, 117u8, 109u8, 32u8];
    proof {
        assert(r@ =~= l_repr_close());
    }
    r
}

/// `impl TryFrom<ControlValue> for `
pub open spec fn l_tryfrom1() -> Seq<u8> {
    seq![105u8, 109u8, 112u8, 108u8, 32u8, 84u8, 114u8, 121u8, 70u8, 114u8, 111u8, 109u8, 60u8, 67u8, 111u8, 110u8, 116u8, 114u8, 111u8, 108u8, 86u8, 97u8, 108u8, 117u8, 101u8, 62u8, 32u8, 102u8, 111u8, 114u8, 32u8]
}

fn l_tryfrom1_v() -> (r: Vec<u8>)
    ensures
        r@ == l_tryfrom1(),
{
    let r: Vec<u8> = vec![105u8, 109u8, 112u8, 108u8, 32u8, 84u8, 114u8, 121u8, 70u8, 114u8, 111u8, 109u8, 60u8, 67u8, 111u8, 110u8, 116u8, 114u8, 111u8, 108u8, 86u8, 97u8, 108u8, 117u8, 101u8, 62u8, 32u8, 102u8, 111u8, 114u8, 32u8];
    proof {
        assert(r@ =~= l_tryfrom1());
    }
    r
}

/// `a fixed emitted fragment`
pub open spec fn l_tryfrom2() -> Seq<u8> {
    seq![32u8, 123u8, 10u8, 32u8, 32u8, 32u8, 32u8, 116u8, 121u8, 112u8, 101u8, 32u8, 69u8, 114u8, 114u8, 111u8, 114u8, 32u8, 61u8, 32u8, 67u8, 111u8, 110u8, 116u8, 114u8, 111u8, 108u8, 86u8, 97u8, 108u8, 117u8, 101u8, 69u8, 114u8, 114u8, 111u8, 114u8, 59u8, 10u8, 32u8, 32u8, 32u8, 32u8, 102u8, 110u8, 32u8, 116u8, 114u8, 121u8, 95u8, 102u8, 114u8, 111u8, 109u8, 40u8, 118u8, 97u8, 108u8, 117u8, 101u8, 58u8, 32u8, 67u8, 111u8, 110u8, 116u8, 114u8, 111u8, 108u8, 86u8, 97u8, 108u8, 117u8, 101u8, 41u8, 32u8, 45u8, 62u8, 32u8, 82u8, 101u8, 115u8, 117u8, 108u8, 116u8, 60u8, 83u8, 101u8, 108u8, 102u8, 44u8, 32u8, 83u8, 101u8, 108u8, 102u8, 58u8, 58u8, 69u8, 114u8, 114u8, 111u8, 114u8, 62u8, 32u8, 123u8, 10u8, 32u8, 32u8, 32u8, 32u8, 32u8, 32u8, 32u8, 32u8, 83u8, 101u8, 108u8, 102u8, 58u8, 58u8, 116u8, 114u8, 121u8, 95u8, 102u8, 114u8, 111u8, 109u8, 40u8, 60u8]
}

fn l_tryfrom2_v() -> (r: Vec<u8>)
    ensures
        r@ == l_tryfrom2(),
{
    let r: Vec<u8> = vec![32u8, 123u8, 10u8, 32u8, 32u8, 32u8, 32u8, 116u8, 121u8, 112u8, 101u8, 32u8, 69u8, 114u8, 114u8, 111u8, 114u8, 32u8, 61u8, 32u8, 67u8, 111u8, 110u8, 116u8, 114u8, 111u8, 108u8, 86u8, 97u8, 108u8, 117u8, 101u8, 69u8, 114u8, 114u8, 111u8, 114u8, 59u8, 10u8, 32u8, 32u8, 32u8, 32u8, 102u8, 110u8, 32u8, 116u8, 114u8, 121u8, 95u8, 102u8, 114u8, 111u8, 109u8, 40u8, 118u8, 97u8, 108u8, 117u8, 101u8, 58u8, 32u8, 67u8, 111u8, 110u8, 116u8, 114u8, 111u8, 108u8, 86u8, 97u8, 108u8, 117u8, 101u8, 41u8, 32u8, 45u8, 62u8, 32u8, 82u8, 101u8, 115u8, 117u8, 108u8, 116u8, 60u8, 83u8, 101u8, 108u8, 102u8, 44u8, 32u8, 83u8, 101u8, 108u8, 102u8, 58u8, 58u8, 69u8, 114u8, 114u8, 111u8, 114u8, 62u8, 32u8, 123u8, 10u8, 32u8, 32u8, 32u8, 32u8, 32u8, 32u8, 32u8, 32u8, 83u8, 101u8, 108u8, 102u8, 58u8, 58u8, 116u8, 114u8, 121u8, 95u8, 102u8, 114u8, 111u8, 109u8, 40u8, 60u8];
    proof {
        assert(r@ =~= l_tryfrom2());
    }
    r
}

/// `a fixed emitted fragment`
pub open spec fn l_tryfrom3() -> Seq<u8> {
    seq![62u8, 58u8, 58u8, 116u8, 114u8, 121u8, 95u8, 102u8, 114u8, 111u8, 109u8, 40u8, 118u8, 97u8, 108u8, 117u8, 101u8, 46u8, 99u8, 108u8, 111u8, 110u8, 101u8, 40u8, 41u8, 41u8, 63u8, 41u8, 46u8, 109u8, 97u8, 112u8, 95u8, 101u8, 114u8, 114u8, 40u8, 124u8, 95u8, 124u8, 32u8, 67u8, 111u8, 110u8, 116u8, 114u8, 111u8, 108u8, 86u8, 97u8, 108u8, 117u8, 101u8, 69u8, 114u8, 114u8, 111u8, 114u8, 58u8, 58u8, 85u8, 110u8, 107u8, 110u8, 111u8, 119u8, 110u8, 86u8, 97u8, 114u8, 105u8, 97u8, 110u8, 116u8, 40u8, 118u8, 97u8, 108u8, 117u8, 101u8, 41u8, 41u8, 10u8, 32u8, 32u8, 32u8, 32u8, 125u8, 10u8, 125u8, 10u8]
}

fn l_tryfrom3_v() -> (r: Vec<u8>)
    ensures
        r@ == l_tryfrom3(),
{
    let r: Vec<u8> = vec![62u8, 58u8, 58u8, 116u8, 114u8, 121u8, 95u8, 102u8, 114u8, 111u8, 109u8, 40u8, 118u8, 97u8, 108u8, 117u8, 101u8, 46u8, 99u8, 108u8, 111u8, 110u8, 101u8, 40u8, 41u8, 41u8, 63u8, 41u8, 46u8, 109u8, 97u8, 112u8, 95u8, 101u8, 114u8, 114u8, 40u8, 124u8, 95u8, 124u8, 32u8, 67u8, 111u8, 110u8, 116u8, 114u8, 111u8, 108u8, 86u8, 97u8, 108u8, 117u8, 101u8, 69u8, 114u8, 114u8, 111u8, 114u8, 58u8, 58u8, 85u8, 110u8, 107u8, 110u8, 111u8, 119u8, 110u8, 86u8, 97u8, 114u8, 105u8, 97u8, 110u8, 116u8, 40u8, 118u8, 97u8, 108u8, 117u8, 101u8, 41u8, 41u8, 10u8, 32u8, 32u8, 32u8, 32u8, 125u8, 10u8, 125u8, 10u8];
    proof {
        assert(r@ =~= l_tryfrom3());
    }
    r
}

/// `impl From<`
pub open spec fn l_from1() -> Seq<u8> {
    seq![105u8, 109u8, 112u8, 108u8, 32u8, 70u8, 114u8, 111u8, 109u8, 60u8]
}

fn l_from1_v() -> (r: Vec<u8>)
    ensures
        r@ == l_from1(),
{
    let r: Vec<u8> = vec![105u8, 109u8, 112u8, 108u8, 32u8, 70u8, 114u8, 111u8, 109u8, 60u8];
    proof {
        assert(r@ =~= l_from1());
    }
    r
}

/// `> for ControlValue {\n    fn from(val: `
pub open spec fn l_from2() -> Seq<u8> {
    seq![62u8, 32u8, 102u8, 111u8, 114u8, 32u8, 67u8, 111u8, 110u8, 116u8, 114u8, 111u8, 108u8, 86u8, 97u8, 108u8, 117u8, 101u8, 32u8, 123u8, 10u8, 32u8, 32u8, 32u8, 32u8, 102u8, 110u8, 32u8, 102u8, 114u8, 111u8, 109u8, 40u8, 118u8, 97u8, 108u8, 58u8, 32u8]
}

fn l_from2_v() -> (r: Vec<u8>)
    ensures
        r@ == l_from2(),
{
    let r: Vec<u8> = vec![62u8, 32u8, 102u8, 111u8, 114u8, 32u8, 67u8, 111u8, 110u8, 116u8, 114u8, 111u8, 108u8, 86u8, 97u8, 108u8, 117u8, 101u8, 32u8, 123u8, 10u8, 32u8, 32u8, 32u8, 32u8, 102u8, 110u8, 32u8, 102u8, 114u8, 111u8, 109u8, 40u8, 118u8, 97u8, 108u8, 58u8, 32u8];
    proof {
        assert(r@ =~= l_from2());
    }
    r
}

/// `) -> Self {\n        ControlValue::from(<`
pub open spec fn l_from3() -> Seq<u8> {
    seq![41u8, 32u8, 45u8, 62u8, 32u8, 83u8, 101u8, 108u8, 102u8, 32u8, 123u8, 10u8, 32u8, 32u8, 32u8, 32u8, 32u8, 32u8, 32u8, 32u8, 67u8, 111u8, 110u8, 116u8, 114u8, 111u8, 108u8, 86u8, 97u8, 108u8, 117u8, 101u8, 58u8, 58u8, 102u8, 114u8, 111u8, 109u8, 40u8, 60u8]
}

fn l_from3_v() -> (r: Vec<u8>)
    ensures
        r@ == l_from3(),
{
    let r: Vec<u8> = vec![41u8, 32u8, 45u8, 62u8, 32u8, 83u8, 101u8, 108u8, 102u8, 32u8, 123u8, 10u8, 32u8, 32u8, 32u8, 32u8, 32u8, 32u8, 32u8, 32u8, 67u8, 111u8, 110u8, 116u8, 114u8, 111u8, 108u8, 86u8, 97u8, 108u8, 117u8, 101u8, 58u8, 58u8, 102u8, 114u8, 111u8, 109u8, 40u8, 60u8];
    proof {
        assert(r@ =~= l_from3());
    }
    r
}

/// `>::from(val))\n    }\n}\n`
pub open spec fn l_from4() -> Seq<u8> {
    seq![62u8, 58u8, 58u8, 102u8, 114u8, 111u8, 109u8, 40u8, 118u8, 97u8, 108u8, 41u8, 41u8, 10u8, 32u8, 32u8, 32u8, 32u8, 125u8, 10u8, 125u8, 10u8]
}

fn l_from4_v() -> (r: Vec<u8>)
    ensures
        r@ == l_from4(),
{
    let r: Vec<u8> = vec![62u8, 58u8, 58u8, 102u8, 114u8, 111u8, 109u8, 40u8, 118u8, 97u8, 108u8, 41u8, 41u8, 10u8, 32u8, 32u8, 32u8, 32u8, 125u8, 10u8, 125u8, 10u8];
    proof {
        assert(r@ =~= l_from4());
    }
    r
}

/// `#[derive(Debug, Clone)]\npub struct `
pub open spec fn l_struct1() -> Seq<u8> {
    seq![35u8, 91u8, 100u8, 101u8, 114u8, 105u8, 118u8, 101u8, 40u8, 68u8, 101u8, 98u8, 117u8, 103u8, 44u8, 32u8, 67u8, 108u8, 111u8, 110u8, 101u8, 41u8, 93u8, 10u8, 112u8, 117u8, 98u8, 32u8, 115u8, 116u8, 114u8, 117u8, 99u8, 116u8, 32u8]
}

fn l_struct1_v() -> (r: Vec<u8>)
    ensures
        r@ == l_struct1(),
{
    let r: Vec<u8> = vec![35u8, 91u8, 100u8, 101u8, 114u8, 105u8, 118u8, 101u8, 40u8, 68u8, 101u8, 98u8, 117u8, 103u8, 44u8, 32u8, 67u8, 108u8, 111u8, 110u8, 101u8, 41u8, 93u8, 10u8, 112u8, 117u8, 98u8, 32u8, 115u8, 116u8, 114u8, 117u8, 99u8, 116u8, 32u8];
    proof {
        assert(r@ =~= l_struct1());
    }
    r
}

/// `(pub `
pub open spec fn l_struct2() -> Seq<u8> {
    seq![40u8, 112u8, 117u8, 98u8, 32u8]
}

fn l_struct2_v() -> (r: Vec<u8>)
    ensures
        r@ == l_struct2(),
{
    let r: Vec<u8> = vec![40u8, 112u8, 117u8, 98u8, 32u8];
    proof {
        assert(r@ =~= l_struct2());
    }
    r
}

/// `);\n`
pub open spec fn l_struct3() -> Seq<u8> {
    seq![41u8, 59u8, 10u8]
}

fn l_struct3_v() -> (r: Vec<u8>)
    ensures
        r@ == l_struct3(),
{
    let r: Vec<u8> = vec![41u8, 59u8, 10u8];
    proof {
        assert(r@ =~= l_struct3());
    }
    r
}

/// `impl Deref for `
pub open spec fn l_deref1() -> Seq<u8> {
    seq![105u8, 109u8, 112u8, 108u8, 32u8, 68u8, 101u8, 114u8, 101u8, 102u8, 32u8, 102u8, 111u8, 114u8, 32u8]
}

fn l_deref1_v() -> (r: Vec<u8>)
    ensures
        r@ == l_deref1(),
{
    let r: Vec<u8> = vec![105u8, 109u8, 112u8, 108u8, 32u8, 68u8, 101u8, 114u8, 101u8, 102u8, 32u8, 102u8, 111u8, 114u8, 32u8];
    proof {
        assert(r@ =~= l_deref1());
    }
    r
}

/// ` {\n    type Target = `
pub open spec fn l_deref2() -> Seq<u8> {
    seq![32u8, 123u8, 10u8, 32u8, 32u8, 32u8, 32u8, 116u8, 121u8, 112u8, 101u8, 32u8, 84u8, 97u8, 114u8, 103u8, 101u8, 116u8, 32u8, 61u8, 32u8]
}

fn l_deref2_v() -> (r: Vec<u8>)
    ensures
        r@ == l_deref2(),
{
    let r: Vec<u8> = vec![32u8, 123u8, 10u8, 32u8, 32u8, 32u8, 32u8, 116u8, 121u8, 112u8, 101u8, 32u8, 84u8, 97u8, 114u8, 103u8, 101u8, 116u8, 32u8, 61u8, 32u8];
    proof {
        assert(r@ =~= l_deref2());
    }
    r
}

/// `;\n    fn deref(&self) -> &Self::Target {\n        &self.0\n    }\n}\n`
pub open spec fn l_deref3() -> Seq<u8> {
    seq![59u8, 10u8, 32u8, 32u8, 32u8, 32u8, 102u8, 110u8, 32u8, 100u8, 101u8, 114u8, 101u8, 102u8, 40u8, 38u8, 115u8, 101u8, 108u8, 102u8, 41u8, 32u8, 45u8, 62u8, 32u8, 38u8, 83u8, 101u8, 108u8, 102u8, 58u8, 58u8, 84u8, 97u8, 114u8, 103u8, 101u8, 116u8, 32u8, 123u8, 10u8, 32u8, 32u8, 32u8, 32u8, 32u8, 32u8, 32u8, 32u8, 38u8, 115u8, 101u8, 108u8, 102u8, 46u8, 48u8, 10u8, 32u8, 32u8, 32u8, 32u8, 125u8, 10u8, 125u8, 10u8]
}

fn l_deref3_v() -> (r: Vec<u8>)
    ensures
        r@ == l_deref3(),
{
    let r: Vec<u8> = vec![59u8, 10u8, 32u8, 32u8, 32u8, 32u8, 102u8, 110u8, 32u8, 100u8, 101u8, 114u8, 101u8, 102u8, 40u8, 38u8, 115u8, 101u8, 108u8, 102u8, 41u8, 32u8, 45u8, 62u8, 32u8, 38u8, 83u8, 101u8, 108u8, 102u8, 58u8, 58u8, 84u8, 97u8, 114u8, 103u8, 101u8, 116u8, 32u8, 123u8, 10u8, 32u8, 32u8, 32u8, 32u8, 32u8, 32u8, 32u8, 32u8, 38u8, 115u8, 101u8, 108u8, 102u8, 46u8, 48u8, 10u8, 32u8, 32u8, 32u8, 32u8, 125u8, 10u8, 125u8, 10u8];
    proof {
        assert(r@ =~= l_deref3());
    }
    r
}

/// `impl DerefMut for `
pub open spec fn l_derefmut1() -> Seq<u8> {
    seq![105u8, 109u8, 112u8, 108u8, 32u8, 68u8, 101u8, 114u8, 101u8, 102u8, 77u8, 117u8, 116u8, 32u8, 102u8, 111u8, 114u8, 32u8]
}

fn l_derefmut1_v() -> (r: Vec<u8>)
    ensures
        r@ == l_derefmut1(),
{
    let r: Vec<u8> = vec![105u8, 109u8, 112u8, 108u8, 32u8, 68u8, 101u8, 114u8, 101u8, 102u8, 77u8, 117u8, 116u8, 32u8, 102u8, 111u8, 114u8, 32u8];
    proof {
        assert(r@ =~= l_derefmut1());
    }
    r
}

/// `a fixed emitted fragment`
pub open spec fn l_derefmut2() -> Seq<u8> {
    seq![32u8, 123u8, 10u8, 32u8, 32u8, 32u8, 32u8, 102u8, 110u8, 32u8, 100u8, 101u8, 114u8, 101u8, 102u8, 95u8, 109u8, 117u8, 116u8, 40u8, 38u8, 109u8, 117u8, 116u8, 32u8, 115u8, 101u8, 108u8, 102u8, 41u8, 32u8, 45u8, 62u8, 32u8, 38u8, 109u8, 117u8, 116u8, 32u8, 83u8, 101u8, 108u8, 102u8, 58u8, 58u8, 84u8, 97u8, 114u8, 103u8, 101u8, 116u8, 32u8, 123u8, 10u8, 32u8, 32u8, 32u8, 32u8, 32u8, 32u8, 32u8, 32u8, 38u8, 109u8, 117u8, 116u8, 32u8, 115u8, 101u8, 108u8, 102u8, 46u8, 48u8, 10u8, 32u8, 32u8, 32u8, 32u8, 125u8, 10u8, 125u8, 10u8]
}

fn l_derefmut2_v() -> (r: Vec<u8>)
    ensures
        r@ == l_derefmut2(),
{
    let r: Vec<u8> = vec![32u8, 123u8, 10u8, 32u8, 32u8, 32u8, 32u8, 102u8, 110u8, 32u8, 100u8, 101u8, 114u8, 101u8, 102u8, 95u8, 109u8, 117u8, 116u8, 40u8, 38u8, 109u8, 117u8, 116u8, 32u8, 115u8, 101u8, 108u8, 102u8, 41u8, 32u8, 45u8, 62u8, 32u8, 38u8, 109u8, 117u8, 116u8, 32u8, 83u8, 101u8, 108u8, 102u8, 58u8, 58u8, 84u8, 97u8, 114u8, 103u8, 101u8, 116u8, 32u8, 123u8, 10u8, 32u8, 32u8, 32u8, 32u8, 32u8, 32u8, 32u8, 32u8, 38u8, 109u8, 117u8, 116u8, 32u8, 115u8, 101u8, 108u8, 102u8, 46u8, 48u8, 10u8, 32u8, 32u8, 32u8, 32u8, 125u8, 10u8, 125u8, 10u8];
    proof {
        assert(r@ =~= l_derefmut2());
    }
    r
}

/// `a fixed emitted fragment`
pub open spec fn l_stryfrom2() -> Seq<u8> {
    seq![32u8, 123u8, 10u8, 32u8, 32u8, 32u8, 32u8, 116u8, 121u8, 112u8, 101u8, 32u8, 69u8, 114u8, 114u8, 111u8, 114u8, 32u8, 61u8, 32u8, 67u8, 111u8, 110u8, 116u8, 114u8, 111u8, 108u8, 86u8, 97u8, 108u8, 117u8, 101u8, 69u8, 114u8, 114u8, 111u8, 114u8, 59u8, 10u8, 32u8, 32u8, 32u8, 32u8, 102u8, 110u8, 32u8, 116u8, 114u8, 121u8, 95u8, 102u8, 114u8, 111u8, 109u8, 40u8, 118u8, 97u8, 108u8, 117u8, 101u8, 58u8, 32u8, 67u8, 111u8, 110u8, 116u8, 114u8, 111u8, 108u8, 86u8, 97u8, 108u8, 117u8, 101u8, 41u8, 32u8, 45u8, 62u8, 32u8, 82u8, 101u8, 115u8, 117u8, 108u8, 116u8, 60u8, 83u8, 101u8, 108u8, 102u8, 44u8, 32u8, 83u8, 101u8, 108u8, 102u8, 58u8, 58u8, 69u8, 114u8, 114u8, 111u8, 114u8, 62u8, 32u8, 123u8, 10u8, 32u8, 32u8, 32u8, 32u8, 32u8, 32u8, 32u8, 32u8, 79u8, 107u8, 40u8, 83u8, 101u8, 108u8, 102u8, 40u8, 60u8]
}

fn l_stryfrom2_v() -> (r: Vec<u8>)
    ensures
        r@ == l_stryfrom2(),
{
    let r: Vec<u8> = vec![32u8, 123u8, 10u8, 32u8, 32u8, 32u8, 32u8, 116u8, 121u8, 112u8, 101u8, 32u8, 69u8, 114u8, 114u8, 111u8, 114u8, 32u8, 61u8, 32u8, 67u8, 111u8, 110u8, 116u8, 114u8, 111u8, 108u8, 86u8, 97u8, 108u8, 117u8, 101u8, 69u8, 114u8, 114u8, 111u8, 114u8, 59u8, 10u8, 32u8, 32u8, 32u8, 32u8, 102u8, 110u8, 32u8, 116u8, 114u8, 121u8, 95u8, 102u8, 114u8, 111u8, 109u8, 40u8, 118u8, 97u8, 108u8, 117u8, 101u8, 58u8, 32u8, 67u8, 111u8, 110u8, 116u8, 114u8, 111u8, 108u8, 86u8, 97u8, 108u8, 117u8, 101u8, 41u8, 32u8, 45u8, 62u8, 32u8, 82u8, 101u8, 115u8, 117u8, 108u8, 116u8, 60u8, 83u8, 101u8, 108u8, 102u8, 44u8, 32u8, 83u8, 101u8, 108u8, 102u8, 58u8, 58u8, 69u8, 114u8, 114u8, 111u8, 114u8, 62u8, 32u8, 123u8, 10u8, 32u8, 32u8, 32u8, 32u8, 32u8, 32u8, 32u8, 32u8, 79u8, 107u8, 40u8, 83u8, 101u8, 108u8, 102u8, 40u8, 60u8];
    proof {
        assert(r@ =~= l_stryfrom2());
    }
    r
}

/// `>::try_from(value)?))\n    }\n}\n`
pub open spec fn l_stryfrom3() -> Seq<u8> {
    seq![62u8, 58u8, 58u8, 116u8, 114u8, 121u8, 95u8, 102u8, 114u8, 111u8, 109u8, 40u8, 118u8, 97u8, 108u8, 117u8, 101u8, 41u8, 63u8, 41u8, 41u8, 10u8, 32u8, 32u8, 32u8, 32u8, 125u8, 10u8, 125u8, 10u8]
}

fn l_stryfrom3_v() -> (r: Vec<u8>)
    ensures
        r@ == l_stryfrom3(),
{
    let r: Vec<u8> = vec![62u8, 58u8, 58u8, 116u8, 114u8, 121u8, 95u8, 102u8, 114u8, 111u8, 109u8, 40u8, 118u8, 97u8, 108u8, 117u8, 101u8, 41u8, 63u8, 41u8, 41u8, 10u8, 32u8, 32u8, 32u8, 32u8, 125u8, 10u8, 125u8, 10u8];
    proof {
        assert(r@ =~= l_stryfrom3());
    }
    r
}

/// `) -> Self {\n        ControlValue::from(val.0)\n    }\n}\n`
pub open spec fn l_sfrom3() -> Seq<u8> {
    seq![41u8, 32u8, 45u8, 62u8, 32u8, 83u8, 101u8, 108u8, 102u8, 32u8, 123u8, 10u8, 32u8, 32u8, 32u8, 32u8, 32u8, 32u8, 32u8, 32u8, 67u8, 111u8, 110u8, 116u8, 114u8, 111u8, 108u8, 86u8, 97u8, 108u8, 117u8, 101u8, 58u8, 58u8, 102u8, 114u8, 111u8, 109u8, 40u8, 118u8, 97u8, 108u8, 46u8, 48u8, 41u8, 10u8, 32u8, 32u8, 32u8, 32u8, 125u8, 10u8, 125u8, 10u8]
}

fn l_sfrom3_v() -> (r: Vec<u8>)
    ensures
        r@ == l_sfrom3(),
{
    let r: Vec<u8> = vec![41u8, 32u8, 45u8, 62u8, 32u8, 83u8, 101u8, 108u8, 102u8, 32u8, 123u8, 10u8, 32u8, 32u8, 32u8, 32u8, 32u8, 32u8, 32u8, 32u8, 67u8, 111u8, 110u8, 116u8, 114u8, 111u8, 108u8, 86u8, 97u8, 108u8, 117u8, 101u8, 58u8, 58u8, 102u8, 114u8, 111u8, 109u8, 40u8, 118u8, 97u8, 108u8, 46u8, 48u8, 41u8, 10u8, 32u8, 32u8, 32u8, 32u8, 125u8, 10u8, 125u8, 10u8];
    proof {
        assert(r@ =~= l_sfrom3());
    }
    r
}

/// `impl ControlEntry for `
pub open spec fn l_entry1() -> Seq<u8> {
    seq![105u8, 109u8, 112u8, 108u8, 32u8, 67u8, 111u8, 110u8, 116u8, 114u8, 111u8, 108u8, 69u8, 110u8, 116u8, 114u8, 121u8, 32u8, 102u8, 111u8, 114u8, 32u8]
}

fn l_entry1_v() -> (r: Vec<u8>)
    ensures
        r@ == l_entry1(),
{
    let r: Vec<u8> = vec![105u8, 109u8, 112u8, 108u8, 32u8, 67u8, 111u8, 110u8, 116u8, 114u8, 111u8, 108u8, 69u8, 110u8, 116u8, 114u8, 121u8, 32u8, 102u8, 111u8, 114u8, 32u8];
    proof {
        assert(r@ =~= l_entry1());
    }
    r
}

/// ` {\n    const ID: u32 = `
pub open spec fn l_entry2() -> Seq<u8> {
    seq![32u8, 123u8, 10u8, 32u8, 32u8, 32u8, 32u8, 99u8, 111u8, 110u8, 115u8, 116u8, 32u8, 73u8, 68u8, 58u8, 32u8, 117u8, 51u8, 50u8, 32u8, 61u8, 32u8]
}

fn l_entry2_v() -> (r: Vec<u8>)
    ensures
        r@ == l_entry2(),
{
    let r: Vec<u8> = vec![32u8, 123u8, 10u8, 32u8, 32u8, 32u8, 32u8, 99u8, 111u8, 110u8, 115u8, 116u8, 32u8, 73u8, 68u8, 58u8, 32u8, 117u8, 51u8, 50u8, 32u8, 61u8, 32u8];
    proof {
        assert(r@ =~= l_entry2());
    }
    r
}

/// ` as _;\n}\n`
pub open spec fn l_entry3() -> Seq<u8> {
    seq![32u8, 97u8, 115u8, 32u8, 95u8, 59u8, 10u8, 125u8, 10u8]
}

fn l_entry3_v() -> (r: Vec<u8>)
    ensures
        r@ == l_entry3(),
{
    let r: Vec<u8> = vec![32u8, 97u8, 115u8, 32u8, 95u8, 59u8, 10u8, 125u8, 10u8];
    proof {
        assert(r@ =~= l_entry3());
    }
    r
}

/// `impl Control for `
pub open spec fn l_impl_control() -> Seq<u8> {
    seq![105u8, 109u8, 112u8, 108u8, 32u8, 67u8, 111u8, 110u8, 116u8, 114u8, 111u8, 108u8, 32u8, 102u8, 111u8, 114u8, 32u8]
}

fn l_impl_control_v() -> (r: Vec<u8>)
    ensures
        r@ == l_impl_control(),
{
    let r: Vec<u8> = vec![105u8, 109u8, 112u8, 108u8, 32u8, 67u8, 111u8, 110u8, 116u8, 114u8, 111u8, 108u8, 32u8, 102u8, 111u8, 114u8, 32u8];
    proof {
        assert(r@ =~= l_impl_control());
    }
    r
}

/// `impl Property for `
pub open spec fn l_impl_property() -> Seq<u8> {
    seq![105u8, 109u8, 112u8, 108u8, 32u8, 80u8, 114u8, 111u8, 112u8, 101u8, 114u8, 116u8, 121u8, 32u8, 102u8, 111u8, 114u8, 32u8]
}

fn l_impl_property_v() -> (r: Vec<u8>)
    ensures
        r@ == l_impl_property(),
{
    let r: Vec<u8> = vec![105u8, 109u8, 112u8, 108u8, 32u8, 80u8, 114u8, 111u8, 112u8, 101u8, 114u8, 116u8, 121u8, 32u8, 102u8, 111u8, 114u8, 32u8];
    proof {
        assert(r@ =~= l_impl_property());
    }
    r
}

/// ` {}\n`
pub open spec fn l_unit_impl() -> Seq<u8> {
    seq![32u8, 123u8, 125u8, 10u8]
}

fn l_unit_impl_v() -> (r: Vec<u8>)
    ensures
        r@ == l_unit_impl(),
{
    let r: Vec<u8> = vec![32u8, 123u8, 125u8, 10u8];
    proof {
        assert(r@ =~= l_unit_impl());
    }
    r
}

/// ` => Ok(Box::new(`
pub open spec fn l_dyn1() -> Seq<u8> {
    seq![32u8, 61u8, 62u8, 32u8, 79u8, 107u8, 40u8, 66u8, 111u8, 120u8, 58u8, 58u8, 110u8, 101u8, 119u8, 40u8]
}

fn l_dyn1_v() -> (r: Vec<u8>)
    ensures
        r@ == l_dyn1(),
{
    let r: Vec<u8> = vec![32u8, 61u8, 62u8, 32u8, 79u8, 107u8, 40u8, 66u8, 111u8, 120u8, 58u8, 58u8, 110u8, 101u8, 119u8, 40u8];
    proof {
        assert(r@ =~= l_dyn1());
    }
    r
}

/// `::try_from(val)?)),\n`
pub open spec fn l_dyn2() -> Seq<u8> {
    seq![58u8, 58u8, 116u8, 114u8, 121u8, 95u8, 102u8, 114u8, 111u8, 109u8, 40u8, 118u8, 97u8, 108u8, 41u8, 63u8, 41u8, 41u8, 44u8, 10u8]
}

fn l_dyn2_v() -> (r: Vec<u8>)
    ensures
        r@ == l_dyn2(),
{
    let r: Vec<u8> = vec![58u8, 58u8, 116u8, 114u8, 121u8, 95u8, 102u8, 114u8, 111u8, 109u8, 40u8, 118u8, 97u8, 108u8, 41u8, 63u8, 41u8, 41u8, 44u8, 10u8];
    proof {
        assert(r@ =~= l_dyn2());
    }
    r
}

/// `pub fn make_dyn(id: `
pub open spec fn l_makedyn1() -> Seq<u8> {
    seq![112u8, 117u8, 98u8, 32u8, 102u8, 110u8, 32u8, 109u8, 97u8, 107u8, 101u8, 95u8, 100u8, 121u8, 110u8, 40u8, 105u8, 100u8, 58u8, 32u8]
}

fn l_makedyn1_v() -> (r: Vec<u8>)
    ensures
        r@ == l_makedyn1(),
{
    let r: Vec<u8> = vec![112u8, 117u8, 98u8, 32u8, 102u8, 110u8, 32u8, 109u8, 97u8, 107u8, 101u8, 95u8, 100u8, 121u8, 110u8, 40u8, 105u8, 100u8, 58u8, 32u8];
    proof {
        assert(r@ =~= l_makedyn1());
    }
    r
}

/// `a fixed emitted fragment`
pub open spec fn l_makedyn2() -> Seq<u8> {
    seq![44u8, 32u8, 118u8, 97u8, 108u8, 58u8, 32u8, 67u8, 111u8, 110u8, 116u8, 114u8, 111u8, 108u8, 86u8, 97u8, 108u8, 117u8, 101u8, 41u8, 32u8, 45u8, 62u8, 32u8, 82u8, 101u8, 115u8, 117u8, 108u8, 116u8, 60u8, 66u8, 111u8, 120u8, 60u8, 100u8, 121u8, 110u8, 32u8, 68u8, 121u8, 110u8, 67u8, 111u8, 110u8, 116u8, 114u8, 111u8, 108u8, 69u8, 110u8, 116u8, 114u8, 121u8, 62u8, 44u8, 32u8, 67u8, 111u8, 110u8, 116u8, 114u8, 111u8, 108u8, 86u8, 97u8, 108u8, 117u8, 101u8, 69u8, 114u8, 114u8, 111u8, 114u8, 62u8, 32u8, 123u8, 10u8, 32u8, 32u8, 32u8, 32u8, 109u8, 97u8, 116u8, 99u8, 104u8, 32u8, 105u8, 100u8, 32u8, 123u8, 10u8]
}

fn l_makedyn2_v() -> (r: Vec<u8>)
    ensures
        r@ == l_makedyn2(),
{
    let r: Vec<u8> = vec![44u8, 32u8, 118u8, 97u8, 108u8, 58u8, 32u8, 67u8, 111u8, 110u8, 116u8, 114u8, 111u8, 108u8, 86u8, 97u8, 108u8, 117u8, 101u8, 41u8, 32u8, 45u8, 62u8, 32u8, 82u8, 101u8, 115u8, 117u8, 108u8, 116u8, 60u8, 66u8, 111u8, 120u8, 60u8, 100u8, 121u8, 110u8, 32u8, 68u8, 121u8, 110u8, 67u8, 111u8, 110u8, 116u8, 114u8, 111u8, 108u8, 69u8, 110u8, 116u8, 114u8, 121u8, 62u8, 44u8, 32u8, 67u8, 111u8, 110u8, 116u8, 114u8, 111u8, 108u8, 86u8, 97u8, 108u8, 117u8, 101u8, 69u8, 114u8, 114u8, 111u8, 114u8, 62u8, 32u8, 123u8, 10u8, 32u8, 32u8, 32u8, 32u8, 109u8, 97u8, 116u8, 99u8, 104u8, 32u8, 105u8, 100u8, 32u8, 123u8, 10u8];
    proof {
        assert(r@ =~= l_makedyn2());
    }
    r
}

/// `    }\n}\n`
pub open spec fn l_makedyn3() -> Seq<u8> {
    seq![32u8, 32u8, 32u8, 32u8, 125u8, 10u8, 125u8, 10u8]
}

fn l_makedyn3_v() -> (r: Vec<u8>)
    ensures
        r@ == l_makedyn3(),
{
    let r: Vec<u8> = vec![32u8, 32u8, 32u8, 32u8, 125u8, 10u8, 125u8, 10u8];
    proof {
        assert(r@ =~= l_makedyn3());
    }
    r
}

/// `ControlId`
pub open spec fn l_kw_controlid() -> Seq<u8> {
    seq![67u8, 111u8, 110u8, 116u8, 114u8, 111u8, 108u8, 73u8, 100u8]
}

fn l_kw_controlid_v() -> (r: Vec<u8>)
    ensures
        r@ == l_kw_controlid(),
{
    let r: Vec<u8> = vec![67u8, 111u8, 110u8, 116u8, 114u8, 111u8, 108u8, 73u8, 100u8];
    proof {
        assert(r@ =~= l_kw_controlid());
    }
    r
}

/// `PropertyId`
pub open spec fn l_kw_propertyid() -> Seq<u8> {
    seq![80u8, 114u8, 111u8, 112u8, 101u8, 114u8, 116u8, 121u8, 73u8, 100u8]
}

fn l_kw_propertyid_v() -> (r: Vec<u8>)
    ensures
        r@ == l_kw_propertyid(),
{
    let r: Vec<u8> = vec![80u8, 114u8, 111u8, 112u8, 101u8, 114u8, 116u8, 121u8, 73u8, 100u8];
    proof {
        assert(r@ =~= l_kw_propertyid());
    }
    r
}

/// The kind of schema being emitted.
#[derive(Debug, Clone, Copy, PartialEq, Eq, Structural)]
pub enum ControlsType {
    Control,
    Property,
}

/// The identifier enum name for the kind.
pub open spec fn spec_kind_name(ty: ControlsType) -> Seq<u8> {
    match ty {
        ControlsType::Control => l_kw_controlid(),
        ControlsType::Property => l_kw_propertyid(),
    }
}

fn kind_name(ty: ControlsType) -> (r: Vec<u8>)
    ensures
        r@ == spec_kind_name(ty),
{
    match ty {
        ControlsType::Control => l_kw_controlid_v(),
        ControlsType::Property => l_kw_propertyid_v(),
    }
}

/// The vendor feature gate of a control: empty for the default namespace.
pub open spec fn spec_gate(vendor: Seq<u8>) -> Seq<u8> {
    if vendor == crate::meta::vendor_libcamera() {
        Seq::empty()
    } else {
        l_gate1() + vendor + l_gate2()
    }
}

fn render_gate(c: &Control) -> (r: Vec<u8>)
    ensures
        r@ == spec_gate(c.vendor@),
{
    let lib = crate::meta::vendor_libcamera_bytes();
    if crate::text::bytes_eq(c.vendor.as_slice(), lib.as_slice()) {
        Vec::new()
    } else {
        let mut out = l_gate1_v();
        push_bytes(&mut out, c.vendor.as_slice());
        let g2 = l_gate2_v();
        push_bytes(&mut out, g2.as_slice());
        proof {
            assert(out@ =~= l_gate1() + c.vendor@ + l_gate2());
        }
        out
    }
}

/// One variant line of the identifier enum.
pub open spec fn spec_variant_line(c: ControlView) -> Seq<u8> {
    spec_format_docstring(c.description, 4) + spec_spaces(4) + spec_gate(c.vendor) + c.name
        + l_eq_sign() + spec_upper(spec_to_c_type_name(c.name)) + l_comma_nl()
}

fn render_variant_line(c: &Control) -> (r: Vec<u8>)
    ensures
        r@ == spec_variant_line(control_view(*c)),
{
    let mut out = format_docstring(c.description.as_slice(), 4);
    let ind = spaces(4);
    push_bytes(&mut out, ind.as_slice());
    let gate = render_gate(c);
    push_bytes(&mut out, gate.as_slice());
    push_bytes(&mut out, c.name.as_slice());
    let eq = l_eq_sign_v();
    push_bytes(&mut out, eq.as_slice());
    let cname = to_c_type_name(c.name.as_slice());
    let upper = to_ascii_upper(cname.as_slice());
    push_bytes(&mut out, upper.as_slice());
    let cm = l_comma_nl_v();
    push_bytes(&mut out, cm.as_slice());
    proof {
        assert(out@ =~= spec_variant_line(control_view(*c)));
    }
    out
}

/// One description-accessor match arm.
pub open spec fn spec_desc_arm(c: ControlView, kw: Seq<u8>) -> Seq<u8> {
    spec_gate(c.vendor) + spec_spaces(8) + kw + l_colons() + c.name + l_arrow_quote()
        + spec_escape(c.description) + l_quote_comma()
}

fn render_desc_arm(c: &Control, kw: &[u8]) -> (r: Vec<u8>)
    ensures
        r@ == spec_desc_arm(control_view(*c), kw@),
{
    let mut out = render_gate(c);
    let ind = spaces(8);
    push_bytes(&mut out, ind.as_slice());
    push_bytes(&mut out, kw);
    let col = l_colons_v();
    push_bytes(&mut out, col.as_slice());
    push_bytes(&mut out, c.name.as_slice());
    let aq = l_arrow_quote_v();
    push_bytes(&mut out, aq.as_slice());
    let esc = escape_string(c.description.as_slice());
    push_bytes(&mut out, esc.as_slice());
    let qc = l_quote_comma_v();
    push_bytes(&mut out, qc.as_slice());
    proof {
        assert(out@ =~= spec_desc_arm(control_view(*c), kw@));
    }
    out
}

/// One value line of an enumerated control's generated enum: the value
/// name with the control name removed, and the numeric tag.
pub open spec fn spec_enum_value_line(v: EnumValueView, cname: Seq<u8>) -> Seq<u8> {
    spec_format_docstring(v.description, 4) + spec_spaces(4) + spec_remove_all(v.name, 0, cname)
        + l_eq_sign() + spec_dec_i64(v.value as int) + l_comma_nl()
}

fn render_enum_value_line(v: &crate::meta::ControlEnumValue, cname: &[u8]) -> (r: Vec<u8>)
    ensures
        r@ == spec_enum_value_line(crate::meta::enum_value_view(*v), cname@),
{
    let mut out = format_docstring(v.description.as_slice(), 4);
    let ind = spaces(4);
    push_bytes(&mut out, ind.as_slice());
    let nm = remove_all(v.name.as_slice(), cname);
    push_bytes(&mut out, nm.as_slice());
    let eq = l_eq_sign_v();
    push_bytes(&mut out, eq.as_slice());
    let val = render_dec_i64(v.value);
    push_bytes(&mut out, val.as_slice());
    let cm = l_comma_nl_v();
    push_bytes(&mut out, cm.as_slice());
    proof {
        assert(out@ =~= spec_enum_value_line(crate::meta::enum_value_view(*v), cname@));
    }
    out
}

/// The value lines of an enumeration, from `i` on.
pub open spec fn spec_enum_value_lines(vs: Seq<EnumValueView>, i: int, cname: Seq<u8>) -> Seq<u8>
    decreases vs.len() - i,
{
    if i < 0 || i >= vs.len() {
        Seq::empty()
    } else {
        spec_enum_value_line(vs[i], cname) + spec_enum_value_lines(vs, i + 1, cname)
    }
}

fn render_enum_value_lines(vs: &Vec<crate::meta::ControlEnumValue>, cname: &[u8]) -> (r: Vec<u8>)
    ensures
        r@ == spec_enum_value_lines(
            vs@.map_values(|e: crate::meta::ControlEnumValue| crate::meta::enum_value_view(e)),
            0,
            cname@,
        ),
{
    let ghost gvs = vs@.map_values(
        |e: crate::meta::ControlEnumValue| crate::meta::enum_value_view(e),
    );
    let n = vs.len();
    let mut out: Vec<u8> = Vec::new();
    proof {
        assert(Seq::<u8>::empty() + spec_enum_value_lines(gvs, 0, cname@) =~= spec_enum_value_lines(
            gvs,
            0,
            cname@,
        ));
    }
    for i in 0..n
        invariant
            n == vs@.len(),
            gvs == vs@.map_values(
                |e: crate::meta::ControlEnumValue| crate::meta::enum_value_view(e),
            ),
            spec_enum_value_lines(gvs, 0, cname@) == out@ + spec_enum_value_lines(
                gvs,
                i as int,
                cname@,
            ),
    {
        let line = render_enum_value_line(&vs[i], cname);
        let ghost pre = out@;
        push_bytes(&mut out, line.as_slice());
        proof {
            assert(gvs[i as int] == crate::meta::enum_value_view(vs@[i as int]));
            assert(out@ + spec_enum_value_lines(gvs, i + 1, cname@) =~= pre
                + spec_enum_value_lines(gvs, i as int, cname@));
        }
    }
    out
}

/// The generated enum declaration of an enumerated control.
pub open spec fn spec_enum_decl(c: ControlView, vs: Seq<EnumValueView>) -> Seq<u8> {
    spec_gate(c.vendor) + l_ederive() + spec_to_rust_type(c.typ, c.size) + l_repr_close()
        + c.name + l_brace_open() + spec_enum_value_lines(vs, 0, c.name) + l_brace_close()
}

/// The generated conversion from an untyped value, enumerated form.
pub open spec fn spec_enum_tryfrom(c: ControlView) -> Seq<u8> {
    spec_gate(c.vendor) + l_tryfrom1() + c.name + l_tryfrom2() + spec_to_rust_type(
        c.typ,
        c.size,
    ) + l_tryfrom3()
}

/// The generated conversion into an untyped value, enumerated form.
pub open spec fn spec_enum_from(c: ControlView) -> Seq<u8> {
    spec_gate(c.vendor) + l_from1() + c.name + l_from2() + c.name + l_from3()
        + spec_to_rust_type(c.typ, c.size) + l_from4()
}

/// The generated wrapper struct of a scalar control.
pub open spec fn spec_struct_decl(c: ControlView) -> Seq<u8> {
    spec_gate(c.vendor) + l_struct1() + c.name + l_struct2() + spec_to_rust_type(c.typ, c.size)
        + l_struct3()
}

pub open spec fn spec_struct_deref(c: ControlView) -> Seq<u8> {
    spec_gate(c.vendor) + l_deref1() + c.name + l_deref2() + spec_to_rust_type(c.typ, c.size)
        + l_deref3()
}

pub open spec fn spec_struct_derefmut(c: ControlView) -> Seq<u8> {
    spec_gate(c.vendor) + l_derefmut1() + c.name + l_derefmut2()
}

pub open spec fn spec_struct_tryfrom(c: ControlView) -> Seq<u8> {
    spec_gate(c.vendor) + l_tryfrom1() + c.name + l_stryfrom2() + spec_to_rust_type(
        c.typ,
        c.size,
    ) + l_stryfrom3()
}

pub open spec fn spec_struct_from(c: ControlView) -> Seq<u8> {
    spec_gate(c.vendor) + l_from1() + c.name + l_from2() + c.name + l_sfrom3()
}

/// The generated entry capability of a control.
pub open spec fn spec_entry_impl(c: ControlView, kw: Seq<u8>) -> Seq<u8> {
    spec_gate(c.vendor) + l_entry1() + c.name + l_entry2() + kw + l_colons() + c.name
        + l_entry3()
}

/// The generated marker-trait implementation of a control.
pub open spec fn spec_trait_impl(c: ControlView, ty: ControlsType) -> Seq<u8> {
    spec_gate(c.vendor) + (match ty {
        ControlsType::Control => l_impl_control(),
        ControlsType::Property => l_impl_property(),
    }) + c.name + l_unit_impl()
}

/// The full generated text for one control: its typed declaration, the
/// conversions into and out of an untyped value, and its entry capability.
pub open spec fn spec_control_body(c: ControlView, kw: Seq<u8>, ty: ControlsType) -> Seq<u8> {
    let decl = match c.enumeration {
        Some(vs) => spec_enum_decl(c, vs) + spec_enum_tryfrom(c) + spec_enum_from(c),
        None => spec_struct_decl(c) + spec_struct_deref(c) + spec_struct_derefmut(c)
            + spec_struct_tryfrom(c) + spec_struct_from(c),
    };
    spec_format_docstring(c.description, 0) + decl + spec_entry_impl(c, kw) + spec_trait_impl(
        c,
        ty,
    )
}

fn render_enum_decl(c: &Control, vs: &Vec<crate::meta::ControlEnumValue>) -> (r: Vec<u8>)
    requires
        c.size matches Some(s) ==> spec_valid_size(s@),
        c.enumeration matches Some(e) && e@ == vs@,
    ensures
        r@ == spec_enum_decl(
            control_view(*c),
            vs@.map_values(|e: crate::meta::ControlEnumValue| crate::meta::enum_value_view(e)),
        ),
{
    let rust_ty = to_rust_type(c.typ, &c.size);
    let mut out = render_gate(c);
    let p = l_ederive_v();
    push_bytes(&mut out, p.as_slice());
    push_bytes(&mut out, rust_ty.as_slice());
    let p = l_repr_close_v();
    push_bytes(&mut out, p.as_slice());
    push_bytes(&mut out, c.name.as_slice());
    let p = l_brace_open_v();
    push_bytes(&mut out, p.as_slice());
    let lines = render_enum_value_lines(vs, c.name.as_slice());
    push_bytes(&mut out, lines.as_slice());
    let p = l_brace_close_v();
    push_bytes(&mut out, p.as_slice());
    proof {
        assert(out@ =~= spec_enum_decl(
            control_view(*c),
            vs@.map_values(|e: crate::meta::ControlEnumValue| crate::meta::enum_value_view(e)),
        ));
    }
    out
}

fn render_enum_tryfrom(c: &Control) -> (r: Vec<u8>)
    requires
        c.size matches Some(s) ==> spec_valid_size(s@),
    ensures
        r@ == spec_enum_tryfrom(control_view(*c)),
{
    let rust_ty = to_rust_type(c.typ, &c.size);
    let mut out = render_gate(c);
    let p = l_tryfrom1_v();
    push_bytes(&mut out, p.as_slice());
    push_bytes(&mut out, c.name.as_slice());
    let p = l_tryfrom2_v();
    push_bytes(&mut out, p.as_slice());
    push_bytes(&mut out, rust_ty.as_slice());
    let p = l_tryfrom3_v();
    push_bytes(&mut out, p.as_slice());
    proof {
        assert(out@ =~= spec_enum_tryfrom(control_view(*c)));
    }
    out
}

fn render_enum_from(c: &Control) -> (r: Vec<u8>)
    requires
        c.size matches Some(s) ==> spec_valid_size(s@),
    ensures
        r@ == spec_enum_from(control_view(*c)),
{
    let rust_ty = to_rust_type(c.typ, &c.size);
    let mut out = render_gate(c);
    let p = l_from1_v();
    push_bytes(&mut out, p.as_slice());
    push_bytes(&mut out, c.name.as_slice());
    let p = l_from2_v();
    push_bytes(&mut out, p.as_slice());
    push_bytes(&mut out, c.name.as_slice());
    let p = l_from3_v();
    push_bytes(&mut out, p.as_slice());
    push_bytes(&mut out, rust_ty.as_slice());
    let p = l_from4_v();
    push_bytes(&mut out, p.as_slice());
    proof {
        assert(out@ =~= spec_enum_from(control_view(*c)));
    }
    out
}

fn render_struct_decl(c: &Control) -> (r: Vec<u8>)
    requires
        c.size matches Some(s) ==> spec_valid_size(s@),
    ensures
        r@ == spec_struct_decl(control_view(*c)),
{
    let rust_ty = to_rust_type(c.typ, &c.size);
    let mut out = render_gate(c);
    let p = l_struct1_v();
    push_bytes(&mut out, p.as_slice());
    push_bytes(&mut out, c.name.as_slice());
    let p = l_struct2_v();
    push_bytes(&mut out, p.as_slice());
    push_bytes(&mut out, rust_ty.as_slice());
    let p = l_struct3_v();
    push_bytes(&mut out, p.as_slice());
    proof {
        assert(out@ =~= spec_struct_decl(control_view(*c)));
    }
    out
}

fn render_struct_deref(c: &Control) -> (r: Vec<u8>)
    requires
        c.size matches Some(s) ==> spec_valid_size(s@),
    ensures
        r@ == spec_struct_deref(control_view(*c)),
{
    let rust_ty = to_rust_type(c.typ, &c.size);
    let mut out = render_gate(c);
    let p = l_deref1_v();
    push_bytes(&mut out, p.as_slice());
    push_bytes(&mut out, c.name.as_slice());
    let p = l_deref2_v();
    push_bytes(&mut out, p.as_slice());
    push_bytes(&mut out, rust_ty.as_slice());
    let p = l_deref3_v();
    push_bytes(&mut out, p.as_slice());
    proof {
        assert(out@ =~= spec_struct_deref(control_view(*c)));
    }
    out
}

fn render_struct_derefmut(c: &Control) -> (r: Vec<u8>)
    ensures
        r@ == spec_struct_derefmut(control_view(*c)),
{
    let mut out = render_gate(c);
    let p = l_derefmut1_v();
    push_bytes(&mut out, p.as_slice());
    push_bytes(&mut out, c.name.as_slice());
    let p = l_derefmut2_v();
    push_bytes(&mut out, p.as_slice());
    proof {
        assert(out@ =~= spec_struct_derefmut(control_view(*c)));
    }
    out
}

fn render_struct_tryfrom(c: &Control) -> (r: Vec<u8>)
    requires
        c.size matches Some(s) ==> spec_valid_size(s@),
    ensures
        r@ == spec_struct_tryfrom(control_view(*c)),
{
    let rust_ty = to_rust_type(c.typ, &c.size);
    let mut out = render_gate(c);
    let p = l_tryfrom1_v();
    push_bytes(&mut out, p.as_slice());
    push_bytes(&mut out, c.name.as_slice());
    let p = l_stryfrom2_v();
    push_bytes(&mut out, p.as_slice());
    push_bytes(&mut out, rust_ty.as_slice());
    let p = l_stryfrom3_v();
    push_bytes(&mut out, p.as_slice());
    proof {
        assert(out@ =~= spec_struct_tryfrom(control_view(*c)));
    }
    out
}

fn render_struct_from(c: &Control) -> (r: Vec<u8>)
    ensures
        r@ == spec_struct_from(control_view(*c)),
{
    let mut out = render_gate(c);
    let p = l_from1_v();
    push_bytes(&mut out, p.as_slice());
    push_bytes(&mut out, c.name.as_slice());
    let p = l_from2_v();
    push_bytes(&mut out, p.as_slice());
    push_bytes(&mut out, c.name.as_slice());
    let p = l_sfrom3_v();
    push_bytes(&mut out, p.as_slice());
    proof {
        assert(out@ =~= spec_struct_from(control_view(*c)));
    }
    out
}

fn render_entry_impl(c: &Control, kw: &[u8]) -> (r: Vec<u8>)
    ensures
        r@ == spec_entry_impl(control_view(*c), kw@),
{
    let mut out = render_gate(c);
    let p = l_entry1_v();
    push_bytes(&mut out, p.as_slice());
    push_bytes(&mut out, c.name.as_slice());
    let p = l_entry2_v();
    push_bytes(&mut out, p.as_slice());
    push_bytes(&mut out, kw);
    let p = l_colons_v();
    push_bytes(&mut out, p.as_slice());
    push_bytes(&mut out, c.name.as_slice());
    let p = l_entry3_v();
    push_bytes(&mut out, p.as_slice());
    proof {
        assert(out@ =~= spec_entry_impl(control_view(*c), kw@));
    }
    out
}

fn render_trait_impl(c: &Control, ty: ControlsType) -> (r: Vec<u8>)
    ensures
        r@ == spec_trait_impl(control_view(*c), ty),
{
    let mut out = render_gate(c);
    let ti = match ty {
        ControlsType::Control => l_impl_control_v(),
        ControlsType::Property => l_impl_property_v(),
    };
    push_bytes(&mut out, ti.as_slice());
    push_bytes(&mut out, c.name.as_slice());
    let p = l_unit_impl_v();
    push_bytes(&mut out, p.as_slice());
    proof {
        assert(out@ =~= spec_trait_impl(control_view(*c), ty));
    }
    out
}

/// Render the generated text for one control.
fn render_control_body(c: &Control, kw: &[u8], ty: ControlsType) -> (r: Vec<u8>)
    requires
        c.size matches Some(s) ==> spec_valid_size(s@),
    ensures
        r@ == spec_control_body(control_view(*c), kw@, ty),
{
    let mut out = format_docstring(c.description.as_slice(), 0);
    match &c.enumeration {
        Some(vs) => {
            let a = render_enum_decl(c, vs);
            push_bytes(&mut out, a.as_slice());
            let b = render_enum_tryfrom(c);
            push_bytes(&mut out, b.as_slice());
            let d = render_enum_from(c);
            push_bytes(&mut out, d.as_slice());
        },
        None => {
            let a = render_struct_decl(c);
            push_bytes(&mut out, a.as_slice());
            let b = render_struct_deref(c);
            push_bytes(&mut out, b.as_slice());
            let d = render_struct_derefmut(c);
            push_bytes(&mut out, d.as_slice());
            let e = render_struct_tryfrom(c);
            push_bytes(&mut out, e.as_slice());
            let f = render_struct_from(c);
            push_bytes(&mut out, f.as_slice());
        },
    }
    let g = render_entry_impl(c, kw);
    push_bytes(&mut out, g.as_slice());
    let h = render_trait_impl(c, ty);
    push_bytes(&mut out, h.as_slice());
    proof {
        assert(out@ =~= spec_control_body(control_view(*c), kw@, ty));
    }
    out
}

/// One dispatch arm of the generated `make_dyn` function.
pub open spec fn spec_dyn_line(c: ControlView, kw: Seq<u8>) -> Seq<u8> {
    spec_gate(c.vendor) + spec_spaces(8) + kw + l_colons() + c.name + l_dyn1() + c.name
        + l_dyn2()
}

fn render_dyn_line(c: &Control, kw: &[u8]) -> (r: Vec<u8>)
    ensures
        r@ == spec_dyn_line(control_view(*c), kw@),
{
    let mut out = render_gate(c);
    let ind = spaces(8);
    push_bytes(&mut out, ind.as_slice());
    push_bytes(&mut out, kw);
    let p = l_colons_v();
    push_bytes(&mut out, p.as_slice());
    push_bytes(&mut out, c.name.as_slice());
    let p = l_dyn1_v();
    push_bytes(&mut out, p.as_slice());
    push_bytes(&mut out, c.name.as_slice());
    let p = l_dyn2_v();
    push_bytes(&mut out, p.as_slice());
    proof {
        assert(out@ =~= spec_dyn_line(control_view(*c), kw@));
    }
    out
}

/// The concatenated per-control pieces of a section, from `i` on.
pub open spec fn spec_section_from(
    cs: Seq<ControlView>,
    i: int,
    kw: Seq<u8>,
    ty: ControlsType,
    which: int,
) -> Seq<u8>
    decreases cs.len() - i,
{
    if i < 0 || i >= cs.len() {
        Seq::empty()
    } else {
        let piece = if which == 0 {
            spec_variant_line(cs[i])
        } else if which == 1 {
            spec_desc_arm(cs[i], kw)
        } else if which == 2 {
            spec_control_body(cs[i], kw, ty)
        } else {
            spec_dyn_line(cs[i], kw)
        };
        piece + spec_section_from(cs, i + 1, kw, ty, which)
    }
}

/// The complete generated controls (or properties) module text: the
/// identifier enum, its id and description accessors, each control's typed
/// declaration, and the dynamic dispatch function.
pub open spec fn spec_generate_controls(cs: Seq<ControlView>, ty: ControlsType) -> Seq<u8> {
    let kw = spec_kind_name(ty);
    l_enum_derive() + kw + l_brace_open() + spec_section_from(cs, 0, kw, ty, 0)
        + l_brace_close() + l_impl() + kw + l_brace_open() + l_id_fn() + l_desc_open()
        + spec_section_from(cs, 0, kw, ty, 1) + l_desc_close() + l_brace_close()
        + spec_section_from(cs, 0, kw, ty, 2) + l_makedyn1() + kw + l_makedyn2()
        + spec_section_from(cs, 0, kw, ty, 3) + l_makedyn3()
}

/// Render one section of the module, per-control pieces in list order.
#[verifier::rlimit(100)]
fn render_section(controls: &Vec<Control>, kw: &[u8], ty: ControlsType, which: u8) -> (r: Vec<
    u8,
>)
    requires
        0 <= which <= 3,
        which == 2 ==> forall|i: int|
            0 <= i < controls@.len() ==> ((#[trigger] controls@[i].size) matches Some(s)
                ==> spec_valid_size(s@)),
    ensures
        r@ == spec_section_from(
            controls@.map_values(|c: Control| control_view(c)),
            0,
            kw@,
            ty,
            which as int,
        ),
{
    let ghost gcs = controls@.map_values(|c: Control| control_view(c));
    let n = controls.len();
    let mut out: Vec<u8> = Vec::new();
    proof {
        assert(Seq::<u8>::empty() + spec_section_from(gcs, 0, kw@, ty, which as int)
            =~= spec_section_from(gcs, 0, kw@, ty, which as int));
    }
    for i in 0..n
        invariant
            n == controls@.len(),
            0 <= which <= 3,
            gcs == controls@.map_values(|c: Control| control_view(c)),
            which == 2 ==> forall|j: int|
                0 <= j < controls@.len() ==> ((#[trigger] controls@[j].size) matches Some(s)
                    ==> spec_valid_size(s@)),
            spec_section_from(gcs, 0, kw@, ty, which as int) == out@ + spec_section_from(
                gcs,
                i as int,
                kw@,
                ty,
                which as int,
            ),
    {
        let piece: Vec<u8> = if which == 0 {
            render_variant_line(&controls[i])
        } else if which == 1 {
            render_desc_arm(&controls[i], kw)
        } else if which == 2 {
            render_control_body(&controls[i], kw, ty)
        } else {
            render_dyn_line(&controls[i], kw)
        };
        let ghost pre = out@;
        push_bytes(&mut out, piece.as_slice());
        proof {
            assert(gcs[i as int] == control_view(controls@[i as int]));
            assert(out@ + spec_section_from(gcs, i + 1, kw@, ty, which as int) =~= pre
                + spec_section_from(gcs, i as int, kw@, ty, which as int));
        }
    }
    out
}

/// Render the full module text for the normalized controls, in list
/// order: the emission order is exactly the order of the list.
#[verifier::rlimit(100)]
pub fn generate_controls(controls: &Vec<Control>, ty: ControlsType) -> (r: Vec<u8>)
    requires
        forall|i: int|
            0 <= i < controls@.len() ==> ((#[trigger] controls@[i].size) matches Some(s)
                ==> spec_valid_size(s@)),
    ensures
        r@ == spec_generate_controls(controls@.map_values(|c: Control| control_view(c)), ty),
{
    let kw = kind_name(ty);
    let mut out = l_enum_derive_v();
    push_bytes(&mut out, kw.as_slice());
    let p = l_brace_open_v();
    push_bytes(&mut out, p.as_slice());
    let sec0 = render_section(controls, kw.as_slice(), ty, 0);
    push_bytes(&mut out, sec0.as_slice());
    let p = l_brace_close_v();
    push_bytes(&mut out, p.as_slice());
    let p = l_impl_v();
    push_bytes(&mut out, p.as_slice());
    push_bytes(&mut out, kw.as_slice());
    let p = l_brace_open_v();
    push_bytes(&mut out, p.as_slice());
    let p = l_id_fn_v();
    push_bytes(&mut out, p.as_slice());
    let p = l_desc_open_v();
    push_bytes(&mut out, p.as_slice());
    let sec1 = render_section(controls, kw.as_slice(), ty, 1);
    push_bytes(&mut out, sec1.as_slice());
    let p = l_desc_close_v();
    push_bytes(&mut out, p.as_slice());
    let p = l_brace_close_v();
    push_bytes(&mut out, p.as_slice());
    let sec2 = render_section(controls, kw.as_slice(), ty, 2);
    push_bytes(&mut out, sec2.as_slice());
    let p = l_makedyn1_v();
    push_bytes(&mut out, p.as_slice());
    push_bytes(&mut out, kw.as_slice());
    let p = l_makedyn2_v();
    push_bytes(&mut out, p.as_slice());
    let sec3 = render_section(controls, kw.as_slice(), ty, 3);
    push_bytes(&mut out, sec3.as_slice());
    let p = l_makedyn3_v();
    push_bytes(&mut out, p.as_slice());
    proof {
        assert(out@ =~= spec_generate_controls(
            controls@.map_values(|c: Control| control_view(c)),
            ty,
        ));
    }
    out
}


/// `a fixed emitted fragment`
pub open spec fn l_pf_header() -> Seq<u8> {
    seq![35u8, 91u8, 100u8, 101u8, 114u8, 105u8, 118u8, 101u8, 40u8, 67u8, 108u8, 111u8, 110u8, 101u8, 44u8, 32u8, 67u8, 111u8, 112u8, 121u8, 41u8, 93u8, 10u8, 112u8, 117u8, 98u8, 40u8, 99u8, 114u8, 97u8, 116u8, 101u8, 41u8, 32u8, 115u8, 116u8, 114u8, 117u8, 99u8, 116u8, 32u8, 80u8, 105u8, 120u8, 101u8, 108u8, 70u8, 111u8, 114u8, 109u8, 97u8, 116u8, 80u8, 108u8, 97u8, 110u8, 101u8, 73u8, 110u8, 102u8, 111u8, 68u8, 97u8, 116u8, 97u8, 32u8, 123u8, 10u8, 32u8, 32u8, 32u8, 32u8, 112u8, 117u8, 98u8, 32u8, 98u8, 121u8, 116u8, 101u8, 115u8, 95u8, 112u8, 101u8, 114u8, 95u8, 103u8, 114u8, 111u8, 117u8, 112u8, 58u8, 32u8, 117u8, 51u8, 50u8, 44u8, 10u8, 32u8, 32u8, 32u8, 32u8, 112u8, 117u8, 98u8, 32u8, 118u8, 101u8, 114u8, 116u8, 105u8, 99u8, 97u8, 108u8, 95u8, 115u8, 117u8, 98u8, 95u8, 115u8, 97u8, 109u8, 112u8, 108u8, 105u8, 110u8, 103u8, 58u8, 32u8, 117u8, 51u8, 50u8, 44u8, 10u8, 125u8, 10u8, 10u8, 35u8, 91u8, 100u8, 101u8, 114u8, 105u8, 118u8, 101u8, 40u8, 67u8, 108u8, 111u8, 110u8, 101u8, 44u8, 32u8, 67u8, 111u8, 112u8, 121u8, 41u8, 93u8, 10u8, 112u8, 117u8, 98u8, 40u8, 99u8, 114u8, 97u8, 116u8, 101u8, 41u8, 32u8, 115u8, 116u8, 114u8, 117u8, 99u8, 116u8, 32u8, 80u8, 105u8, 120u8, 101u8, 108u8, 70u8, 111u8, 114u8, 109u8, 97u8, 116u8, 73u8, 110u8, 102u8, 111u8, 68u8, 97u8, 116u8, 97u8, 32u8, 123u8, 10u8, 32u8, 32u8, 32u8, 32u8, 112u8, 117u8, 98u8, 32u8, 110u8, 97u8, 109u8, 101u8, 58u8, 32u8, 38u8, 39u8, 115u8, 116u8, 97u8, 116u8, 105u8, 99u8, 32u8, 115u8, 116u8, 114u8, 44u8, 10u8, 32u8, 32u8, 32u8, 32u8, 112u8, 117u8, 98u8, 32u8, 102u8, 111u8, 117u8, 114u8, 99u8, 99u8, 58u8, 32u8, 117u8, 51u8, 50u8, 44u8, 10u8, 32u8, 32u8, 32u8, 32u8, 112u8, 117u8, 98u8, 32u8, 109u8, 111u8, 100u8, 105u8, 102u8, 105u8, 101u8, 114u8, 58u8, 32u8, 117u8, 54u8, 52u8, 44u8, 10u8, 32u8, 32u8, 32u8, 32u8, 112u8, 117u8, 98u8, 32u8, 98u8, 105u8, 116u8, 115u8, 95u8, 112u8, 101u8, 114u8, 95u8, 112u8, 105u8, 120u8, 101u8, 108u8, 58u8, 32u8, 117u8, 51u8, 50u8, 44u8, 10u8, 32u8, 32u8, 32u8, 32u8, 112u8, 117u8, 98u8, 32u8, 99u8, 111u8, 108u8, 111u8, 117u8, 114u8, 95u8, 101u8, 110u8, 99u8, 111u8, 100u8, 105u8, 110u8, 103u8, 58u8, 32u8, 117u8, 56u8, 44u8, 10u8, 32u8, 32u8, 32u8, 32u8, 112u8, 117u8, 98u8, 32u8, 112u8, 97u8, 99u8, 107u8, 101u8, 100u8, 58u8, 32u8, 98u8, 111u8, 111u8, 108u8, 44u8, 10u8, 32u8, 32u8, 32u8, 32u8, 112u8, 117u8, 98u8, 32u8, 112u8, 105u8, 120u8, 101u8, 108u8, 115u8, 95u8, 112u8, 101u8, 114u8, 95u8, 103u8, 114u8, 111u8, 117u8, 112u8, 58u8, 32u8, 117u8, 51u8, 50u8, 44u8, 10u8, 32u8, 32u8, 32u8, 32u8, 112u8, 117u8, 98u8, 32u8, 112u8, 108u8, 97u8, 110u8, 101u8, 115u8, 58u8, 32u8, 38u8, 39u8, 115u8, 116u8, 97u8, 116u8, 105u8, 99u8, 32u8, 91u8, 80u8, 105u8, 120u8, 101u8, 108u8, 70u8, 111u8, 114u8, 109u8, 97u8, 116u8, 80u8, 108u8, 97u8, 110u8, 101u8, 73u8, 110u8, 102u8, 111u8, 68u8, 97u8, 116u8, 97u8, 93u8, 44u8, 10u8, 32u8, 32u8, 32u8, 32u8, 112u8, 117u8, 98u8, 32u8, 118u8, 52u8, 108u8, 50u8, 95u8, 102u8, 111u8, 114u8, 109u8, 97u8, 116u8, 115u8, 58u8, 32u8, 38u8, 39u8, 115u8, 116u8, 97u8, 116u8, 105u8, 99u8, 32u8, 91u8, 117u8, 51u8, 50u8, 93u8, 44u8, 10u8, 125u8, 10u8, 10u8, 112u8, 117u8, 98u8, 40u8, 99u8, 114u8, 97u8, 116u8, 101u8, 41u8, 32u8, 115u8, 116u8, 97u8, 116u8, 105u8, 99u8, 32u8, 80u8, 73u8, 88u8, 69u8, 76u8, 95u8, 70u8, 79u8, 82u8, 77u8, 65u8, 84u8, 95u8, 73u8, 78u8, 70u8, 79u8, 58u8, 32u8, 38u8, 91u8, 80u8, 105u8, 120u8, 101u8, 108u8, 70u8, 111u8, 114u8, 109u8, 97u8, 116u8, 73u8, 110u8, 102u8, 111u8, 68u8, 97u8, 116u8, 97u8, 93u8, 32u8, 61u8, 32u8, 38u8, 91u8, 10u8]
}

fn l_pf_header_v() -> (r: Vec<u8>)
    ensures
        r@ == l_pf_header(),
{
    let r: Vec<u8> = vec![35u8, 91u8, 100u8, 101u8, 114u8, 105u8, 118u8, 101u8, 40u8, 67u8, 108u8, 111u8, 110u8, 101u8, 44u8, 32u8, 67u8, 111u8, 112u8, 121u8, 41u8, 93u8, 10u8, 112u8, 117u8, 98u8, 40u8, 99u8, 114u8, 97u8, 116u8, 101u8, 41u8, 32u8, 115u8, 116u8, 114u8, 117u8, 99u8, 116u8, 32u8, 80u8, 105u8, 120u8, 101u8, 108u8, 70u8, 111u8, 114u8, 109u8, 97u8, 116u8, 80u8, 108u8, 97u8, 110u8, 101u8, 73u8, 110u8, 102u8, 111u8, 68u8, 97u8, 116u8, 97u8, 32u8, 123u8, 10u8, 32u8, 32u8, 32u8, 32u8, 112u8, 117u8, 98u8, 32u8, 98u8, 121u8, 116u8, 101u8, 115u8, 95u8, 112u8, 101u8, 114u8, 95u8, 103u8, 114u8, 111u8, 117u8, 112u8, 58u8, 32u8, 117u8, 51u8, 50u8, 44u8, 10u8, 32u8, 32u8, 32u8, 32u8, 112u8, 117u8, 98u8, 32u8, 118u8, 101u8, 114u8, 116u8, 105u8, 99u8, 97u8, 108u8, 95u8, 115u8, 117u8, 98u8, 95u8, 115u8, 97u8, 109u8, 112u8, 108u8, 105u8, 110u8, 103u8, 58u8, 32u8, 117u8, 51u8, 50u8, 44u8, 10u8, 125u8, 10u8, 10u8, 35u8, 91u8, 100u8, 101u8, 114u8, 105u8, 118u8, 101u8, 40u8, 67u8, 108u8, 111u8, 110u8, 101u8, 44u8, 32u8, 67u8, 111u8, 112u8, 121u8, 41u8, 93u8, 10u8, 112u8, 117u8, 98u8, 40u8, 99u8, 114u8, 97u8, 116u8, 101u8, 41u8, 32u8, 115u8, 116u8, 114u8, 117u8, 99u8, 116u8, 32u8, 80u8, 105u8, 120u8, 101u8, 108u8, 70u8, 111u8, 114u8, 109u8, 97u8, 116u8, 73u8, 110u8, 102u8, 111u8, 68u8, 97u8, 116u8, 97u8, 32u8, 123u8, 10u8, 32u8, 32u8, 32u8, 32u8, 112u8, 117u8, 98u8, 32u8, 110u8, 97u8, 109u8, 101u8, 58u8, 32u8, 38u8, 39u8, 115u8, 116u8, 97u8, 116u8, 105u8, 99u8, 32u8, 115u8, 116u8, 114u8, 44u8, 10u8, 32u8, 32u8, 32u8, 32u8, 112u8, 117u8, 98u8, 32u8, 102u8, 111u8, 117u8, 114u8, 99u8, 99u8, 58u8, 32u8, 117u8, 51u8, 50u8, 44u8, 10u8, 32u8, 32u8, 32u8, 32u8, 112u8, 117u8, 98u8, 32u8, 109u8, 111u8, 100u8, 105u8, 102u8, 105u8, 101u8, 114u8, 58u8, 32u8, 117u8, 54u8, 52u8, 44u8, 10u8, 32u8, 32u8, 32u8, 32u8, 112u8, 117u8, 98u8, 32u8, 98u8, 105u8, 116u8, 115u8, 95u8, 112u8, 101u8, 114u8, 95u8, 112u8, 105u8, 120u8, 101u8, 108u8, 58u8, 32u8, 117u8, 51u8, 50u8, 44u8, 10u8, 32u8, 32u8, 32u8, 32u8, 112u8, 117u8, 98u8, 32u8, 99u8, 111u8, 108u8, 111u8, 117u8, 114u8, 95u8, 101u8, 110u8, 99u8, 111u8, 100u8, 105u8, 110u8, 103u8, 58u8, 32u8, 117u8, 56u8, 44u8, 10u8, 32u8, 32u8, 32u8, 32u8, 112u8, 117u8, 98u8, 32u8, 112u8, 97u8, 99u8, 107u8, 101u8, 100u8, 58u8, 32u8, 98u8, 111u8, 111u8, 108u8, 44u8, 10u8, 32u8, 32u8, 32u8, 32u8, 112u8, 117u8, 98u8, 32u8, 112u8, 105u8, 120u8, 101u8, 108u8, 115u8, 95u8, 112u8, 101u8, 114u8, 95u8, 103u8, 114u8, 111u8, 117u8, 112u8, 58u8, 32u8, 117u8, 51u8, 50u8, 44u8, 10u8, 32u8, 32u8, 32u8, 32u8, 112u8, 117u8, 98u8, 32u8, 112u8, 108u8, 97u8, 110u8, 101u8, 115u8, 58u8, 32u8, 38u8, 39u8, 115u8, 116u8, 97u8, 116u8, 105u8, 99u8, 32u8, 91u8, 80u8, 105u8, 120u8, 101u8, 108u8, 70u8, 111u8, 114u8, 109u8, 97u8, 116u8, 80u8, 108u8, 97u8, 110u8, 101u8, 73u8, 110u8, 102u8, 111u8, 68u8, 97u8, 116u8, 97u8, 93u8, 44u8, 10u8, 32u8, 32u8, 32u8, 32u8, 112u8, 117u8, 98u8, 32u8, 118u8, 52u8, 108u8, 50u8, 95u8, 102u8, 111u8, 114u8, 109u8, 97u8, 116u8, 115u8, 58u8, 32u8, 38u8, 39u8, 115u8, 116u8, 97u8, 116u8, 105u8, 99u8, 32u8, 91u8, 117u8, 51u8, 50u8, 93u8, 44u8, 10u8, 125u8, 10u8, 10u8, 112u8, 117u8, 98u8, 40u8, 99u8, 114u8, 97u8, 116u8, 101u8, 41u8, 32u8, 115u8, 116u8, 97u8, 116u8, 105u8, 99u8, 32u8, 80u8, 73u8, 88u8, 69u8, 76u8, 95u8, 70u8, 79u8, 82u8, 77u8, 65u8, 84u8, 95u8, 73u8, 78u8, 70u8, 79u8, 58u8, 32u8, 38u8, 91u8, 80u8, 105u8, 120u8, 101u8, 108u8, 70u8, 111u8, 114u8, 109u8, 97u8, 116u8, 73u8, 110u8, 102u8, 111u8, 68u8, 97u8, 116u8, 97u8, 93u8, 32u8, 61u8, 32u8, 38u8, 91u8, 10u8];
    proof {
        assert(r@ =~= l_pf_header());
    }
    r
}

/// `];\n`
pub open spec fn l_pf_footer() -> Seq<u8> {
    seq![93u8, 59u8, 10u8]
}

fn l_pf_footer_v() -> (r: Vec<u8>)
    ensures
        r@ == l_pf_footer(),
{
    let r: Vec<u8> = vec![93u8, 59u8, 10u8];
    proof {
        assert(r@ =~= l_pf_footer());
    }
    r
}

/// `    PixelFormatInfoData { name: "`
pub open spec fn l_row1() -> Seq<u8> {
    seq![32u8, 32u8, 32u8, 32u8, 80u8, 105u8, 120u8, 101u8, 108u8, 70u8, 111u8, 114u8, 109u8, 97u8, 116u8, 73u8, 110u8, 102u8, 111u8, 68u8, 97u8, 116u8, 97u8, 32u8, 123u8, 32u8, 110u8, 97u8, 109u8, 101u8, 58u8, 32u8, 34u8]
}

fn l_row1_v() -> (r: Vec<u8>)
    ensures
        r@ == l_row1(),
{
    let r: Vec<u8> = vec![32u8, 32u8, 32u8, 32u8, 80u8, 105u8, 120u8, 101u8, 108u8, 70u8, 111u8, 114u8, 109u8, 97u8, 116u8, 73u8, 110u8, 102u8, 111u8, 68u8, 97u8, 116u8, 97u8, 32u8, 123u8, 32u8, 110u8, 97u8, 109u8, 101u8, 58u8, 32u8, 34u8];
    proof {
        assert(r@ =~= l_row1());
    }
    r
}

/// `", fourcc: 0x`
pub open spec fn l_row2() -> Seq<u8> {
    seq![34u8, 44u8, 32u8, 102u8, 111u8, 117u8, 114u8, 99u8, 99u8, 58u8, 32u8, 48u8, 120u8]
}

fn l_row2_v() -> (r: Vec<u8>)
    ensures
        r@ == l_row2(),
{
    let r: Vec<u8> = vec![34u8, 44u8, 32u8, 102u8, 111u8, 117u8, 114u8, 99u8, 99u8, 58u8, 32u8, 48u8, 120u8];
    proof {
        assert(r@ =~= l_row2());
    }
    r
}

/// `, modifier: 0x`
pub open spec fn l_row3() -> Seq<u8> {
    seq![44u8, 32u8, 109u8, 111u8, 100u8, 105u8, 102u8, 105u8, 101u8, 114u8, 58u8, 32u8, 48u8, 120u8]
}

fn l_row3_v() -> (r: Vec<u8>)
    ensures
        r@ == l_row3(),
{
    let r: Vec<u8> = vec![44u8, 32u8, 109u8, 111u8, 100u8, 105u8, 102u8, 105u8, 101u8, 114u8, 58u8, 32u8, 48u8, 120u8];
    proof {
        assert(r@ =~= l_row3());
    }
    r
}

/// `, bits_per_pixel: `
pub open spec fn l_row4() -> Seq<u8> {
    seq![44u8, 32u8, 98u8, 105u8, 116u8, 115u8, 95u8, 112u8, 101u8, 114u8, 95u8, 112u8, 105u8, 120u8, 101u8, 108u8, 58u8, 32u8]
}

fn l_row4_v() -> (r: Vec<u8>)
    ensures
        r@ == l_row4(),
{
    let r: Vec<u8> = vec![44u8, 32u8, 98u8, 105u8, 116u8, 115u8, 95u8, 112u8, 101u8, 114u8, 95u8, 112u8, 105u8, 120u8, 101u8, 108u8, 58u8, 32u8];
    proof {
        assert(r@ =~= l_row4());
    }
    r
}

/// `, colour_encoding: `
pub open spec fn l_row5() -> Seq<u8> {
    seq![44u8, 32u8, 99u8, 111u8, 108u8, 111u8, 117u8, 114u8, 95u8, 101u8, 110u8, 99u8, 111u8, 100u8, 105u8, 110u8, 103u8, 58u8, 32u8]
}

fn l_row5_v() -> (r: Vec<u8>)
    ensures
        r@ == l_row5(),
{
    let r: Vec<u8> = vec![44u8, 32u8, 99u8, 111u8, 108u8, 111u8, 117u8, 114u8, 95u8, 101u8, 110u8, 99u8, 111u8, 100u8, 105u8, 110u8, 103u8, 58u8, 32u8];
    proof {
        assert(r@ =~= l_row5());
    }
    r
}

/// `, packed: `
pub open spec fn l_row6() -> Seq<u8> {
    seq![44u8, 32u8, 112u8, 97u8, 99u8, 107u8, 101u8, 100u8, 58u8, 32u8]
}

fn l_row6_v() -> (r: Vec<u8>)
    ensures
        r@ == l_row6(),
{
    let r: Vec<u8> = vec![44u8, 32u8, 112u8, 97u8, 99u8, 107u8, 101u8, 100u8, 58u8, 32u8];
    proof {
        assert(r@ =~= l_row6());
    }
    r
}

/// `, pixels_per_group: `
pub open spec fn l_row7() -> Seq<u8> {
    seq![44u8, 32u8, 112u8, 105u8, 120u8, 101u8, 108u8, 115u8, 95u8, 112u8, 101u8, 114u8, 95u8, 103u8, 114u8, 111u8, 117u8, 112u8, 58u8, 32u8]
}

fn l_row7_v() -> (r: Vec<u8>)
    ensures
        r@ == l_row7(),
{
    let r: Vec<u8> = vec![44u8, 32u8, 112u8, 105u8, 120u8, 101u8, 108u8, 115u8, 95u8, 112u8, 101u8, 114u8, 95u8, 103u8, 114u8, 111u8, 117u8, 112u8, 58u8, 32u8];
    proof {
        assert(r@ =~= l_row7());
    }
    r
}

/// `, planes: &[`
pub open spec fn l_row8() -> Seq<u8> {
    seq![44u8, 32u8, 112u8, 108u8, 97u8, 110u8, 101u8, 115u8, 58u8, 32u8, 38u8, 91u8]
}

fn l_row8_v() -> (r: Vec<u8>)
    ensures
        r@ == l_row8(),
{
    let r: Vec<u8> = vec![44u8, 32u8, 112u8, 108u8, 97u8, 110u8, 101u8, 115u8, 58u8, 32u8, 38u8, 91u8];
    proof {
        assert(r@ =~= l_row8());
    }
    r
}

/// `PixelFormatPlaneInfoData { bytes_per_group: `
pub open spec fn l_plane1() -> Seq<u8> {
    seq![80u8, 105u8, 120u8, 101u8, 108u8, 70u8, 111u8, 114u8, 109u8, 97u8, 116u8, 80u8, 108u8, 97u8, 110u8, 101u8, 73u8, 110u8, 102u8, 111u8, 68u8, 97u8, 116u8, 97u8, 32u8, 123u8, 32u8, 98u8, 121u8, 116u8, 101u8, 115u8, 95u8, 112u8, 101u8, 114u8, 95u8, 103u8, 114u8, 111u8, 117u8, 112u8, 58u8, 32u8]
}

fn l_plane1_v() -> (r: Vec<u8>)
    ensures
        r@ == l_plane1(),
{
    let r: Vec<u8> = vec![80u8, 105u8, 120u8, 101u8, 108u8, 70u8, 111u8, 114u8, 109u8, 97u8, 116u8, 80u8, 108u8, 97u8, 110u8, 101u8, 73u8, 110u8, 102u8, 111u8, 68u8, 97u8, 116u8, 97u8, 32u8, 123u8, 32u8, 98u8, 121u8, 116u8, 101u8, 115u8, 95u8, 112u8, 101u8, 114u8, 95u8, 103u8, 114u8, 111u8, 117u8, 112u8, 58u8, 32u8];
    proof {
        assert(r@ =~= l_plane1());
    }
    r
}

/// `, vertical_sub_sampling: `
pub open spec fn l_plane2() -> Seq<u8> {
    seq![44u8, 32u8, 118u8, 101u8, 114u8, 116u8, 105u8, 99u8, 97u8, 108u8, 95u8, 115u8, 117u8, 98u8, 95u8, 115u8, 97u8, 109u8, 112u8, 108u8, 105u8, 110u8, 103u8, 58u8, 32u8]
}

fn l_plane2_v() -> (r: Vec<u8>)
    ensures
        r@ == l_plane2(),
{
    let r: Vec<u8> = vec![44u8, 32u8, 118u8, 101u8, 114u8, 116u8, 105u8, 99u8, 97u8, 108u8, 95u8, 115u8, 117u8, 98u8, 95u8, 115u8, 97u8, 109u8, 112u8, 108u8, 105u8, 110u8, 103u8, 58u8, 32u8];
    proof {
        assert(r@ =~= l_plane2());
    }
    r
}

/// ` }`
pub open spec fn l_plane3() -> Seq<u8> {
    seq![32u8, 125u8]
}

fn l_plane3_v() -> (r: Vec<u8>)
    ensures
        r@ == l_plane3(),
{
    let r: Vec<u8> = vec![32u8, 125u8];
    proof {
        assert(r@ =~= l_plane3());
    }
    r
}

/// `, `
pub open spec fn l_comma_space() -> Seq<u8> {
    seq![44u8, 32u8]
}

fn l_comma_space_v() -> (r: Vec<u8>)
    ensures
        r@ == l_comma_space(),
{
    let r: Vec<u8> = vec![44u8, 32u8];
    proof {
        assert(r@ =~= l_comma_space());
    }
    r
}

/// `], v4l2_formats: &[`
pub open spec fn l_row9() -> Seq<u8> {
    seq![93u8, 44u8, 32u8, 118u8, 52u8, 108u8, 50u8, 95u8, 102u8, 111u8, 114u8, 109u8, 97u8, 116u8, 115u8, 58u8, 32u8, 38u8, 91u8]
}

fn l_row9_v() -> (r: Vec<u8>)
    ensures
        r@ == l_row9(),
{
    let r: Vec<u8> = vec![93u8, 44u8, 32u8, 118u8, 52u8, 108u8, 50u8, 95u8, 102u8, 111u8, 114u8, 109u8, 97u8, 116u8, 115u8, 58u8, 32u8, 38u8, 91u8];
    proof {
        assert(r@ =~= l_row9());
    }
    r
}

/// `], },\n`
pub open spec fn l_row10() -> Seq<u8> {
    seq![93u8, 44u8, 32u8, 125u8, 44u8, 10u8]
}

fn l_row10_v() -> (r: Vec<u8>)
    ensures
        r@ == l_row10(),
{
    let r: Vec<u8> = vec![93u8, 44u8, 32u8, 125u8, 44u8, 10u8];
    proof {
        assert(r@ =~= l_row10());
    }
    r
}

/// `true`
pub open spec fn l_true() -> Seq<u8> {
    seq![116u8, 114u8, 117u8, 101u8]
}

fn l_true_v() -> (r: Vec<u8>)
    ensures
        r@ == l_true(),
{
    let r: Vec<u8> = vec![116u8, 114u8, 117u8, 101u8];
    proof {
        assert(r@ =~= l_true());
    }
    r
}

/// `false`
pub open spec fn l_false() -> Seq<u8> {
    seq![102u8, 97u8, 108u8, 115u8, 101u8]
}

fn l_false_v() -> (r: Vec<u8>)
    ensures
        r@ == l_false(),
{
    let r: Vec<u8> = vec![102u8, 97u8, 108u8, 115u8, 101u8];
    proof {
        assert(r@ =~= l_false());
    }
    r
}

/// `0x`
pub open spec fn l_0x() -> Seq<u8> {
    seq![48u8, 120u8]
}

fn l_0x_v() -> (r: Vec<u8>)
    ensures
        r@ == l_0x(),
{
    let r: Vec<u8> = vec![48u8, 120u8];
    proof {
        assert(r@ =~= l_0x());
    }
    r
}

/// `a fixed emitted fragment`
pub open spec fn l_ctl_header() -> Seq<u8> {
    seq![117u8, 115u8, 101u8, 32u8, 115u8, 116u8, 100u8, 58u8, 58u8, 111u8, 112u8, 115u8, 58u8, 58u8, 123u8, 68u8, 101u8, 114u8, 101u8, 102u8, 44u8, 32u8, 68u8, 101u8, 114u8, 101u8, 102u8, 77u8, 117u8, 116u8, 125u8, 59u8, 10u8, 117u8, 115u8, 101u8, 32u8, 110u8, 117u8, 109u8, 95u8, 101u8, 110u8, 117u8, 109u8, 58u8, 58u8, 123u8, 73u8, 110u8, 116u8, 111u8, 80u8, 114u8, 105u8, 109u8, 105u8, 116u8, 105u8, 118u8, 101u8, 44u8, 32u8, 84u8, 114u8, 121u8, 70u8, 114u8, 111u8, 109u8, 80u8, 114u8, 105u8, 109u8, 105u8, 116u8, 105u8, 118u8, 101u8, 125u8, 59u8, 10u8, 35u8, 91u8, 97u8, 108u8, 108u8, 111u8, 119u8, 40u8, 117u8, 110u8, 117u8, 115u8, 101u8, 100u8, 95u8, 105u8, 109u8, 112u8, 111u8, 114u8, 116u8, 115u8, 41u8, 93u8, 10u8, 117u8, 115u8, 101u8, 32u8, 99u8, 114u8, 97u8, 116u8, 101u8, 58u8, 58u8, 99u8, 111u8, 110u8, 116u8, 114u8, 111u8, 108u8, 58u8, 58u8, 123u8, 67u8, 111u8, 110u8, 116u8, 114u8, 111u8, 108u8, 44u8, 32u8, 80u8, 114u8, 111u8, 112u8, 101u8, 114u8, 116u8, 121u8, 44u8, 32u8, 67u8, 111u8, 110u8, 116u8, 114u8, 111u8, 108u8, 69u8, 110u8, 116u8, 114u8, 121u8, 44u8, 32u8, 68u8, 121u8, 110u8, 67u8, 111u8, 110u8, 116u8, 114u8, 111u8, 108u8, 69u8, 110u8, 116u8, 114u8, 121u8, 125u8, 59u8, 10u8, 117u8, 115u8, 101u8, 32u8, 99u8, 114u8, 97u8, 116u8, 101u8, 58u8, 58u8, 99u8, 111u8, 110u8, 116u8, 114u8, 111u8, 108u8, 95u8, 118u8, 97u8, 108u8, 117u8, 101u8, 58u8, 58u8, 123u8, 67u8, 111u8, 110u8, 116u8, 114u8, 111u8, 108u8, 86u8, 97u8, 108u8, 117u8, 101u8, 44u8, 32u8, 67u8, 111u8, 110u8, 116u8, 114u8, 111u8, 108u8, 86u8, 97u8, 108u8, 117u8, 101u8, 69u8, 114u8, 114u8, 111u8, 114u8, 125u8, 59u8, 10u8, 35u8, 91u8, 97u8, 108u8, 108u8, 111u8, 119u8, 40u8, 117u8, 110u8, 117u8, 115u8, 101u8, 100u8, 95u8, 105u8, 109u8, 112u8, 111u8, 114u8, 116u8, 115u8, 41u8, 93u8, 10u8, 117u8, 115u8, 101u8, 32u8, 99u8, 114u8, 97u8, 116u8, 101u8, 58u8, 58u8, 103u8, 101u8, 111u8, 109u8, 101u8, 116u8, 114u8, 121u8, 58u8, 58u8, 123u8, 82u8, 101u8, 99u8, 116u8, 97u8, 110u8, 103u8, 108u8, 101u8, 44u8, 32u8, 80u8, 111u8, 105u8, 110u8, 116u8, 44u8, 32u8, 83u8, 105u8, 122u8, 101u8, 125u8, 59u8, 10u8, 35u8, 91u8, 97u8, 108u8, 108u8, 111u8, 119u8, 40u8, 117u8, 110u8, 117u8, 115u8, 101u8, 100u8, 95u8, 105u8, 109u8, 112u8, 111u8, 114u8, 116u8, 115u8, 41u8, 93u8, 10u8, 117u8, 115u8, 101u8, 32u8, 108u8, 105u8, 98u8, 99u8, 97u8, 109u8, 101u8, 114u8, 97u8, 95u8, 115u8, 121u8, 115u8, 58u8, 58u8, 42u8, 59u8, 10u8]
}

fn l_ctl_header_v() -> (r: Vec<u8>)
    ensures
        r@ == l_ctl_header(),
{
    let r: Vec<u8> = vec![117u8, 115u8, 101u8, 32u8, 115u8, 116u8, 100u8, 58u8, 58u8, 111u8, 112u8, 115u8, 58u8, 58u8, 123u8, 68u8, 101u8, 114u8, 101u8, 102u8, 44u8, 32u8, 68u8, 101u8, 114u8, 101u8, 102u8, 77u8, 117u8, 116u8, 125u8, 59u8, 10u8, 117u8, 115u8, 101u8, 32u8, 110u8, 117u8, 109u8, 95u8, 101u8, 110u8, 117u8, 109u8, 58u8, 58u8, 123u8, 73u8, 110u8, 116u8, 111u8, 80u8, 114u8, 105u8, 109u8, 105u8, 116u8, 105u8, 118u8, 101u8, 44u8, 32u8, 84u8, 114u8, 121u8, 70u8, 114u8, 111u8, 109u8, 80u8, 114u8, 105u8, 109u8, 105u8, 116u8, 105u8, 118u8, 101u8, 125u8, 59u8, 10u8, 35u8, 91u8, 97u8, 108u8, 108u8, 111u8, 119u8, 40u8, 117u8, 110u8, 117u8, 115u8, 101u8, 100u8, 95u8, 105u8, 109u8, 112u8, 111u8, 114u8, 116u8, 115u8, 41u8, 93u8, 10u8, 117u8, 115u8, 101u8, 32u8, 99u8, 114u8, 97u8, 116u8, 101u8, 58u8, 58u8, 99u8, 111u8, 110u8, 116u8, 114u8, 111u8, 108u8, 58u8, 58u8, 123u8, 67u8, 111u8, 110u8, 116u8, 114u8, 111u8, 108u8, 44u8, 32u8, 80u8, 114u8, 111u8, 112u8, 101u8, 114u8, 116u8, 121u8, 44u8, 32u8, 67u8, 111u8, 110u8, 116u8, 114u8, 111u8, 108u8, 69u8, 110u8, 116u8, 114u8, 121u8, 44u8, 32u8, 68u8, 121u8, 110u8, 67u8, 111u8, 110u8, 116u8, 114u8, 111u8, 108u8, 69u8, 110u8, 116u8, 114u8, 121u8, 125u8, 59u8, 10u8, 117u8, 115u8, 101u8, 32u8, 99u8, 114u8, 97u8, 116u8, 101u8, 58u8, 58u8, 99u8, 111u8, 110u8, 116u8, 114u8, 111u8, 108u8, 95u8, 118u8, 97u8, 108u8, 117u8, 101u8, 58u8, 58u8, 123u8, 67u8, 111u8, 110u8, 116u8, 114u8, 111u8, 108u8, 86u8, 97u8, 108u8, 117u8, 101u8, 44u8, 32u8, 67u8, 111u8, 110u8, 116u8, 114u8, 111u8, 108u8, 86u8, 97u8, 108u8, 117u8, 101u8, 69u8, 114u8, 114u8, 111u8, 114u8, 125u8, 59u8, 10u8, 35u8, 91u8, 97u8, 108u8, 108u8, 111u8, 119u8, 40u8, 117u8, 110u8, 117u8, 115u8, 101u8, 100u8, 95u8, 105u8, 109u8, 112u8, 111u8, 114u8, 116u8, 115u8, 41u8, 93u8, 10u8, 117u8, 115u8, 101u8, 32u8, 99u8, 114u8, 97u8, 116u8, 101u8, 58u8, 58u8, 103u8, 101u8, 111u8, 109u8, 101u8, 116u8, 114u8, 121u8, 58u8, 58u8, 123u8, 82u8, 101u8, 99u8, 116u8, 97u8, 110u8, 103u8, 108u8, 101u8, 44u8, 32u8, 80u8, 111u8, 105u8, 110u8, 116u8, 44u8, 32u8, 83u8, 105u8, 122u8, 101u8, 125u8, 59u8, 10u8, 35u8, 91u8, 97u8, 108u8, 108u8, 111u8, 119u8, 40u8, 117u8, 110u8, 117u8, 115u8, 101u8, 100u8, 95u8, 105u8, 109u8, 112u8, 111u8, 114u8, 116u8, 115u8, 41u8, 93u8, 10u8, 117u8, 115u8, 101u8, 32u8, 108u8, 105u8, 98u8, 99u8, 97u8, 109u8, 101u8, 114u8, 97u8, 95u8, 115u8, 121u8, 115u8, 58u8, 58u8, 42u8, 59u8, 10u8];
    proof {
        assert(r@ =~= l_ctl_header());
    }
    r
}

/// The plane slot at `i`, padded with an unused slot past the end.
pub open spec fn spec_plane_slot(planes: Seq<(u32, u32)>, i: int) -> (u32, u32) {
    if 0 <= i < planes.len() {
        planes[i]
    } else {
        (0u32, 0u32)
    }
}

/// One plane initializer.
pub open spec fn spec_plane_text(p: (u32, u32)) -> Seq<u8> {
    l_plane1() + spec_dec_render(p.0 as int) + l_plane2() + spec_dec_render(p.1 as int)
        + l_plane3()
}

fn render_plane_text(a: u32, b: u32) -> (r: Vec<u8>)
    ensures
        r@ == spec_plane_text((a, b)),
{
    let mut out = l_plane1_v();
    let d = render_dec_u64(a as u64);
    push_bytes(&mut out, d.as_slice());
    let p = l_plane2_v();
    push_bytes(&mut out, p.as_slice());
    let d = render_dec_u64(b as u64);
    push_bytes(&mut out, d.as_slice());
    let p = l_plane3_v();
    push_bytes(&mut out, p.as_slice());
    proof {
        assert(out@ =~= spec_plane_text((a, b)));
    }
    out
}

/// The alias-code list, hexadecimal, comma separated.
pub open spec fn spec_v4l2_render(vs: Seq<u32>, i: int) -> Seq<u8>
    decreases vs.len() - i,
{
    if i < 0 || i >= vs.len() {
        Seq::empty()
    } else {
        (if i > 0 {
            l_comma_space()
        } else {
            Seq::empty()
        }) + l_0x() + spec_hex_render(vs[i] as int, 8) + spec_v4l2_render(vs, i + 1)
    }
}

fn render_v4l2_list(vs: &Vec<u32>) -> (r: Vec<u8>)
    ensures
        r@ == spec_v4l2_render(vs@, 0),
{
    let n = vs.len();
    let mut out: Vec<u8> = Vec::new();
    proof {
        assert(Seq::<u8>::empty() + spec_v4l2_render(vs@, 0) =~= spec_v4l2_render(vs@, 0));
    }
    for i in 0..n
        invariant
            n == vs@.len(),
            spec_v4l2_render(vs@, 0) == out@ + spec_v4l2_render(vs@, i as int),
    {
        let ghost pre = out@;
        if i > 0 {
            let p = l_comma_space_v();
            push_bytes(&mut out, p.as_slice());
        }
        let p = l_0x_v();
        push_bytes(&mut out, p.as_slice());
        let h = render_hex_u64(vs[i] as u64, 8);
        push_bytes(&mut out, h.as_slice());
        proof {
            assert(out@ + spec_v4l2_render(vs@, i + 1) =~= pre + spec_v4l2_render(vs@, i as int));
        }
    }
    out
}

/// The identifying fields of one table row.
pub open spec fn spec_row_head(p: crate::layout::PixelFormatInfoView) -> Seq<u8> {
    l_row1() + p.name + l_row2() + spec_hex_render(p.fourcc as int, 8) + l_row3()
        + spec_hex_render(p.modifier as int, 16) + l_row4() + spec_dec_render(
        p.bits_per_pixel as int,
    )
}

/// The remaining scalar fields of one table row.
pub open spec fn spec_row_mid(p: crate::layout::PixelFormatInfoView) -> Seq<u8> {
    l_row5() + spec_dec_render(p.colour_encoding as int) + l_row6() + (if p.packed {
        l_true()
    } else {
        l_false()
    }) + l_row7() + spec_dec_render(p.pixels_per_group as int) + l_row8()
}

/// The plane slots of one table row, always three, comma separated.
pub open spec fn spec_row_planes(p: crate::layout::PixelFormatInfoView) -> Seq<u8> {
    spec_plane_text(spec_plane_slot(p.planes, 0)) + l_comma_space() + spec_plane_text(
        spec_plane_slot(p.planes, 1),
    ) + l_comma_space() + spec_plane_text(spec_plane_slot(p.planes, 2))
}

/// One static table row for a harvested layout record, every field
/// embedded verbatim and plane slots padded with zeros.
pub open spec fn spec_row(p: crate::layout::PixelFormatInfoView) -> Seq<u8> {
    spec_row_head(p) + spec_row_mid(p) + spec_row_planes(p) + l_row9() + spec_v4l2_render(
        p.v4l2_formats,
        0,
    ) + l_row10()
}

fn plane_slot(planes: &Vec<(u32, u32)>, i: usize) -> (r: (u32, u32))
    ensures
        r == spec_plane_slot(planes@, i as int),
{
    if i < planes.len() {
        planes[i]
    } else {
        (0, 0)
    }
}

/// Render one table row.
#[verifier::rlimit(100)]
fn render_row(p: &crate::layout::PixelFormatInfo) -> (r: Vec<u8>)
    ensures
        r@ == spec_row(crate::layout::layout_view(*p)),
{
    let mut head = l_row1_v();
    push_bytes(&mut head, p.name.as_slice());
    let t = l_row2_v();
    push_bytes(&mut head, t.as_slice());
    let h = render_hex_u64(p.fourcc as u64, 8);
    push_bytes(&mut head, h.as_slice());
    let t = l_row3_v();
    push_bytes(&mut head, t.as_slice());
    let h = render_hex_u64(p.modifier, 16);
    push_bytes(&mut head, h.as_slice());
    let t = l_row4_v();
    push_bytes(&mut head, t.as_slice());
    let d = render_dec_u64(p.bits_per_pixel as u64);
    push_bytes(&mut head, d.as_slice());
    proof {
        assert(head@ =~= spec_row_head(crate::layout::layout_view(*p)));
    }
    let mut mid = l_row5_v();
    let d = render_dec_u64(p.colour_encoding as u64);
    push_bytes(&mut mid, d.as_slice());
    let t = l_row6_v();
    push_bytes(&mut mid, t.as_slice());
    let b = if p.packed {
        l_true_v()
    } else {
        l_false_v()
    };
    push_bytes(&mut mid, b.as_slice());
    let t = l_row7_v();
    push_bytes(&mut mid, t.as_slice());
    let d = render_dec_u64(p.pixels_per_group as u64);
    push_bytes(&mut mid, d.as_slice());
    let t = l_row8_v();
    push_bytes(&mut mid, t.as_slice());
    proof {
        assert(mid@ =~= spec_row_mid(crate::layout::layout_view(*p)));
    }
    let s0 = plane_slot(&p.planes, 0);
    let s1 = plane_slot(&p.planes, 1);
    let s2 = plane_slot(&p.planes, 2);
    let mut planes = render_plane_text(s0.0, s0.1);
    let t = l_comma_space_v();
    push_bytes(&mut planes, t.as_slice());
    let pt = render_plane_text(s1.0, s1.1);
    push_bytes(&mut planes, pt.as_slice());
    let t = l_comma_space_v();
    push_bytes(&mut planes, t.as_slice());
    let pt = render_plane_text(s2.0, s2.1);
    push_bytes(&mut planes, pt.as_slice());
    proof {
        assert(planes@ =~= spec_row_planes(crate::layout::layout_view(*p)));
    }
    let mut out = head;
    push_bytes(&mut out, mid.as_slice());
    push_bytes(&mut out, planes.as_slice());
    let t = l_row9_v();
    push_bytes(&mut out, t.as_slice());
    let v = render_v4l2_list(&p.v4l2_formats);
    push_bytes(&mut out, v.as_slice());
    let t = l_row10_v();
    push_bytes(&mut out, t.as_slice());
    proof {
        assert(out@ =~= spec_row(crate::layout::layout_view(*p)));
    }
    out
}

/// The rows of the table, from `i` on, in discovery order.
pub open spec fn spec_rows_from(ps: Seq<crate::layout::PixelFormatInfoView>, i: int) -> Seq<u8>
    decreases ps.len() - i,
{
    if i < 0 || i >= ps.len() {
        Seq::empty()
    } else {
        spec_row(ps[i]) + spec_rows_from(ps, i + 1)
    }
}

/// The complete generated pixel-format table source: the row type
/// declarations and one static row per harvested record, in the order the
/// records were discovered in the layout source.
pub open spec fn spec_pixel_format_info_rs(ps: Seq<crate::layout::PixelFormatInfoView>) -> Seq<
    u8,
> {
    l_pf_header() + spec_rows_from(ps, 0) + l_pf_footer()
}

/// Render the generated pixel-format table source file.
#[verifier::rlimit(100)]
pub fn generate_pixel_format_info_rs(infos: &Vec<crate::layout::PixelFormatInfo>) -> (r: Vec<u8>)
    ensures
        r@ == spec_pixel_format_info_rs(
            infos@.map_values(|p: crate::layout::PixelFormatInfo| crate::layout::layout_view(p)),
        ),
{
    let ghost gps = infos@.map_values(
        |p: crate::layout::PixelFormatInfo| crate::layout::layout_view(p),
    );
    let mut out = l_pf_header_v();
    let n = infos.len();
    proof {
        assert(out@ + spec_rows_from(gps, 0) =~= l_pf_header() + spec_rows_from(gps, 0));
    }
    for i in 0..n
        invariant
            n == infos@.len(),
            gps == infos@.map_values(
                |p: crate::layout::PixelFormatInfo| crate::layout::layout_view(p),
            ),
            l_pf_header() + spec_rows_from(gps, 0) == out@ + spec_rows_from(gps, i as int),
    {
        let row = render_row(&infos[i]);
        let ghost pre = out@;
        push_bytes(&mut out, row.as_slice());
        proof {
            assert(gps[i as int] == crate::layout::layout_view(infos@[i as int]));
            assert(out@ + spec_rows_from(gps, i + 1) =~= pre + spec_rows_from(gps, i as int));
        }
    }
    let f = l_pf_footer_v();
    push_bytes(&mut out, f.as_slice());
    proof {
        assert(out@ =~= spec_pixel_format_info_rs(gps));
    }
    out
}

/// What the pretty printer makes of a source text: its reformatted form,
/// or nothing when the text is not a parseable module. A pure function of
/// the text.
pub uninterp spec fn reformatted_of(src: Seq<u8>) -> Option<Seq<u8>>;

/// Relies on `syn::parse_file` and `prettyplease::unparse`: parsing a
/// module and printing it back is a function of the source text alone.
/// Source that is not UTF-8 or that the parser rejects yields `None`.
#[verifier::external_body]
fn reformat_rust(src: &[u8]) -> (r: Option<Vec<u8>>)
    ensures
        match r {
            Some(v) => reformatted_of(src@) == Some(v@),
            None => reformatted_of(src@) is None,
        },
{
    let text = match core::str::from_utf8(src) {
        Ok(t) => t,
        Err(_) => return None,
    };
    match syn::parse_file(text) {
        Ok(file) => Some(prettyplease::unparse(&file).into_bytes()),
        Err(_) => None,
    }
}

/// The unformatted source of a generated controls or properties file: the
/// fixed import header followed by the rendered module.
pub open spec fn spec_controls_file_source(cs: Seq<ControlView>, ty: ControlsType) -> Seq<u8> {
    l_ctl_header() + spec_generate_controls(cs, ty)
}

/// Render a complete generated controls (or properties) file and reformat
/// it; `None` when the pretty printer rejects the rendered source.
pub fn generate_controls_file(controls: &Vec<Control>, ty: ControlsType) -> (r: Option<Vec<u8>>)
    requires
        forall|i: int|
            0 <= i < controls@.len() ==> ((#[trigger] controls@[i].size) matches Some(s)
                ==> spec_valid_size(s@)),
    ensures
        match r {
            Some(v) => reformatted_of(
                spec_controls_file_source(
                    controls@.map_values(|c: Control| control_view(c)),
                    ty,
                ),
            ) == Some(v@),
            None => reformatted_of(
                spec_controls_file_source(
                    controls@.map_values(|c: Control| control_view(c)),
                    ty,
                ),
            ) is None,
        },
{
    let mut src = l_ctl_header_v();
    let body = generate_controls(controls, ty);
    push_bytes(&mut src, body.as_slice());
    proof {
        assert(src@ =~= spec_controls_file_source(
            controls@.map_values(|c: Control| control_view(c)),
            ty,
        ));
    }
    reformat_rust(src.as_slice())
}

} // verus!
