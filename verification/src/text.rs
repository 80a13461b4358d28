//! Byte-level text helpers shared by the header scanners and the code
//! emitter: whitespace handling, literal matching, identifier scanning,
//! number parsing and number rendering.

use vstd::prelude::*;

verus! {

/// Horizontal whitespace inside one line (a line never holds a newline).
pub open spec fn is_space(b: u8) -> bool {
    b == 32 || b == 9 || b == 11 || b == 12 || b == 13
}

/// A byte of a C identifier.
pub open spec fn is_ident_byte(b: u8) -> bool {
    (65 <= b <= 90) || (97 <= b <= 122) || (48 <= b <= 57) || b == 95
}

pub fn byte_is_space(b: u8) -> (r: bool)
    ensures
        r == is_space(b),
{
    b == 32 || b == 9 || b == 11 || b == 12 || b == 13
}

pub fn byte_is_ident(b: u8) -> (r: bool)
    ensures
        r == is_ident_byte(b),
{
    (65 <= b && b <= 90) || (97 <= b && b <= 122) || (48 <= b && b <= 57) || b == 95
}

/// First index at or after `i` where `b` occurs, or the length.
pub open spec fn spec_find(s: Seq<u8>, i: int, b: u8) -> int
    decreases s.len() - i,
{
    if i < 0 {
        spec_find(s, 0, b)
    } else if i >= s.len() {
        s.len() as int
    } else if s[i] == b {
        i
    } else {
        spec_find(s, i + 1, b)
    }
}

pub proof fn lemma_find_bounds(s: Seq<u8>, i: int, b: u8)
    requires
        0 <= i <= s.len(),
    ensures
        i <= spec_find(s, i, b) <= s.len(),
        spec_find(s, i, b) < s.len() ==> s[spec_find(s, i, b)] == b,
        forall|k: int| i <= k < spec_find(s, i, b) ==> s[k] != b,
    decreases s.len() - i,
{
    if i < s.len() && s[i] != b {
        lemma_find_bounds(s, i + 1, b);
    }
}

/// Bounds of `spec_find`, available wherever the function is mentioned.
pub broadcast proof fn lemma_find_ge(s: Seq<u8>, i: int, b: u8)
    ensures
        0 <= i <= s.len() ==> i <= #[trigger] spec_find(s, i, b) <= s.len(),
{
    if 0 <= i <= s.len() {
        lemma_find_bounds(s, i, b);
    }
}

pub fn find_byte(s: &[u8], from: usize, b: u8) -> (r: usize)
    requires
        from <= s@.len(),
    ensures
        r == spec_find(s@, from as int, b),
        from <= r <= s@.len(),
        r < s@.len() ==> s@[r as int] == b,
{
    let n = s.len();
    let mut i = from;
    while i < n && s[i] != b
        invariant
            from <= i <= n,
            n == s@.len(),
            spec_find(s@, from as int, b) == spec_find(s@, i as int, b),
        decreases n - i,
    {
        i = i + 1;
    }
    proof {
        lemma_find_bounds(s@, i as int, b);
    }
    i
}

/// First index at or after `i` that is not horizontal whitespace.
pub open spec fn spec_skip_ws(s: Seq<u8>, i: int) -> int
    decreases s.len() - i,
{
    if i < 0 {
        spec_skip_ws(s, 0)
    } else if i >= s.len() {
        s.len() as int
    } else if is_space(s[i]) {
        spec_skip_ws(s, i + 1)
    } else {
        i
    }
}

pub fn skip_ws(s: &[u8], from: usize) -> (r: usize)
    requires
        from <= s@.len(),
    ensures
        r == spec_skip_ws(s@, from as int),
        from <= r <= s@.len(),
{
    let n = s.len();
    let mut i = from;
    while i < n && byte_is_space(s[i])
        invariant
            from <= i <= n,
            n == s@.len(),
            spec_skip_ws(s@, from as int) == spec_skip_ws(s@, i as int),
        decreases n - i,
    {
        i = i + 1;
    }
    i
}

/// First index at or after `i` that is not an identifier byte.
pub open spec fn spec_ident_end(s: Seq<u8>, i: int) -> int
    decreases s.len() - i,
{
    if i < 0 {
        spec_ident_end(s, 0)
    } else if i >= s.len() {
        s.len() as int
    } else if is_ident_byte(s[i]) {
        spec_ident_end(s, i + 1)
    } else {
        i
    }
}

pub proof fn lemma_ident_end_bounds(s: Seq<u8>, i: int)
    requires
        0 <= i <= s.len(),
    ensures
        i <= spec_ident_end(s, i) <= s.len(),
    decreases s.len() - i,
{
    if i < s.len() && is_ident_byte(s[i]) {
        lemma_ident_end_bounds(s, i + 1);
    }
}

pub fn ident_end(s: &[u8], from: usize) -> (r: usize)
    requires
        from <= s@.len(),
    ensures
        r == spec_ident_end(s@, from as int),
        from <= r <= s@.len(),
{
    let n = s.len();
    let mut i = from;
    while i < n && byte_is_ident(s[i])
        invariant
            from <= i <= n,
            n == s@.len(),
            spec_ident_end(s@, from as int) == spec_ident_end(s@, i as int),
        decreases n - i,
    {
        i = i + 1;
    }
    i
}

/// `lit` occurs in `s` starting at `i`.
pub open spec fn spec_match_at(s: Seq<u8>, i: int, lit: Seq<u8>) -> bool {
    0 <= i && i + lit.len() <= s.len() && s.subrange(i, i + lit.len()) == lit
}

pub fn match_at(s: &[u8], i: usize, lit: &[u8]) -> (r: bool)
    requires
        i <= s@.len(),
    ensures
        r == spec_match_at(s@, i as int, lit@),
{
    let m = lit.len();
    if s.len() - i < m {
        proof {
            assert(!spec_match_at(s@, i as int, lit@));
        }
        return false;
    }
    let n = s.len();
    let mut k: usize = 0;
    while k < m
        invariant
            k <= m,
            m == lit@.len(),
            n == s@.len(),
            i + m <= n,
            forall|j: int| 0 <= j < k ==> s@[i + j] == lit@[j],
        decreases m - k,
    {
        proof {
            assert(i + k < s@.len());
        }
        if s[i + k] != lit[k] {
            proof {
                assert(s@.subrange(i as int, i + m)[k as int] == s@[i + k]);
                assert(s@.subrange(i as int, i + m) != lit@);
            }
            return false;
        }
        k = k + 1;
    }
    proof {
        assert(s@.subrange(i as int, i + m) =~= lit@);
    }
    true
}

/// Two byte strings hold the same bytes.
pub fn bytes_eq(a: &[u8], b: &[u8]) -> (r: bool)
    ensures
        r == (a@ == b@),
{
    if a.len() != b.len() {
        proof {
            assert(a@ != b@);
        }
        return false;
    }
    let n = a.len();
    let mut k: usize = 0;
    while k < n
        invariant
            k <= n,
            n == a@.len() == b@.len(),
            forall|j: int| 0 <= j < k ==> a@[j] == b@[j],
        decreases n - k,
    {
        if a[k] != b[k] {
            proof {
                assert(a@[k as int] != b@[k as int]);
            }
            return false;
        }
        k = k + 1;
    }
    proof {
        assert(a@ =~= b@);
    }
    true
}

/// Copy a byte slice into an owned vector.
pub fn bytes_to_vec(s: &[u8]) -> (r: Vec<u8>)
    ensures
        r@ == s@,
{
    let mut out: Vec<u8> = Vec::new();
    let n = s.len();
    let mut i: usize = 0;
    while i < n
        invariant
            i <= n,
            n == s@.len(),
            out@ == s@.take(i as int),
        decreases n - i,
    {
        out.push(s[i]);
        proof {
            assert(s@.take(i + 1) == s@.take(i as int).push(s@[i as int]));
        }
        i = i + 1;
    }
    proof {
        assert(s@.take(n as int) == s@);
    }
    out
}

/// Append a byte slice to a vector.
pub fn push_bytes(out: &mut Vec<u8>, s: &[u8])
    ensures
        final(out)@ == old(out)@ + s@,
{
    let n = s.len();
    let mut i: usize = 0;
    while i < n
        invariant
            i <= n,
            n == s@.len(),
            out@ == old(out)@ + s@.take(i as int),
        decreases n - i,
    {
        out.push(s[i]);
        proof {
            assert(s@.take(i + 1) == s@.take(i as int).push(s@[i as int]));
            assert(old(out)@ + s@.take(i + 1) == (old(out)@ + s@.take(i as int)).push(
                s@[i as int],
            ));
        }
        i = i + 1;
    }
    proof {
        assert(s@.take(n as int) == s@);
    }
}

/// First index at or after `i` whose byte fails `p`.
pub open spec fn spec_skip_pred(s: Seq<u8>, i: int, p: spec_fn(u8) -> bool) -> int
    decreases s.len() - i,
{
    if i < 0 {
        spec_skip_pred(s, 0, p)
    } else if i >= s.len() {
        s.len() as int
    } else if p(s[i]) {
        spec_skip_pred(s, i + 1, p)
    } else {
        i
    }
}

/// Last index at or before `j` such that every byte from there to `j` fails
/// `p` when read backwards: the end of a trimmed range.
pub open spec fn spec_rskip_pred(s: Seq<u8>, j: int, p: spec_fn(u8) -> bool) -> int
    decreases j,
{
    if j <= 0 {
        0
    } else if j > s.len() {
        spec_rskip_pred(s, s.len() as int, p)
    } else if p(s[j - 1]) {
        spec_rskip_pred(s, j - 1, p)
    } else {
        j
    }
}

/// `s` with bytes satisfying `p` removed from both ends.
pub open spec fn spec_trim_pred(s: Seq<u8>, p: spec_fn(u8) -> bool) -> Seq<u8> {
    let a = spec_skip_pred(s, 0, p);
    let b = spec_rskip_pred(s, s.len() as int, p);
    if a < b {
        s.subrange(a, b)
    } else {
        Seq::empty()
    }
}

pub open spec fn is_quote(b: u8) -> bool {
    b == 39
}

proof fn lemma_skip_pred_bounds(s: Seq<u8>, i: int, p: spec_fn(u8) -> bool)
    requires
        0 <= i <= s.len(),
    ensures
        i <= spec_skip_pred(s, i, p) <= s.len(),
    decreases s.len() - i,
{
    if i < s.len() && p(s[i]) {
        lemma_skip_pred_bounds(s, i + 1, p);
    }
}

proof fn lemma_rskip_pred_bounds(s: Seq<u8>, j: int, p: spec_fn(u8) -> bool)
    requires
        0 <= j <= s.len(),
    ensures
        0 <= spec_rskip_pred(s, j, p) <= j,
    decreases j,
{
    if j > 0 && p(s[j - 1]) {
        lemma_rskip_pred_bounds(s, j - 1, p);
    }
}

/// Trim horizontal whitespace from both ends, as a half-open byte range;
/// an all-whitespace string yields an empty range.
pub fn trim_ws_range(s: &[u8]) -> (r: (usize, usize))
    ensures
        r.0 <= r.1 <= s@.len(),
        s@.subrange(r.0 as int, r.1 as int) == spec_trim_pred(s@, |b: u8| is_space(b)),
{
    let ghost p: spec_fn(u8) -> bool = |b: u8| is_space(b);
    let n = s.len();
    let mut a: usize = 0;
    while a < n && byte_is_space(s[a])
        invariant
            a <= n,
            n == s@.len(),
            p == (|b: u8| is_space(b)),
            spec_skip_pred(s@, 0, p) == spec_skip_pred(s@, a as int, p),
        decreases n - a,
    {
        a = a + 1;
    }
    let mut b: usize = n;
    while b > 0 && byte_is_space(s[b - 1])
        invariant
            b <= n,
            n == s@.len(),
            p == (|b: u8| is_space(b)),
            spec_rskip_pred(s@, n as int, p) == spec_rskip_pred(s@, b as int, p),
        decreases b,
    {
        b = b - 1;
    }
    if a < b {
        (a, b)
    } else {
        proof {
            assert(s@.subrange(a as int, a as int) =~= Seq::<u8>::empty());
        }
        (a, a)
    }
}

/// Trim single-quote characters from both ends, as a half-open byte range.
pub fn trim_quotes_range(s: &[u8]) -> (r: (usize, usize))
    ensures
        r.0 <= r.1 <= s@.len(),
        s@.subrange(r.0 as int, r.1 as int) == spec_trim_pred(s@, |b: u8| is_quote(b)),
{
    let ghost p: spec_fn(u8) -> bool = |b: u8| is_quote(b);
    let n = s.len();
    let mut a: usize = 0;
    while a < n && s[a] == 39
        invariant
            a <= n,
            n == s@.len(),
            p == (|b: u8| is_quote(b)),
            spec_skip_pred(s@, 0, p) == spec_skip_pred(s@, a as int, p),
        decreases n - a,
    {
        a = a + 1;
    }
    let mut b: usize = n;
    while b > 0 && s[b - 1] == 39
        invariant
            b <= n,
            n == s@.len(),
            p == (|b: u8| is_quote(b)),
            spec_rskip_pred(s@, n as int, p) == spec_rskip_pred(s@, b as int, p),
        decreases b,
    {
        b = b - 1;
    }
    if a < b {
        (a, b)
    } else {
        proof {
            assert(s@.subrange(a as int, a as int) =~= Seq::<u8>::empty());
        }
        (a, a)
    }
}

/// The value of a hexadecimal digit, or 16 for a byte that is none.
pub open spec fn hex_digit_val(b: u8) -> int {
    if 48 <= b <= 57 {
        b - 48
    } else if 97 <= b <= 102 {
        b - 87
    } else if 65 <= b <= 70 {
        b - 55
    } else {
        16
    }
}

pub open spec fn is_hex_digit(b: u8) -> bool {
    hex_digit_val(b) < 16
}

/// Unbounded value of a string of hexadecimal digits.
pub open spec fn spec_hex_val(s: Seq<u8>) -> int
    decreases s.len(),
{
    if s.len() == 0 {
        0
    } else {
        spec_hex_val(s.drop_last()) * 16 + hex_digit_val(s.last())
    }
}

pub open spec fn all_hex_digits(s: Seq<u8>) -> bool {
    forall|k: int| 0 <= k < s.len() ==> is_hex_digit(#[trigger] s[k])
}

/// What a hexadecimal number parser makes of `s`: its value when `s` is a
/// non-empty string of hex digits whose value fits in a `u64`, else 0.
pub open spec fn spec_hex_of(s: Seq<u8>) -> u64 {
    if s.len() >= 1 && all_hex_digits(s) && spec_hex_val(s) <= u64::MAX {
        spec_hex_val(s) as u64
    } else {
        0
    }
}

proof fn lemma_hex_val_nonneg(s: Seq<u8>)
    ensures
        spec_hex_val(s) >= 0,
    decreases s.len(),
{
    if s.len() > 0 {
        lemma_hex_val_nonneg(s.drop_last());
    }
}

/// Parse a hexadecimal number, yielding 0 on any malformed or overflowing
/// input, as a parser that falls back to a default does.
pub fn parse_hex_u64(s: &[u8]) -> (r: u64)
    ensures
        r == spec_hex_of(s@),
{
    let n = s.len();
    if n == 0 {
        return 0;
    }
    let mut acc: u64 = 0;
    let mut over = false;
    let mut i: usize = 0;
    while i < n
        invariant
            i <= n,
            n == s@.len(),
            all_hex_digits(s@.take(i as int)),
            over <==> spec_hex_val(s@.take(i as int)) > u64::MAX,
            !over ==> acc == spec_hex_val(s@.take(i as int)),
        decreases n - i,
    {
        let b = s[i];
        let d: u64 = if 48 <= b && b <= 57 {
            (b - 48) as u64
        } else if 97 <= b && b <= 102 {
            (b - 87) as u64
        } else if 65 <= b && b <= 70 {
            (b - 55) as u64
        } else {
            proof {
                assert(!is_hex_digit(s@[i as int]));
            }
            return 0;
        };
        proof {
            assert(s@.take(i + 1).drop_last() == s@.take(i as int));
            assert(s@.take(i + 1).last() == s@[i as int]);
            assert(d == hex_digit_val(s@[i as int]));
            lemma_hex_val_nonneg(s@.take(i as int));
            assert(forall|k: int|
                0 <= k < i + 1 ==> is_hex_digit(#[trigger] s@.take(i + 1)[k]) == is_hex_digit(
                    s@[k],
                ));
        }
        let ghost prev = spec_hex_val(s@.take(i as int));
        if over || acc > (u64::MAX - d) / 16 {
            proof {
                if over {
                    assert(prev * 16 + d > u64::MAX) by (nonlinear_arith)
                        requires
                            prev > u64::MAX,
                            d >= 0,
                    ;
                } else {
                    assert(acc * 16 + d > u64::MAX) by (nonlinear_arith)
                        requires
                            acc > (u64::MAX - d) / 16,
                            0 <= d < 16,
                            acc >= 0,
                    ;
                }
            }
            over = true;
        } else {
            proof {
                assert(acc * 16 + d <= u64::MAX) by (nonlinear_arith)
                    requires
                        acc <= (u64::MAX - d) / 16,
                        0 <= d < 16,
                        acc >= 0,
                ;
            }
            acc = acc * 16 + d;
        }
        i = i + 1;
    }
    proof {
        assert(s@.take(n as int) == s@);
    }
    if over {
        0
    } else {
        acc
    }
}

/// The value of a decimal digit, or 10 for a byte that is none.
pub open spec fn dec_digit_val(b: u8) -> int {
    if 48 <= b <= 57 {
        b - 48
    } else {
        10
    }
}

pub open spec fn is_dec_digit(b: u8) -> bool {
    48 <= b <= 57
}

/// Unbounded value of a string of decimal digits.
pub open spec fn spec_dec_val(s: Seq<u8>) -> int
    decreases s.len(),
{
    if s.len() == 0 {
        0
    } else {
        spec_dec_val(s.drop_last()) * 10 + dec_digit_val(s.last())
    }
}

pub open spec fn all_dec_digits(s: Seq<u8>) -> bool {
    forall|k: int| 0 <= k < s.len() ==> is_dec_digit(#[trigger] s[k])
}

/// What a decimal `u32` parser makes of `s`: `Some` of its value when `s`
/// is a non-empty digit string whose value fits, else `None`.
pub open spec fn spec_dec_u32_of(s: Seq<u8>) -> Option<u32> {
    if s.len() >= 1 && all_dec_digits(s) && spec_dec_val(s) <= u32::MAX {
        Some(spec_dec_val(s) as u32)
    } else {
        None
    }
}

proof fn lemma_dec_val_nonneg(s: Seq<u8>)
    ensures
        spec_dec_val(s) >= 0,
    decreases s.len(),
{
    if s.len() > 0 {
        lemma_dec_val_nonneg(s.drop_last());
    }
}

/// Parse a decimal `u32`; malformed or overflowing input yields `None`.
pub fn parse_dec_u32(s: &[u8]) -> (r: Option<u32>)
    ensures
        r == spec_dec_u32_of(s@),
{
    let n = s.len();
    if n == 0 {
        return None;
    }
    let mut acc: u32 = 0;
    let mut i: usize = 0;
    while i < n
        invariant
            i <= n,
            n == s@.len(),
            all_dec_digits(s@.take(i as int)),
            acc == spec_dec_val(s@.take(i as int)),
            spec_dec_val(s@.take(i as int)) <= u32::MAX,
        decreases n - i,
    {
        let b = s[i];
        if !(48 <= b && b <= 57) {
            proof {
                assert(!is_dec_digit(s@[i as int]));
                assert(s@.take(n as int) == s@);
            }
            return None;
        }
        let d = (b - 48) as u32;
        proof {
            assert(s@.take(i + 1).drop_last() == s@.take(i as int));
            assert(s@.take(i + 1).last() == s@[i as int]);
            assert(d == dec_digit_val(s@[i as int]));
            lemma_dec_val_nonneg(s@.take(i as int));
            assert(forall|k: int|
                0 <= k < i + 1 ==> is_dec_digit(#[trigger] s@.take(i + 1)[k]) == is_dec_digit(
                    s@[k],
                ));
        }
        if acc > (u32::MAX - d) / 10 {
            proof {
                assert(acc * 10 + d > u32::MAX) by (nonlinear_arith)
                    requires
                        acc > (u32::MAX - d) / 10,
                        0 <= d < 10,
                        acc >= 0,
                ;
                assert(s@.take(i + 1).drop_last() == s@.take(i as int));
                assert(s@.take(i + 1).last() == s@[i as int]);
                assert(spec_dec_val(s@.take(i + 1)) == spec_dec_val(s@.take(i as int)) * 10
                    + dec_digit_val(s@[i as int]));
                assert(spec_dec_val(s@.take(i + 1)) > u32::MAX);
                lemma_dec_prefix_mono(s@, i + 1, n as int);
                assert(s@.take(n as int) == s@);
                assert(spec_dec_val(s@) > u32::MAX);
            }
            return None;
        }
        proof {
            assert(acc * 10 + d <= u32::MAX) by (nonlinear_arith)
                requires
                    acc <= (u32::MAX - d) / 10,
                    0 <= d < 10,
                    acc >= 0,
            ;
        }
        acc = acc * 10 + d;
        i = i + 1;
    }
    proof {
        assert(s@.take(n as int) == s@);
    }
    Some(acc)
}

/// A longer digit prefix never has a smaller value.
proof fn lemma_dec_prefix_mono(s: Seq<u8>, i: int, j: int)
    requires
        0 <= i <= j <= s.len(),
    ensures
        spec_dec_val(s.take(i)) <= spec_dec_val(s.take(j)),
    decreases j - i,
{
    if i < j {
        lemma_dec_prefix_mono(s, i, j - 1);
        assert(s.take(j).drop_last() == s.take(j - 1));
        lemma_dec_val_nonneg(s.take(j - 1));
        assert(spec_dec_val(s.take(j)) == spec_dec_val(s.take(j - 1)) * 10 + dec_digit_val(
            s.take(j).last(),
        ));
        assert(spec_dec_val(s.take(j - 1)) * 10 >= spec_dec_val(s.take(j - 1))) by (nonlinear_arith)
            requires
                spec_dec_val(s.take(j - 1)) >= 0,
        ;
        assert(dec_digit_val(s.take(j).last()) >= 0);
    }
}

/// Decimal rendering of an unsigned value, most significant digit first.
pub open spec fn spec_dec_render(v: int) -> Seq<u8>
    decreases v,
{
    if v <= 0 {
        seq![48u8]
    } else if v < 10 {
        seq![(48 + v) as u8]
    } else {
        spec_dec_render(v / 10) + seq![(48 + v % 10) as u8]
    }
}

/// Render `v` in decimal.
pub fn render_dec_u64(v: u64) -> (r: Vec<u8>)
    ensures
        r@ == spec_dec_render(v as int),
    decreases v,
{
    if v < 10 {
        let mut out: Vec<u8> = Vec::new();
        out.push(48 + (v as u8));
        proof {
            assert(out@ =~= spec_dec_render(v as int));
        }
        out
    } else {
        let mut out = render_dec_u64(v / 10);
        out.push(48 + ((v % 10) as u8));
        proof {
            assert(out@ =~= spec_dec_render(v as int));
        }
        out
    }
}

/// The lower-case hexadecimal digit for the low four bits of `v`.
pub open spec fn hex_digit_of(v: int) -> u8 {
    if v < 10 {
        (48 + v) as u8
    } else {
        (87 + v) as u8
    }
}

/// Fixed-width lower-case hexadecimal rendering, most significant first.
pub open spec fn spec_hex_render(v: int, digits: nat) -> Seq<u8>
    decreases digits,
{
    if digits == 0 {
        Seq::empty()
    } else {
        spec_hex_render(v / 16, (digits - 1) as nat) + seq![hex_digit_of(v % 16)]
    }
}

/// Render the low `digits` nibbles of `v` in fixed-width hexadecimal.
pub fn render_hex_u64(v: u64, digits: u32) -> (r: Vec<u8>)
    ensures
        r@ == spec_hex_render(v as int, digits as nat),
    decreases digits,
{
    if digits == 0 {
        let out: Vec<u8> = Vec::new();
        proof {
            assert(out@ =~= spec_hex_render(v as int, 0));
        }
        out
    } else {
        let mut out = render_hex_u64(v / 16, digits - 1);
        let nib = (v % 16) as u8;
        let d: u8 = if nib < 10 {
            48 + nib
        } else {
            87 + nib
        };
        out.push(d);
        proof {
            assert(out@ =~= spec_hex_render(v as int, digits as nat));
        }
        out
    }
}


/// Whitespace including line breaks, for scanning block-structured text.
pub open spec fn is_wsnl(b: u8) -> bool {
    is_space(b) || b == 10
}

pub fn byte_is_wsnl(b: u8) -> (r: bool)
    ensures
        r == is_wsnl(b),
{
    byte_is_space(b) || b == 10
}

/// First index at or after `i` that is not whitespace or a line break.
pub open spec fn spec_skip_wsnl(s: Seq<u8>, i: int) -> int
    decreases s.len() - i,
{
    if i < 0 {
        spec_skip_wsnl(s, 0)
    } else if i >= s.len() {
        s.len() as int
    } else if is_wsnl(s[i]) {
        spec_skip_wsnl(s, i + 1)
    } else {
        i
    }
}

pub fn skip_wsnl(s: &[u8], from: usize) -> (r: usize)
    requires
        from <= s@.len(),
    ensures
        r == spec_skip_wsnl(s@, from as int),
        from <= r <= s@.len(),
{
    let n = s.len();
    let mut i = from;
    while i < n && byte_is_wsnl(s[i])
        invariant
            from <= i <= n,
            n == s@.len(),
            spec_skip_wsnl(s@, from as int) == spec_skip_wsnl(s@, i as int),
        decreases n - i,
    {
        i = i + 1;
    }
    i
}

/// First index at or after `i` where `lit` occurs, or the length.
pub open spec fn spec_find_match(s: Seq<u8>, i: int, lit: Seq<u8>) -> int
    decreases s.len() - i,
{
    if i < 0 {
        spec_find_match(s, 0, lit)
    } else if i >= s.len() {
        s.len() as int
    } else if spec_match_at(s, i, lit) {
        i
    } else {
        spec_find_match(s, i + 1, lit)
    }
}

/// Bounds of `spec_find_match`, available wherever it is mentioned.
pub broadcast proof fn lemma_find_match_ge(s: Seq<u8>, i: int, lit: Seq<u8>)
    ensures
        0 <= i <= s.len() ==> i <= #[trigger] spec_find_match(s, i, lit) <= s.len(),
    decreases s.len() - i,
{
    if 0 <= i < s.len() && !spec_match_at(s, i, lit) {
        lemma_find_match_ge(s, i + 1, lit);
    }
}

pub fn find_match(s: &[u8], from: usize, lit: &[u8]) -> (r: usize)
    requires
        from <= s@.len(),
    ensures
        r == spec_find_match(s@, from as int, lit@),
        from <= r <= s@.len(),
        r < s@.len() ==> spec_match_at(s@, r as int, lit@),
{
    let n = s.len();
    let mut i = from;
    loop
        invariant
            from <= i <= n,
            n == s@.len(),
            spec_find_match(s@, from as int, lit@) == spec_find_match(s@, i as int, lit@),
        decreases n - i,
    {
        if i >= n {
            proof {
                lemma_find_match_ge(s@, i as int, lit@);
            }
            return i;
        }
        if match_at(s, i, lit) {
            return i;
        }
        i = i + 1;
    }
}

/// First index at or after `i` that is not an ASCII letter.
pub open spec fn spec_alpha_end(s: Seq<u8>, i: int) -> int
    decreases s.len() - i,
{
    if i < 0 {
        spec_alpha_end(s, 0)
    } else if i >= s.len() {
        s.len() as int
    } else if (65 <= s[i] <= 90) || (97 <= s[i] <= 122) {
        spec_alpha_end(s, i + 1)
    } else {
        i
    }
}

pub fn alpha_end(s: &[u8], from: usize) -> (r: usize)
    requires
        from <= s@.len(),
    ensures
        r == spec_alpha_end(s@, from as int),
        from <= r <= s@.len(),
{
    let n = s.len();
    let mut i = from;
    while i < n && ((65 <= s[i] && s[i] <= 90) || (97 <= s[i] && s[i] <= 122))
        invariant
            from <= i <= n,
            n == s@.len(),
            spec_alpha_end(s@, from as int) == spec_alpha_end(s@, i as int),
        decreases n - i,
    {
        i = i + 1;
    }
    i
}

/// First index at or after `i` that is not a decimal digit.
pub open spec fn spec_dec_end(s: Seq<u8>, i: int) -> int
    decreases s.len() - i,
{
    if i < 0 {
        spec_dec_end(s, 0)
    } else if i >= s.len() {
        s.len() as int
    } else if is_dec_digit(s[i]) {
        spec_dec_end(s, i + 1)
    } else {
        i
    }
}

pub fn dec_end(s: &[u8], from: usize) -> (r: usize)
    requires
        from <= s@.len(),
    ensures
        r == spec_dec_end(s@, from as int),
        from <= r <= s@.len(),
{
    let n = s.len();
    let mut i = from;
    while i < n && 48 <= s[i] && s[i] <= 57
        invariant
            from <= i <= n,
            n == s@.len(),
            spec_dec_end(s@, from as int) == spec_dec_end(s@, i as int),
        decreases n - i,
    {
        i = i + 1;
    }
    i
}


/// Bounds of `spec_skip_wsnl`, available wherever it is mentioned.
pub broadcast proof fn lemma_skip_wsnl_ge(s: Seq<u8>, i: int)
    ensures
        0 <= i <= s.len() ==> i <= #[trigger] spec_skip_wsnl(s, i) <= s.len(),
    decreases s.len() - i,
{
    if 0 <= i < s.len() && is_wsnl(s[i]) {
        lemma_skip_wsnl_ge(s, i + 1);
    }
}

/// Bounds of `spec_ident_end`, available wherever it is mentioned.
pub broadcast proof fn lemma_ident_end_ge(s: Seq<u8>, i: int)
    ensures
        0 <= i <= s.len() ==> i <= #[trigger] spec_ident_end(s, i) <= s.len(),
{
    if 0 <= i <= s.len() {
        lemma_ident_end_bounds(s, i);
    }
}


/// Trim whitespace including line breaks from both ends, as a half-open
/// byte range.
pub fn trim_wsnl_range(s: &[u8]) -> (r: (usize, usize))
    ensures
        r.0 <= r.1 <= s@.len(),
        s@.subrange(r.0 as int, r.1 as int) == spec_trim_pred(s@, |b: u8| is_wsnl(b)),
{
    let ghost p: spec_fn(u8) -> bool = |b: u8| is_wsnl(b);
    let n = s.len();
    let mut a: usize = 0;
    while a < n && byte_is_wsnl(s[a])
        invariant
            a <= n,
            n == s@.len(),
            p == (|b: u8| is_wsnl(b)),
            spec_skip_pred(s@, 0, p) == spec_skip_pred(s@, a as int, p),
        decreases n - a,
    {
        a = a + 1;
    }
    let mut b: usize = n;
    while b > 0 && byte_is_wsnl(s[b - 1])
        invariant
            b <= n,
            n == s@.len(),
            p == (|b: u8| is_wsnl(b)),
            spec_rskip_pred(s@, n as int, p) == spec_rskip_pred(s@, b as int, p),
        decreases b,
    {
        b = b - 1;
    }
    if a < b {
        (a, b)
    } else {
        proof {
            assert(s@.subrange(a as int, a as int) =~= Seq::<u8>::empty());
        }
        (a, a)
    }
}


/// First index at or after `i` that is horizontal whitespace.
pub open spec fn spec_token_end(s: Seq<u8>, i: int) -> int
    decreases s.len() - i,
{
    if i < 0 {
        spec_token_end(s, 0)
    } else if i >= s.len() {
        s.len() as int
    } else if !is_space(s[i]) {
        spec_token_end(s, i + 1)
    } else {
        i
    }
}

pub fn token_end(s: &[u8], from: usize) -> (r: usize)
    requires
        from <= s@.len(),
    ensures
        r == spec_token_end(s@, from as int),
        from <= r <= s@.len(),
{
    let n = s.len();
    let mut i = from;
    while i < n && !byte_is_space(s[i])
        invariant
            from <= i <= n,
            n == s@.len(),
            spec_token_end(s@, from as int) == spec_token_end(s@, i as int),
        decreases n - i,
    {
        i = i + 1;
    }
    i
}

/// What a decimal `u64` parser that falls back to zero makes of `s`: its
/// value when `s` is a non-empty digit string whose value fits, else 0.
pub open spec fn spec_dec_u64_of(s: Seq<u8>) -> u64 {
    if s.len() >= 1 && all_dec_digits(s) && spec_dec_val(s) <= u64::MAX {
        spec_dec_val(s) as u64
    } else {
        0
    }
}

/// Parse a decimal `u64`; malformed or overflowing input yields 0.
pub fn parse_dec_u64_or_zero(s: &[u8]) -> (r: u64)
    ensures
        r == spec_dec_u64_of(s@),
{
    let n = s.len();
    if n == 0 {
        return 0;
    }
    let mut acc: u64 = 0;
    let mut over = false;
    let mut i: usize = 0;
    while i < n
        invariant
            i <= n,
            n == s@.len(),
            all_dec_digits(s@.take(i as int)),
            over <==> spec_dec_val(s@.take(i as int)) > u64::MAX,
            !over ==> acc == spec_dec_val(s@.take(i as int)),
        decreases n - i,
    {
        let b = s[i];
        if !(48 <= b && b <= 57) {
            proof {
                assert(!is_dec_digit(s@[i as int]));
            }
            return 0;
        }
        let d = (b - 48) as u64;
        proof {
            assert(s@.take(i + 1).drop_last() == s@.take(i as int));
            assert(s@.take(i + 1).last() == s@[i as int]);
            assert(d == dec_digit_val(s@[i as int]));
            lemma_dec_val_nonneg(s@.take(i as int));
            assert(forall|k: int|
                0 <= k < i + 1 ==> is_dec_digit(#[trigger] s@.take(i + 1)[k]) == is_dec_digit(
                    s@[k],
                ));
        }
        let ghost prev = spec_dec_val(s@.take(i as int));
        if over || acc > (u64::MAX - d) / 10 {
            proof {
                if over {
                    assert(prev * 10 + d > u64::MAX) by (nonlinear_arith)
                        requires
                            prev > u64::MAX,
                            d >= 0,
                    ;
                } else {
                    assert(acc * 10 + d > u64::MAX) by (nonlinear_arith)
                        requires
                            acc > (u64::MAX - d) / 10,
                            0 <= d < 10,
                            acc >= 0,
                    ;
                }
            }
            over = true;
        } else {
            proof {
                assert(acc * 10 + d <= u64::MAX) by (nonlinear_arith)
                    requires
                        acc <= (u64::MAX - d) / 10,
                        0 <= d < 10,
                        acc >= 0,
                ;
            }
            acc = acc * 10 + d;
        }
        i = i + 1;
    }
    proof {
        assert(s@.take(n as int) == s@);
    }
    if over {
        0
    } else {
        acc
    }
}

/// `s` with every trailing occurrence of the byte `b` removed.
pub open spec fn spec_strip_trailing(s: Seq<u8>, b: u8) -> Seq<u8>
    decreases s.len(),
{
    if s.len() > 0 && s.last() == b {
        spec_strip_trailing(s.drop_last(), b)
    } else {
        s
    }
}

/// End index of `s` once every trailing `b` is removed.
pub fn strip_trailing_end(s: &[u8], b: u8) -> (r: usize)
    ensures
        r <= s@.len(),
        s@.subrange(0, r as int) == spec_strip_trailing(s@, b),
{
    let n = s.len();
    let mut end = n;
    proof {
        assert(s@.subrange(0, n as int) =~= s@);
    }
    while end > 0 && s[end - 1] == b
        invariant
            end <= n,
            n == s@.len(),
            spec_strip_trailing(s@, b) == spec_strip_trailing(s@.subrange(0, end as int), b),
        decreases end,
    {
        proof {
            assert(s@.subrange(0, end as int).drop_last() =~= s@.subrange(0, end - 1));
            assert(s@.subrange(0, end as int).last() == s@[end - 1]);
        }
        end = end - 1;
    }
    proof {
        assert(spec_strip_trailing(s@.subrange(0, end as int), b) == s@.subrange(0, end as int));
    }
    end
}

/// `s` with every leading occurrence of the byte `b` removed.
pub open spec fn spec_strip_leading(s: Seq<u8>, b: u8) -> Seq<u8>
    decreases s.len(),
{
    if s.len() > 0 && s[0] == b {
        spec_strip_leading(s.drop_first(), b)
    } else {
        s
    }
}

/// Start index of `s` once every leading `b` is removed.
pub fn strip_leading_start(s: &[u8], b: u8) -> (r: usize)
    ensures
        r <= s@.len(),
        s@.subrange(r as int, s@.len() as int) == spec_strip_leading(s@, b),
{
    let n = s.len();
    let mut start: usize = 0;
    proof {
        assert(s@.subrange(0, n as int) =~= s@);
    }
    while start < n && s[start] == b
        invariant
            start <= n,
            n == s@.len(),
            spec_strip_leading(s@, b) == spec_strip_leading(
                s@.subrange(start as int, n as int),
                b,
            ),
        decreases n - start,
    {
        proof {
            assert(s@.subrange(start as int, n as int).drop_first() =~= s@.subrange(
                start + 1,
                n as int,
            ));
        }
        start = start + 1;
    }
    proof {
        assert(spec_strip_leading(s@.subrange(start as int, n as int), b) == s@.subrange(
            start as int,
            n as int,
        ));
    }
    start
}

} // verus!
