//! Format-constant resolution: each catalogue entry's symbolic macro name
//! is resolved through the fourcc table, falling back to a legacy alias
//! name derived by prefix substitution; an entry that resolves through
//! neither table aborts the run with both attempted names.

use vstd::prelude::*;

use crate::consts::{
    drm_format_prefix, spec_assoc_u32, spec_assoc_u64, table32_view, table64_view, v4l2_prefix,
    lookup_u32, lookup_u64, drm_format_prefix_bytes, v4l2_prefix_bytes,
};
use crate::text::{bytes_to_vec, bytes_eq, match_at, push_bytes};
use crate::yaml::{spec_hash_get, yaml_docs_of, hash_get, parse_yaml, YamlNode, YamlPair};

verus! {

/// `fourcc`
pub open spec fn kw_fourcc() -> Seq<u8> {
    seq![102u8, 111u8, 117u8, 114u8, 99u8, 99u8]
}

fn kw_fourcc_bytes() -> (r: Vec<u8>)
    ensures
        r@ == kw_fourcc(),
{
    let r: Vec<u8> = vec![102u8, 111u8, 117u8, 114u8, 99u8, 99u8];
    proof {
        assert(r@ =~= kw_fourcc());
    }
    r
}

/// `big_endian`
pub open spec fn kw_big_endian() -> Seq<u8> {
    seq![98u8, 105u8, 103u8, 95u8, 101u8, 110u8, 100u8, 105u8, 97u8, 110u8]
}

fn kw_big_endian_bytes() -> (r: Vec<u8>)
    ensures
        r@ == kw_big_endian(),
{
    let r: Vec<u8> = vec![98u8, 105u8, 103u8, 95u8, 101u8, 110u8, 100u8, 105u8, 97u8, 110u8];
    proof {
        assert(r@ =~= kw_big_endian());
    }
    r
}

/// `modifier`
pub open spec fn kw_modifier() -> Seq<u8> {
    seq![109u8, 111u8, 100u8, 105u8, 102u8, 105u8, 101u8, 114u8]
}

fn kw_modifier_bytes() -> (r: Vec<u8>)
    ensures
        r@ == kw_modifier(),
{
    let r: Vec<u8> = vec![109u8, 111u8, 100u8, 105u8, 102u8, 105u8, 101u8, 114u8];
    proof {
        assert(r@ =~= kw_modifier());
    }
    r
}

/// `formats`
pub open spec fn kw_formats() -> Seq<u8> {
    seq![102u8, 111u8, 114u8, 109u8, 97u8, 116u8, 115u8]
}

fn kw_formats_bytes() -> (r: Vec<u8>)
    ensures
        r@ == kw_formats(),
{
    let r: Vec<u8> = vec![102u8, 111u8, 114u8, 109u8, 97u8, 116u8, 115u8];
    proof {
        assert(r@ =~= kw_formats());
    }
    r
}

/// A resolved format constant: symbolic name, packed code, modifier.
#[derive(Debug, Clone)]
pub struct FormatConst {
    pub name: Vec<u8>,
    pub fourcc: u32,
    pub modifier: u64,
}

/// Mathematical image of `FormatConst`.
pub struct FormatConstView {
    pub name: Seq<u8>,
    pub fourcc: u32,
    pub modifier: u64,
}

pub open spec fn format_const_view(f: FormatConst) -> FormatConstView {
    FormatConstView { name: f.name@, fourcc: f.fourcc, modifier: f.modifier }
}

/// Why catalogue extraction failed; any of these aborts the whole run.
#[derive(Debug, Clone)]
pub enum CatalogError {
    /// The catalogue text failed to parse.
    Parse,
    /// A catalogue document did not have the expected shape.
    Document,
    /// A fourcc name resolved through neither table; both attempted names
    /// are carried for diagnostics.
    Unresolved(Vec<u8>, Vec<u8>),
}

/// Mathematical image of `CatalogError`.
pub enum CatalogErrorView {
    Parse,
    Document,
    Unresolved(Seq<u8>, Seq<u8>),
}

pub open spec fn catalog_error_view(e: CatalogError) -> CatalogErrorView {
    match e {
        CatalogError::Parse => CatalogErrorView::Parse,
        CatalogError::Document => CatalogErrorView::Document,
        CatalogError::Unresolved(a, b) => CatalogErrorView::Unresolved(a@, b@),
    }
}

/// Strip every repetition of `prefix` from the front of `s`.
pub open spec fn spec_strip_prefix_all(s: Seq<u8>, prefix: Seq<u8>) -> Seq<u8>
    decreases s.len(),
{
    if prefix.len() > 0 && s.len() >= prefix.len() && s.subrange(0, prefix.len() as int)
        == prefix {
        spec_strip_prefix_all(s.skip(prefix.len() as int), prefix)
    } else {
        s
    }
}

/// The legacy alias name tried when the primary name misses: the primary
/// prefix stripped, the alias prefix put in front.
pub open spec fn spec_alt_name(name: Seq<u8>) -> Seq<u8> {
    v4l2_prefix() + spec_strip_prefix_all(name, drm_format_prefix())
}

/// Executable form of `spec_alt_name`.
fn alt_name(name: &[u8]) -> (r: Vec<u8>)
    ensures
        r@ == spec_alt_name(name@),
{
    let prefix = drm_format_prefix_bytes();
    let mut start: usize = 0;
    let n = name.len();
    proof {
        assert(name@.subrange(0, n as int) =~= name@);
    }
    while n - start >= 11 && match_at(name, start, prefix.as_slice())
        invariant
            start <= n,
            n == name@.len(),
            prefix@ == drm_format_prefix(),
            spec_strip_prefix_all(name@, drm_format_prefix()) == spec_strip_prefix_all(
                name@.subrange(start as int, n as int),
                drm_format_prefix(),
            ),
        decreases n - start,
    {
        proof {
            assert(drm_format_prefix().len() == 11);
            assert(name@.subrange(start as int, n as int).subrange(0, 11) =~= name@.subrange(
                start as int,
                start + 11,
            ));
            assert(name@.subrange(start as int, n as int).skip(11) =~= name@.subrange(
                start + 11,
                n as int,
            ));
        }
        start = start + 11;
    }
    proof {
        assert(drm_format_prefix().len() == 11);
        if name@.subrange(start as int, n as int).len() >= 11 {
            assert(name@.subrange(start as int, n as int).subrange(0, 11) =~= name@.subrange(
                start as int,
                start + 11,
            ));
        }
        assert(spec_strip_prefix_all(name@.subrange(start as int, n as int), drm_format_prefix())
            == name@.subrange(start as int, n as int));
    }
    let mut out = v4l2_prefix_bytes();
    let suffix = vstd::slice::slice_subrange(name, start, n);
    push_bytes(&mut out, suffix);
    out
}

/// One catalogue entry: the declared macro name resolved first in the
/// fourcc table, then as its legacy alias; the big-endian flag sets the
/// top bit; the modifier name resolves through the modifier table and
/// defaults to zero.
pub open spec fn spec_format_const_of(
    name: Seq<u8>,
    val: YamlNode,
    drm: Seq<(Seq<u8>, u32)>,
    v4l2: Seq<(Seq<u8>, u32)>,
    mods: Seq<(Seq<u8>, u64)>,
) -> Result<FormatConstView, CatalogErrorView> {
    match val {
        YamlNode::Hash(pairs) => {
            match spec_hash_get(pairs@, kw_fourcc()) {
                Some(YamlNode::Str(fname)) => {
                    let alt = spec_alt_name(fname@);
                    let code0 = match spec_assoc_u32(drm, fname@) {
                        Some(c) => Some(c),
                        None => spec_assoc_u32(v4l2, alt),
                    };
                    match code0 {
                        None => Err(CatalogErrorView::Unresolved(fname@, alt)),
                        Some(c) => {
                            let be = match spec_hash_get(pairs@, kw_big_endian()) {
                                Some(YamlNode::Boolean(b)) => b,
                                _ => false,
                            };
                            let code = if be {
                                c | 0x8000_0000
                            } else {
                                c
                            };
                            let modifier = match spec_hash_get(pairs@, kw_modifier()) {
                                Some(YamlNode::Str(m)) => match spec_assoc_u64(mods, m@) {
                                    Some(v) => v,
                                    None => 0,
                                },
                                _ => 0,
                            };
                            Ok(FormatConstView { name, fourcc: code, modifier })
                        },
                    }
                },
                _ => Err(CatalogErrorView::Document),
            }
        },
        _ => Err(CatalogErrorView::Document),
    }
}

/// Executable form of `spec_format_const_of`.
fn format_const_of(
    name: &[u8],
    val: &YamlNode,
    drm: &Vec<(Vec<u8>, u32)>,
    v4l2: &Vec<(Vec<u8>, u32)>,
    mods: &Vec<(Vec<u8>, u64)>,
) -> (r: Result<FormatConst, CatalogError>)
    ensures
        match r {
            Ok(f) => spec_format_const_of(
                name@,
                *val,
                table32_view(drm@),
                table32_view(v4l2@),
                table64_view(mods@),
            ) == Ok::<FormatConstView, CatalogErrorView>(format_const_view(f)),
            Err(e) => spec_format_const_of(
                name@,
                *val,
                table32_view(drm@),
                table32_view(v4l2@),
                table64_view(mods@),
            ) == Err::<FormatConstView, CatalogErrorView>(catalog_error_view(e)),
        },
{
    let pairs = match val {
        YamlNode::Hash(pairs) => pairs,
        _ => {
            return Err(CatalogError::Document);
        },
    };
    let fname = match hash_get(pairs, kw_fourcc_bytes().as_slice()) {
        Some(YamlNode::Str(fname)) => fname,
        _ => {
            return Err(CatalogError::Document);
        },
    };
    let alt = alt_name(fname.as_slice());
    let code0 = match lookup_u32(drm, fname.as_slice()) {
        Some(c) => Some(c),
        None => lookup_u32(v4l2, alt.as_slice()),
    };
    let c = match code0 {
        Some(c) => c,
        None => {
            return Err(CatalogError::Unresolved(bytes_to_vec(fname.as_slice()), alt));
        },
    };
    let be = match hash_get(pairs, kw_big_endian_bytes().as_slice()) {
        Some(YamlNode::Boolean(b)) => *b,
        _ => false,
    };
    let code = if be {
        c | 0x8000_0000
    } else {
        c
    };
    let modifier = match hash_get(pairs, kw_modifier_bytes().as_slice()) {
        Some(YamlNode::Str(m)) => {
            match lookup_u64(mods, m.as_slice()) {
                Some(v) => v,
                None => 0,
            }
        },
        _ => 0,
    };
    Ok(FormatConst { name: bytes_to_vec(name), fourcc: code, modifier })
}

/// The constants of one entry mapping's pairs, from `i` on; every key must
/// be a string.
pub open spec fn spec_entry_consts_from(
    pairs: Seq<YamlPair>,
    i: int,
    drm: Seq<(Seq<u8>, u32)>,
    v4l2: Seq<(Seq<u8>, u32)>,
    mods: Seq<(Seq<u8>, u64)>,
) -> Result<Seq<FormatConstView>, CatalogErrorView>
    decreases pairs.len() - i,
{
    if i < 0 || i >= pairs.len() {
        Ok(Seq::empty())
    } else {
        match pairs[i].key {
            YamlNode::Str(nm) => match spec_format_const_of(nm@, pairs[i].value, drm, v4l2, mods) {
                Err(e) => Err(e),
                Ok(f) => match spec_entry_consts_from(pairs, i + 1, drm, v4l2, mods) {
                    Err(e) => Err(e),
                    Ok(r) => Ok(seq![f] + r),
                },
            },
            _ => Err(CatalogErrorView::Document),
        }
    }
}

/// The constants of a `formats` list, from `i` on; every entry must be a
/// mapping.
pub open spec fn spec_entries_consts_from(
    entries: Seq<YamlNode>,
    i: int,
    drm: Seq<(Seq<u8>, u32)>,
    v4l2: Seq<(Seq<u8>, u32)>,
    mods: Seq<(Seq<u8>, u64)>,
) -> Result<Seq<FormatConstView>, CatalogErrorView>
    decreases entries.len() - i,
{
    if i < 0 || i >= entries.len() {
        Ok(Seq::empty())
    } else {
        match entries[i] {
            YamlNode::Hash(pairs) => match spec_entry_consts_from(pairs@, 0, drm, v4l2, mods) {
                Err(e) => Err(e),
                Ok(fs) => match spec_entries_consts_from(entries, i + 1, drm, v4l2, mods) {
                    Err(e) => Err(e),
                    Ok(r) => Ok(fs + r),
                },
            },
            _ => Err(CatalogErrorView::Document),
        }
    }
}

/// The constants of one document: its `formats` list when it has one, and
/// nothing otherwise.
pub open spec fn spec_doc_consts(
    doc: YamlNode,
    drm: Seq<(Seq<u8>, u32)>,
    v4l2: Seq<(Seq<u8>, u32)>,
    mods: Seq<(Seq<u8>, u64)>,
) -> Result<Seq<FormatConstView>, CatalogErrorView> {
    match doc {
        YamlNode::Hash(pairs) => match spec_hash_get(pairs@, kw_formats()) {
            Some(YamlNode::Array(entries)) => spec_entries_consts_from(entries@, 0, drm, v4l2, mods),
            _ => Ok(Seq::empty()),
        },
        _ => Ok(Seq::empty()),
    }
}

/// The constants of a list of documents, from `i` on.
pub open spec fn spec_docs_consts_from(
    docs: Seq<YamlNode>,
    i: int,
    drm: Seq<(Seq<u8>, u32)>,
    v4l2: Seq<(Seq<u8>, u32)>,
    mods: Seq<(Seq<u8>, u64)>,
) -> Result<Seq<FormatConstView>, CatalogErrorView>
    decreases docs.len() - i,
{
    if i < 0 || i >= docs.len() {
        Ok(Seq::empty())
    } else {
        match spec_doc_consts(docs[i], drm, v4l2, mods) {
            Err(e) => Err(e),
            Ok(fs) => match spec_docs_consts_from(docs, i + 1, drm, v4l2, mods) {
                Err(e) => Err(e),
                Ok(r) => Ok(fs + r),
            },
        }
    }
}

/// The constants a catalogue text resolves to, against the three tables.
pub open spec fn spec_format_consts(
    text: Seq<char>,
    drm: Seq<(Seq<u8>, u32)>,
    v4l2: Seq<(Seq<u8>, u32)>,
    mods: Seq<(Seq<u8>, u64)>,
) -> Result<Seq<FormatConstView>, CatalogErrorView> {
    match yaml_docs_of(text) {
        None => Err(CatalogErrorView::Parse),
        Some(docs) => spec_docs_consts_from(docs, 0, drm, v4l2, mods),
    }
}

/// Parse the format catalogue text and resolve every entry, in document
/// order. A name that resolves through neither table aborts the run with
/// both attempted names in the error.
#[verifier::rlimit(100)]
pub fn parse_format_consts(
    text: &str,
    drm: &Vec<(Vec<u8>, u32)>,
    v4l2: &Vec<(Vec<u8>, u32)>,
    mods: &Vec<(Vec<u8>, u64)>,
) -> (r: Result<Vec<FormatConst>, CatalogError>)
    ensures
        match r {
            Ok(fs) => spec_format_consts(
                text@,
                table32_view(drm@),
                table32_view(v4l2@),
                table64_view(mods@),
            ) == Ok::<Seq<FormatConstView>, CatalogErrorView>(
                fs@.map_values(|f: FormatConst| format_const_view(f)),
            ),
            Err(e) => spec_format_consts(
                text@,
                table32_view(drm@),
                table32_view(v4l2@),
                table64_view(mods@),
            ) == Err::<Seq<FormatConstView>, CatalogErrorView>(catalog_error_view(e)),
        },
{
    let ghost gdrm = table32_view(drm@);
    let ghost gv4l2 = table32_view(v4l2@);
    let ghost gmods = table64_view(mods@);
    let docs = match parse_yaml(text) {
        None => {
            return Err(CatalogError::Parse);
        },
        Some(docs) => docs,
    };
    let m = docs.len();
    let mut out: Vec<FormatConst> = Vec::new();
    for j in 0..m
        invariant
            m == docs@.len(),
            gdrm == table32_view(drm@),
            gv4l2 == table32_view(v4l2@),
            gmods == table64_view(mods@),
            yaml_docs_of(text@) == Some(docs@),
            match spec_docs_consts_from(docs@, j as int, gdrm, gv4l2, gmods) {
                Err(e) => spec_docs_consts_from(docs@, 0, gdrm, gv4l2, gmods) == Err::<
                    Seq<FormatConstView>,
                    CatalogErrorView,
                >(e),
                Ok(r) => spec_docs_consts_from(docs@, 0, gdrm, gv4l2, gmods) matches Ok(w) && w
                    == out@.map_values(|f: FormatConst| format_const_view(f)) + r,
            },
    {
        let entries_found: Option<(&Vec<YamlPair>, &Vec<YamlNode>)> = match &docs[j] {
            YamlNode::Hash(pairs) => {
                match hash_get(pairs, kw_formats_bytes().as_slice()) {
                    Some(YamlNode::Array(entries)) => Some((pairs, entries)),
                    _ => None,
                }
            },
            _ => None,
        };
        match entries_found {
            None => {
                proof {
                    assert(spec_doc_consts(docs@[j as int], gdrm, gv4l2, gmods) == Ok::<
                        Seq<FormatConstView>,
                        CatalogErrorView,
                    >(Seq::empty()));
                    match spec_docs_consts_from(docs@, j + 1, gdrm, gv4l2, gmods) {
                        Err(_) => {},
                        Ok(r) => {
                            assert(Seq::<FormatConstView>::empty() + r =~= r);
                        },
                    }
                }
            },
            Some((pairs, entries)) => {
        let ghost docbase = out@.map_values(|f: FormatConst| format_const_view(f));
        let ne = entries.len();
        for k in 0..ne
            invariant
                ne == entries@.len(),
                gdrm == table32_view(drm@),
                gv4l2 == table32_view(v4l2@),
                gmods == table64_view(mods@),
                docs@[j as int] matches YamlNode::Hash(ps) && ps@ == pairs@,
                spec_hash_get(pairs@, kw_formats()) matches Some(n) && n matches YamlNode::Array(
                    es,
                ) && es@ == entries@,
                j < m,
                m == docs@.len(),
                yaml_docs_of(text@) == Some(docs@),
                match spec_docs_consts_from(docs@, j as int, gdrm, gv4l2, gmods) {
                    Err(e) => spec_docs_consts_from(docs@, 0, gdrm, gv4l2, gmods) == Err::<
                        Seq<FormatConstView>,
                        CatalogErrorView,
                    >(e),
                    Ok(r) => spec_docs_consts_from(docs@, 0, gdrm, gv4l2, gmods) matches Ok(w)
                        && w == docbase + r,
                },
                match spec_entries_consts_from(entries@, k as int, gdrm, gv4l2, gmods) {
                    Err(e) => spec_entries_consts_from(entries@, 0, gdrm, gv4l2, gmods) == Err::<
                        Seq<FormatConstView>,
                        CatalogErrorView,
                    >(e),
                    Ok(r) => spec_entries_consts_from(entries@, 0, gdrm, gv4l2, gmods) matches Ok(
                        w,
                    ) && docbase + w == out@.map_values(|f: FormatConst| format_const_view(f))
                        + r,
                },
        {
            let epairs = match &entries[k] {
                YamlNode::Hash(epairs) => epairs,
                _ => {
                    return Err(CatalogError::Document);
                },
            };
            let np = epairs.len();
            let ghost entrybase = out@.map_values(|f: FormatConst| format_const_view(f));
            for p in 0..np
                invariant
                    np == epairs@.len(),
                    gdrm == table32_view(drm@),
                    gv4l2 == table32_view(v4l2@),
                    gmods == table64_view(mods@),
                    docs@[j as int] matches YamlNode::Hash(ps) && ps@ == pairs@,
                    spec_hash_get(pairs@, kw_formats()) matches Some(n) && n matches
                        YamlNode::Array(es) && es@ == entries@,
                    entries@[k as int] matches YamlNode::Hash(eps) && eps@ == epairs@,
                    j < m,
                    k < ne,
                    ne == entries@.len(),
                    m == docs@.len(),
                    yaml_docs_of(text@) == Some(docs@),
                    match spec_docs_consts_from(docs@, j as int, gdrm, gv4l2, gmods) {
                        Err(e) => spec_docs_consts_from(docs@, 0, gdrm, gv4l2, gmods) == Err::<
                            Seq<FormatConstView>,
                            CatalogErrorView,
                        >(e),
                        Ok(r) => spec_docs_consts_from(docs@, 0, gdrm, gv4l2, gmods) matches Ok(
                            w,
                        ) && w == docbase + r,
                    },
                    match spec_entries_consts_from(entries@, k as int, gdrm, gv4l2, gmods) {
                        Err(e) => spec_entries_consts_from(entries@, 0, gdrm, gv4l2, gmods)
                            == Err::<Seq<FormatConstView>, CatalogErrorView>(e),
                        Ok(r) => spec_entries_consts_from(entries@, 0, gdrm, gv4l2, gmods)
                            matches Ok(w) && docbase + w == entrybase + r,
                    },
                    match spec_entry_consts_from(epairs@, p as int, gdrm, gv4l2, gmods) {
                        Err(e) => spec_entry_consts_from(epairs@, 0, gdrm, gv4l2, gmods) == Err::<
                            Seq<FormatConstView>,
                            CatalogErrorView,
                        >(e),
                        Ok(r) => spec_entry_consts_from(epairs@, 0, gdrm, gv4l2, gmods) matches
                            Ok(w) && entrybase + w == out@.map_values(
                            |f: FormatConst| format_const_view(f),
                        ) + r,
                    },
            {
                let nm = match &epairs[p].key {
                    YamlNode::Str(nm) => nm,
                    _ => {
                        return Err(CatalogError::Document);
                    },
                };
                match format_const_of(nm.as_slice(), &epairs[p].value, drm, v4l2, mods) {
                    Err(e) => {
                        return Err(e);
                    },
                    Ok(f) => {
                        let ghost pre = out@.map_values(|ff: FormatConst| format_const_view(ff));
                        let ghost fv = format_const_view(f);
                        out.push(f);
                        proof {
                            assert(out@.map_values(|ff: FormatConst| format_const_view(ff)) =~= pre
                                + seq![fv]);
                            match spec_entry_consts_from(epairs@, p + 1, gdrm, gv4l2, gmods) {
                                Err(_) => {},
                                Ok(r) => {
                                    assert(pre + (seq![fv] + r) =~= (pre + seq![fv]) + r);
                                },
                            }
                        }
                    },
                }
            }
            proof {
                assert(spec_entry_consts_from(epairs@, np as int, gdrm, gv4l2, gmods) == Ok::<
                    Seq<FormatConstView>,
                    CatalogErrorView,
                >(Seq::empty()));
                assert(out@.map_values(|f: FormatConst| format_const_view(f)) + Seq::<
                    FormatConstView,
                >::empty() =~= out@.map_values(|f: FormatConst| format_const_view(f)));
                match spec_entries_consts_from(entries@, k + 1, gdrm, gv4l2, gmods) {
                    Err(_) => {},
                    Ok(r) => {
                        match spec_entry_consts_from(epairs@, 0, gdrm, gv4l2, gmods) {
                            Err(_) => {},
                            Ok(fs) => {
                                assert(entrybase + (fs + r) =~= (entrybase + fs) + r);
                            },
                        }
                    },
                }
            }
        }
        proof {
            assert(spec_entries_consts_from(entries@, ne as int, gdrm, gv4l2, gmods) == Ok::<
                Seq<FormatConstView>,
                CatalogErrorView,
            >(Seq::empty()));
            assert(out@.map_values(|f: FormatConst| format_const_view(f)) + Seq::<
                FormatConstView,
            >::empty() =~= out@.map_values(|f: FormatConst| format_const_view(f)));
            match spec_docs_consts_from(docs@, j + 1, gdrm, gv4l2, gmods) {
                Err(_) => {},
                Ok(r) => {
                    match spec_entries_consts_from(entries@, 0, gdrm, gv4l2, gmods) {
                        Err(_) => {},
                        Ok(fs) => {
                            assert(docbase + (fs + r) =~= (docbase + fs) + r);
                        },
                    }
                },
            }
        }
            },
        }
    }
    proof {
        assert(spec_docs_consts_from(docs@, m as int, gdrm, gv4l2, gmods) == Ok::<
            Seq<FormatConstView>,
            CatalogErrorView,
        >(Seq::empty()));
        assert(out@.map_values(|f: FormatConst| format_const_view(f)) + Seq::<
            FormatConstView,
        >::empty() =~= out@.map_values(|f: FormatConst| format_const_view(f)));
    }
    Ok(out)
}

} // verus!
