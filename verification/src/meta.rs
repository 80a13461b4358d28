//! The typed schema model: controls and properties as the normalizer
//! reads them from the per-version schema documents, with the vendor
//! inference, scalar-type keywords, size-specification invariant and
//! enumeration structure of the format enforced.

use vstd::prelude::*;

use crate::text::bytes_eq;
use crate::yaml::{spec_hash_get, yaml_docs_of, hash_get, parse_yaml, YamlNode, YamlPair};

verus! {

/// `vendor`
pub open spec fn kw_vendor() -> Seq<u8> {
    seq![118u8, 101u8, 110u8, 100u8, 111u8, 114u8]
}

fn kw_vendor_bytes() -> (r: Vec<u8>)
    ensures
        r@ == kw_vendor(),
{
    let r: Vec<u8> = vec![118u8, 101u8, 110u8, 100u8, 111u8, 114u8];
    proof {
        assert(r@ =~= kw_vendor());
    }
    r
}

/// `controls`
pub open spec fn kw_controls() -> Seq<u8> {
    seq![99u8, 111u8, 110u8, 116u8, 114u8, 111u8, 108u8, 115u8]
}

fn kw_controls_bytes() -> (r: Vec<u8>)
    ensures
        r@ == kw_controls(),
{
    let r: Vec<u8> = vec![99u8, 111u8, 110u8, 116u8, 114u8, 111u8, 108u8, 115u8];
    proof {
        assert(r@ =~= kw_controls());
    }
    r
}

/// `draft`
pub open spec fn kw_draft() -> Seq<u8> {
    seq![100u8, 114u8, 97u8, 102u8, 116u8]
}

fn kw_draft_bytes() -> (r: Vec<u8>)
    ensures
        r@ == kw_draft(),
{
    let r: Vec<u8> = vec![100u8, 114u8, 97u8, 102u8, 116u8];
    proof {
        assert(r@ =~= kw_draft());
    }
    r
}

/// `type`
pub open spec fn kw_type() -> Seq<u8> {
    seq![116u8, 121u8, 112u8, 101u8]
}

fn kw_type_bytes() -> (r: Vec<u8>)
    ensures
        r@ == kw_type(),
{
    let r: Vec<u8> = vec![116u8, 121u8, 112u8, 101u8];
    proof {
        assert(r@ =~= kw_type());
    }
    r
}

/// `description`
pub open spec fn kw_description() -> Seq<u8> {
    seq![100u8, 101u8, 115u8, 99u8, 114u8, 105u8, 112u8, 116u8, 105u8, 111u8, 110u8]
}

fn kw_description_bytes() -> (r: Vec<u8>)
    ensures
        r@ == kw_description(),
{
    let r: Vec<u8> = vec![100u8, 101u8, 115u8, 99u8, 114u8, 105u8, 112u8, 116u8, 105u8, 111u8, 110u8];
    proof {
        assert(r@ =~= kw_description());
    }
    r
}

/// `size`
pub open spec fn kw_size() -> Seq<u8> {
    seq![115u8, 105u8, 122u8, 101u8]
}

fn kw_size_bytes() -> (r: Vec<u8>)
    ensures
        r@ == kw_size(),
{
    let r: Vec<u8> = vec![115u8, 105u8, 122u8, 101u8];
    proof {
        assert(r@ =~= kw_size());
    }
    r
}

/// `enum`
pub open spec fn kw_enum() -> Seq<u8> {
    seq![101u8, 110u8, 117u8, 109u8]
}

fn kw_enum_bytes() -> (r: Vec<u8>)
    ensures
        r@ == kw_enum(),
{
    let r: Vec<u8> = vec![101u8, 110u8, 117u8, 109u8];
    proof {
        assert(r@ =~= kw_enum());
    }
    r
}

/// `name`
pub open spec fn kw_name() -> Seq<u8> {
    seq![110u8, 97u8, 109u8, 101u8]
}

fn kw_name_bytes() -> (r: Vec<u8>)
    ensures
        r@ == kw_name(),
{
    let r: Vec<u8> = vec![110u8, 97u8, 109u8, 101u8];
    proof {
        assert(r@ =~= kw_name());
    }
    r
}

/// `value`
pub open spec fn kw_value() -> Seq<u8> {
    seq![118u8, 97u8, 108u8, 117u8, 101u8]
}

fn kw_value_bytes() -> (r: Vec<u8>)
    ensures
        r@ == kw_value(),
{
    let r: Vec<u8> = vec![118u8, 97u8, 108u8, 117u8, 101u8];
    proof {
        assert(r@ =~= kw_value());
    }
    r
}

/// `libcamera`
pub open spec fn vendor_libcamera() -> Seq<u8> {
    seq![108u8, 105u8, 98u8, 99u8, 97u8, 109u8, 101u8, 114u8, 97u8]
}

pub fn vendor_libcamera_bytes() -> (r: Vec<u8>)
    ensures
        r@ == vendor_libcamera(),
{
    let r: Vec<u8> = vec![108u8, 105u8, 98u8, 99u8, 97u8, 109u8, 101u8, 114u8, 97u8];
    proof {
        assert(r@ =~= vendor_libcamera());
    }
    r
}

/// The scalar type of a control or property.
#[derive(Debug, Clone, Copy, PartialEq, Eq, Structural)]
pub enum ControlType {
    Bool,
    Byte,
    Uint16,
    Uint32,
    Int32,
    Int64,
    Float,
    Text,
    Rectangle,
    Size,
    Point,
}

/// One dimension of a control's size specification.
#[derive(Debug, Clone, Copy, PartialEq, Eq, Structural)]
pub enum ControlSize {
    /// A run-time-sized dimension.
    Dynamic,
    /// A fixed dimension of the given extent.
    Fixed(usize),
}

/// One value of an enumerated control.
#[derive(Debug, Clone)]
pub struct ControlEnumValue {
    pub name: Vec<u8>,
    pub value: i64,
    pub description: Vec<u8>,
}

/// A normalized control or property record.
#[derive(Debug, Clone)]
pub struct Control {
    pub name: Vec<u8>,
    pub vendor: Vec<u8>,
    pub typ: ControlType,
    pub description: Vec<u8>,
    pub size: Option<Vec<ControlSize>>,
    pub enumeration: Option<Vec<ControlEnumValue>>,
}

/// Why schema extraction failed; any of these aborts the whole run.
#[derive(Debug, Clone, Copy, PartialEq, Eq, Structural)]
pub enum SchemaError {
    /// A document did not have the expected shape.
    Document,
    /// A schema text failed to parse at all.
    Parse,
    /// A control is missing its type, or uses an unknown type keyword.
    BadType,
    /// A control is missing its description.
    Description,
    /// A size specification is malformed: a non-size item, no dimensions,
    /// or a dynamic dimension that is not the only dimension.
    SizeSpec,
    /// An enumeration entry is malformed.
    Enumeration,
}

/// Mathematical image of `ControlEnumValue`.
pub struct EnumValueView {
    pub name: Seq<u8>,
    pub value: i64,
    pub description: Seq<u8>,
}

/// Mathematical image of `Control`.
pub struct ControlView {
    pub name: Seq<u8>,
    pub vendor: Seq<u8>,
    pub typ: ControlType,
    pub description: Seq<u8>,
    pub size: Option<Seq<ControlSize>>,
    pub enumeration: Option<Seq<EnumValueView>>,
}

pub open spec fn enum_value_view(e: ControlEnumValue) -> EnumValueView {
    EnumValueView { name: e.name@, value: e.value, description: e.description@ }
}

pub open spec fn control_view(c: Control) -> ControlView {
    ControlView {
        name: c.name@,
        vendor: c.vendor@,
        typ: c.typ,
        description: c.description@,
        size: match c.size {
            Some(v) => Some(v@),
            None => None,
        },
        enumeration: match c.enumeration {
            Some(v) => Some(v@.map_values(|e: ControlEnumValue| enum_value_view(e))),
            None => None,
        },
    }
}

/// The scalar type a keyword denotes.
pub open spec fn spec_control_type_of(s: Seq<u8>) -> Option<ControlType> {
    if s == seq![98u8, 111u8, 111u8, 108u8] {
        Some(ControlType::Bool)
    } else if s == seq![117u8, 105u8, 110u8, 116u8, 56u8, 95u8, 116u8] {
        Some(ControlType::Byte)
    } else if s == seq![117u8, 105u8, 110u8, 116u8, 49u8, 54u8, 95u8, 116u8] {
        Some(ControlType::Uint16)
    } else if s == seq![117u8, 105u8, 110u8, 116u8, 51u8, 50u8, 95u8, 116u8] {
        Some(ControlType::Uint32)
    } else if s == seq![105u8, 110u8, 116u8, 51u8, 50u8, 95u8, 116u8] {
        Some(ControlType::Int32)
    } else if s == seq![105u8, 110u8, 116u8, 54u8, 52u8, 95u8, 116u8] {
        Some(ControlType::Int64)
    } else if s == seq![102u8, 108u8, 111u8, 97u8, 116u8] {
        Some(ControlType::Float)
    } else if s == seq![115u8, 116u8, 114u8, 105u8, 110u8, 103u8] {
        Some(ControlType::Text)
    } else if s == seq![82u8, 101u8, 99u8, 116u8, 97u8, 110u8, 103u8, 108u8, 101u8] {
        Some(ControlType::Rectangle)
    } else if s == seq![83u8, 105u8, 122u8, 101u8] {
        Some(ControlType::Size)
    } else if s == seq![80u8, 111u8, 105u8, 110u8, 116u8] {
        Some(ControlType::Point)
    } else {
        None
    }
}

/// Executable form of `spec_control_type_of`.
pub fn control_type_of(s: &[u8]) -> (r: Option<ControlType>)
    ensures
        r == spec_control_type_of(s@),
{
    let lit_bool: Vec<u8> = vec![98u8, 111u8, 111u8, 108u8];
    if bytes_eq(s, lit_bool.as_slice()) {
        proof {
            assert(lit_bool@ =~= seq![98u8, 111u8, 111u8, 108u8]);
        }
        return Some(ControlType::Bool);
    }
    proof {
        assert(lit_bool@ =~= seq![98u8, 111u8, 111u8, 108u8]);
    }
    let lit_byte: Vec<u8> = vec![117u8, 105u8, 110u8, 116u8, 56u8, 95u8, 116u8];
    if bytes_eq(s, lit_byte.as_slice()) {
        proof {
            assert(lit_byte@ =~= seq![117u8, 105u8, 110u8, 116u8, 56u8, 95u8, 116u8]);
        }
        return Some(ControlType::Byte);
    }
    proof {
        assert(lit_byte@ =~= seq![117u8, 105u8, 110u8, 116u8, 56u8, 95u8, 116u8]);
    }
    let lit_uint16: Vec<u8> = vec![117u8, 105u8, 110u8, 116u8, 49u8, 54u8, 95u8, 116u8];
    if bytes_eq(s, lit_uint16.as_slice()) {
        proof {
            assert(lit_uint16@ =~= seq![117u8, 105u8, 110u8, 116u8, 49u8, 54u8, 95u8, 116u8]);
        }
        return Some(ControlType::Uint16);
    }
    proof {
        assert(lit_uint16@ =~= seq![117u8, 105u8, 110u8, 116u8, 49u8, 54u8, 95u8, 116u8]);
    }
    let lit_uint32: Vec<u8> = vec![117u8, 105u8, 110u8, 116u8, 51u8, 50u8, 95u8, 116u8];
    if bytes_eq(s, lit_uint32.as_slice()) {
        proof {
            assert(lit_uint32@ =~= seq![117u8, 105u8, 110u8, 116u8, 51u8, 50u8, 95u8, 116u8]);
        }
        return Some(ControlType::Uint32);
    }
    proof {
        assert(lit_uint32@ =~= seq![117u8, 105u8, 110u8, 116u8, 51u8, 50u8, 95u8, 116u8]);
    }
    let lit_int32: Vec<u8> = vec![105u8, 110u8, 116u8, 51u8, 50u8, 95u8, 116u8];
    if bytes_eq(s, lit_int32.as_slice()) {
        proof {
            assert(lit_int32@ =~= seq![105u8, 110u8, 116u8, 51u8, 50u8, 95u8, 116u8]);
        }
        return Some(ControlType::Int32);
    }
    proof {
        assert(lit_int32@ =~= seq![105u8, 110u8, 116u8, 51u8, 50u8, 95u8, 116u8]);
    }
    let lit_int64: Vec<u8> = vec![105u8, 110u8, 116u8, 54u8, 52u8, 95u8, 116u8];
    if bytes_eq(s, lit_int64.as_slice()) {
        proof {
            assert(lit_int64@ =~= seq![105u8, 110u8, 116u8, 54u8, 52u8, 95u8, 116u8]);
        }
        return Some(ControlType::Int64);
    }
    proof {
        assert(lit_int64@ =~= seq![105u8, 110u8, 116u8, 54u8, 52u8, 95u8, 116u8]);
    }
    let lit_float: Vec<u8> = vec![102u8, 108u8, 111u8, 97u8, 116u8];
    if bytes_eq(s, lit_float.as_slice()) {
        proof {
            assert(lit_float@ =~= seq![102u8, 108u8, 111u8, 97u8, 116u8]);
        }
        return Some(ControlType::Float);
    }
    proof {
        assert(lit_float@ =~= seq![102u8, 108u8, 111u8, 97u8, 116u8]);
    }
    let lit_text: Vec<u8> = vec![115u8, 116u8, 114u8, 105u8, 110u8, 103u8];
    if bytes_eq(s, lit_text.as_slice()) {
        proof {
            assert(lit_text@ =~= seq![115u8, 116u8, 114u8, 105u8, 110u8, 103u8]);
        }
        return Some(ControlType::Text);
    }
    proof {
        assert(lit_text@ =~= seq![115u8, 116u8, 114u8, 105u8, 110u8, 103u8]);
    }
    let lit_rectangle: Vec<u8> = vec![82u8, 101u8, 99u8, 116u8, 97u8, 110u8, 103u8, 108u8, 101u8];
    if bytes_eq(s, lit_rectangle.as_slice()) {
        proof {
            assert(lit_rectangle@ =~= seq![82u8, 101u8, 99u8, 116u8, 97u8, 110u8, 103u8, 108u8, 101u8]);
        }
        return Some(ControlType::Rectangle);
    }
    proof {
        assert(lit_rectangle@ =~= seq![82u8, 101u8, 99u8, 116u8, 97u8, 110u8, 103u8, 108u8, 101u8]);
    }
    let lit_size: Vec<u8> = vec![83u8, 105u8, 122u8, 101u8];
    if bytes_eq(s, lit_size.as_slice()) {
        proof {
            assert(lit_size@ =~= seq![83u8, 105u8, 122u8, 101u8]);
        }
        return Some(ControlType::Size);
    }
    proof {
        assert(lit_size@ =~= seq![83u8, 105u8, 122u8, 101u8]);
    }
    let lit_point: Vec<u8> = vec![80u8, 111u8, 105u8, 110u8, 116u8];
    if bytes_eq(s, lit_point.as_slice()) {
        proof {
            assert(lit_point@ =~= seq![80u8, 111u8, 105u8, 110u8, 116u8]);
        }
        return Some(ControlType::Point);
    }
    proof {
        assert(lit_point@ =~= seq![80u8, 111u8, 105u8, 110u8, 116u8]);
    }
    None
}


/// One size-specification item: an integer is a fixed dimension, a string
/// (the conventional size variable) a dynamic one. A negative or
/// unrepresentable extent is rejected.
pub open spec fn spec_size_item(n: YamlNode) -> Option<ControlSize> {
    match n {
        YamlNode::Integer(i) => if 0 <= i <= usize::MAX {
            Some(ControlSize::Fixed(i as usize))
        } else {
            None
        },
        YamlNode::Str(_) => Some(ControlSize::Dynamic),
        _ => None,
    }
}

fn size_item(n: &YamlNode) -> (r: Option<ControlSize>)
    ensures
        r == spec_size_item(*n),
{
    match n {
        YamlNode::Integer(i) => {
            if *i >= 0 && (*i as u64) <= (usize::MAX as u64) {
                Some(ControlSize::Fixed(*i as usize))
            } else {
                None
            }
        },
        YamlNode::Str(_) => Some(ControlSize::Dynamic),
        _ => None,
    }
}

/// All items of a size list from `i` on, or nothing when one is malformed.
pub open spec fn spec_size_list_from(items: Seq<YamlNode>, i: int) -> Option<Seq<ControlSize>>
    decreases items.len() - i,
{
    if i < 0 || i >= items.len() {
        Some(Seq::empty())
    } else {
        match spec_size_item(items[i]) {
            None => None,
            Some(x) => match spec_size_list_from(items, i + 1) {
                None => None,
                Some(r) => Some(seq![x] + r),
            },
        }
    }
}

fn size_list(items: &Vec<YamlNode>) -> (r: Option<Vec<ControlSize>>)
    ensures
        match r {
            Some(v) => spec_size_list_from(items@, 0) == Some(v@),
            None => spec_size_list_from(items@, 0) is None,
        },
{
    let n = items.len();
    let mut out: Vec<ControlSize> = Vec::new();
    proof {
        assert(Seq::<ControlSize>::empty() + Seq::<ControlSize>::empty() =~= Seq::<
            ControlSize,
        >::empty());
    }
    for i in 0..n
        invariant
            n == items@.len(),
            match spec_size_list_from(items@, i as int) {
                None => spec_size_list_from(items@, 0) is None,
                Some(r) => spec_size_list_from(items@, 0) == Some(out@ + r),
            },
    {
        match size_item(&items[i]) {
            None => {
                return None;
            },
            Some(x) => {
                let ghost pre = out@;
                out.push(x);
                proof {
                    match spec_size_list_from(items@, i + 1) {
                        None => {},
                        Some(r) => {
                            assert(pre + (seq![x] + r) =~= out@ + r);
                        },
                    }
                }
            },
        }
    }
    proof {
        assert(spec_size_list_from(items@, n as int) == Some(Seq::<ControlSize>::empty()));
        assert(out@ + Seq::<ControlSize>::empty() =~= out@);
    }
    Some(out)
}

/// A size specification is well formed when it has at least one dimension
/// and a dynamic dimension only as the sole dimension.
pub open spec fn spec_valid_size(s: Seq<ControlSize>) -> bool {
    &&& s.len() >= 1
    &&& (s[0] is Dynamic ==> s.len() == 1)
    &&& forall|k: int| 1 <= k < s.len() ==> !(#[trigger] s[k] is Dynamic)
}

/// Executable form of `spec_valid_size`.
pub fn valid_size(s: &Vec<ControlSize>) -> (r: bool)
    ensures
        r == spec_valid_size(s@),
{
    let n = s.len();
    if n == 0 {
        return false;
    }
    let first_dynamic = match s[0] {
        ControlSize::Dynamic => true,
        ControlSize::Fixed(_) => false,
    };
    if first_dynamic {
        return n == 1;
    }
    for k in 1..n
        invariant
            n == s@.len(),
            forall|j: int| 1 <= j < k ==> !(#[trigger] s@[j] is Dynamic),
    {
        match s[k] {
            ControlSize::Dynamic => {
                return false;
            },
            ControlSize::Fixed(_) => {},
        }
    }
    true
}

/// One enumeration entry: a mapping with a string name, an integer value
/// and a string description.
pub open spec fn spec_enum_item(n: YamlNode) -> Option<EnumValueView> {
    match n {
        YamlNode::Hash(pairs) => {
            match spec_hash_get(pairs@, kw_name()) {
                Some(YamlNode::Str(nm)) => match spec_hash_get(pairs@, kw_value()) {
                    Some(YamlNode::Integer(v)) => match spec_hash_get(pairs@, kw_description()) {
                        Some(YamlNode::Str(d)) => Some(
                            EnumValueView { name: nm@, value: v, description: d@ },
                        ),
                        _ => None,
                    },
                    _ => None,
                },
                _ => None,
            }
        },
        _ => None,
    }
}

fn enum_item(n: &YamlNode) -> (r: Option<ControlEnumValue>)
    ensures
        match r {
            Some(e) => spec_enum_item(*n) == Some(enum_value_view(e)),
            None => spec_enum_item(*n) is None,
        },
{
    match n {
        YamlNode::Hash(pairs) => {
            let nm = match hash_get(pairs, kw_name_bytes().as_slice()) {
                Some(YamlNode::Str(nm)) => nm,
                _ => {
                    return None;
                },
            };
            let v = match hash_get(pairs, kw_value_bytes().as_slice()) {
                Some(YamlNode::Integer(v)) => *v,
                _ => {
                    return None;
                },
            };
            let d = match hash_get(pairs, kw_description_bytes().as_slice()) {
                Some(YamlNode::Str(d)) => d,
                _ => {
                    return None;
                },
            };
            Some(
                ControlEnumValue {
                    name: crate::text::bytes_to_vec(nm.as_slice()),
                    value: v,
                    description: crate::text::bytes_to_vec(d.as_slice()),
                },
            )
        },
        _ => None,
    }
}

/// All entries of an enumeration list from `i` on, or nothing when one is
/// malformed.
pub open spec fn spec_enum_list_from(items: Seq<YamlNode>, i: int) -> Option<Seq<EnumValueView>>
    decreases items.len() - i,
{
    if i < 0 || i >= items.len() {
        Some(Seq::empty())
    } else {
        match spec_enum_item(items[i]) {
            None => None,
            Some(x) => match spec_enum_list_from(items, i + 1) {
                None => None,
                Some(r) => Some(seq![x] + r),
            },
        }
    }
}

fn enum_list(items: &Vec<YamlNode>) -> (r: Option<Vec<ControlEnumValue>>)
    ensures
        match r {
            Some(v) => spec_enum_list_from(items@, 0) == Some(
                v@.map_values(|e: ControlEnumValue| enum_value_view(e)),
            ),
            None => spec_enum_list_from(items@, 0) is None,
        },
{
    let n = items.len();
    let mut out: Vec<ControlEnumValue> = Vec::new();
    for i in 0..n
        invariant
            n == items@.len(),
            match spec_enum_list_from(items@, i as int) {
                None => spec_enum_list_from(items@, 0) is None,
                Some(r) => spec_enum_list_from(items@, 0) == Some(
                    out@.map_values(|e: ControlEnumValue| enum_value_view(e)) + r,
                ),
            },
    {
        match enum_item(&items[i]) {
            None => {
                return None;
            },
            Some(x) => {
                let ghost pre = out@.map_values(|e: ControlEnumValue| enum_value_view(e));
                let ghost xv = enum_value_view(x);
                out.push(x);
                proof {
                    assert(out@.map_values(|e: ControlEnumValue| enum_value_view(e)) =~= pre
                        + seq![xv]);
                    match spec_enum_list_from(items@, i + 1) {
                        None => {},
                        Some(r) => {
                            assert(pre + (seq![xv] + r) =~= (pre + seq![xv]) + r);
                        },
                    }
                }
            },
        }
    }
    proof {
        assert(spec_enum_list_from(items@, n as int) == Some(Seq::<EnumValueView>::empty()));
        assert(out@.map_values(|e: ControlEnumValue| enum_value_view(e)) + Seq::<
            EnumValueView,
        >::empty() =~= out@.map_values(|e: ControlEnumValue| enum_value_view(e)));
    }
    Some(out)
}


pub open spec fn opt_bytes_view(o: Option<Vec<u8>>) -> Option<Seq<u8>> {
    match o {
        Some(v) => Some(v@),
        None => None,
    }
}

/// The vendor namespace of one entry: the document vendor when declared,
/// else the draft namespace when the entry carries a true draft flag, else
/// the default namespace.
pub open spec fn spec_vendor_for(pairs: Seq<YamlPair>, fv: Option<Seq<u8>>) -> Seq<u8> {
    match fv {
        Some(v) => v,
        None => match spec_hash_get(pairs, kw_draft()) {
            Some(YamlNode::Boolean(b)) => if b {
                kw_draft()
            } else {
                vendor_libcamera()
            },
            _ => vendor_libcamera(),
        },
    }
}

/// One control entry: its vendor, scalar type, description, optional size
/// specification and optional enumeration, with each rule of the format
/// checked in order.
pub open spec fn spec_control_of(name: Seq<u8>, val: YamlNode, fv: Option<Seq<u8>>) -> Result<
    ControlView,
    SchemaError,
> {
    match val {
        YamlNode::Hash(pairs) => {
            let vendor = spec_vendor_for(pairs@, fv);
            match spec_hash_get(pairs@, kw_type()) {
                Some(YamlNode::Str(t)) => match spec_control_type_of(t@) {
                    Some(typ) => match spec_hash_get(pairs@, kw_description()) {
                        Some(YamlNode::Str(d)) => {
                            let size_r: Result<Option<Seq<ControlSize>>, SchemaError> = match
                                spec_hash_get(pairs@, kw_size()) {
                                Some(YamlNode::Array(items)) => match spec_size_list_from(
                                    items@,
                                    0,
                                ) {
                                    None => Err(SchemaError::SizeSpec),
                                    Some(sl) => if spec_valid_size(sl) {
                                        Ok(Some(sl))
                                    } else {
                                        Err(SchemaError::SizeSpec)
                                    },
                                },
                                _ => Ok(None),
                            };
                            match size_r {
                                Err(e) => Err(e),
                                Ok(size) => match spec_hash_get(pairs@, kw_enum()) {
                                    Some(YamlNode::Array(items)) => match spec_enum_list_from(
                                        items@,
                                        0,
                                    ) {
                                        None => Err(SchemaError::Enumeration),
                                        Some(el) => Ok(
                                            ControlView {
                                                name,
                                                vendor,
                                                typ,
                                                description: d@,
                                                size,
                                                enumeration: Some(el),
                                            },
                                        ),
                                    },
                                    _ => Ok(
                                        ControlView {
                                            name,
                                            vendor,
                                            typ,
                                            description: d@,
                                            size,
                                            enumeration: None,
                                        },
                                    ),
                                },
                            }
                        },
                        _ => Err(SchemaError::Description),
                    },
                    None => Err(SchemaError::BadType),
                },
                _ => Err(SchemaError::BadType),
            }
        },
        _ => Err(SchemaError::Document),
    }
}

/// Executable form of `spec_control_of`.
fn control_of(name: &[u8], val: &YamlNode, fv: &Option<Vec<u8>>) -> (r: Result<
    Control,
    SchemaError,
>)
    ensures
        match r {
            Ok(c) => spec_control_of(name@, *val, opt_bytes_view(*fv)) == Ok::<
                ControlView,
                SchemaError,
            >(control_view(c)),
            Err(e) => spec_control_of(name@, *val, opt_bytes_view(*fv)) == Err::<
                ControlView,
                SchemaError,
            >(e),
        },
{
    let pairs = match val {
        YamlNode::Hash(pairs) => pairs,
        _ => {
            return Err(SchemaError::Document);
        },
    };
    let vendor: Vec<u8> = match fv {
        Some(v) => crate::text::bytes_to_vec(v.as_slice()),
        None => {
            match hash_get(pairs, kw_draft_bytes().as_slice()) {
                Some(YamlNode::Boolean(b)) => {
                    if *b {
                        kw_draft_bytes()
                    } else {
                        vendor_libcamera_bytes()
                    }
                },
                _ => vendor_libcamera_bytes(),
            }
        },
    };
    let typ = match hash_get(pairs, kw_type_bytes().as_slice()) {
        Some(YamlNode::Str(t)) => {
            match control_type_of(t.as_slice()) {
                Some(typ) => typ,
                None => {
                    return Err(SchemaError::BadType);
                },
            }
        },
        _ => {
            return Err(SchemaError::BadType);
        },
    };
    let description: Vec<u8> = match hash_get(pairs, kw_description_bytes().as_slice()) {
        Some(YamlNode::Str(d)) => crate::text::bytes_to_vec(d.as_slice()),
        _ => {
            return Err(SchemaError::Description);
        },
    };
    let size: Option<Vec<ControlSize>> = match hash_get(pairs, kw_size_bytes().as_slice()) {
        Some(YamlNode::Array(items)) => {
            match size_list(items) {
                None => {
                    return Err(SchemaError::SizeSpec);
                },
                Some(sl) => {
                    if valid_size(&sl) {
                        Some(sl)
                    } else {
                        return Err(SchemaError::SizeSpec);
                    }
                },
            }
        },
        _ => None,
    };
    let enumeration: Option<Vec<ControlEnumValue>> = match hash_get(
        pairs,
        kw_enum_bytes().as_slice(),
    ) {
        Some(YamlNode::Array(items)) => {
            match enum_list(items) {
                None => {
                    return Err(SchemaError::Enumeration);
                },
                Some(el) => Some(el),
            }
        },
        _ => None,
    };
    Ok(
        Control {
            name: crate::text::bytes_to_vec(name),
            vendor,
            typ,
            description,
            size,
            enumeration,
        },
    )
}

/// The controls declared by the pairs of one entry mapping, from `i` on.
pub open spec fn spec_entry_controls_from(
    pairs: Seq<YamlPair>,
    i: int,
    fv: Option<Seq<u8>>,
) -> Result<Seq<ControlView>, SchemaError>
    decreases pairs.len() - i,
{
    if i < 0 || i >= pairs.len() {
        Ok(Seq::empty())
    } else {
        match pairs[i].key {
            YamlNode::Str(nm) => match spec_control_of(nm@, pairs[i].value, fv) {
                Err(e) => Err(e),
                Ok(c) => match spec_entry_controls_from(pairs, i + 1, fv) {
                    Err(e) => Err(e),
                    Ok(r) => Ok(seq![c] + r),
                },
            },
            _ => Err(SchemaError::Document),
        }
    }
}

fn entry_controls(pairs: &Vec<YamlPair>, fv: &Option<Vec<u8>>, out: &mut Vec<Control>) -> (r:
    Result<(), SchemaError>)
    ensures
        match r {
            Ok(_) => {
                &&& spec_entry_controls_from(pairs@, 0, opt_bytes_view(*fv)) matches Ok(cs)
                &&& final(out)@.map_values(|c: Control| control_view(c)) == old(out)@.map_values(
                    |c: Control| control_view(c),
                ) + ({
                    let cs = match spec_entry_controls_from(pairs@, 0, opt_bytes_view(*fv)) {
                        Ok(cs) => cs,
                        Err(_) => Seq::empty(),
                    };
                    cs
                })
            },
            Err(e) => spec_entry_controls_from(pairs@, 0, opt_bytes_view(*fv)) == Err::<
                Seq<ControlView>,
                SchemaError,
            >(e),
        },
{
    let n = pairs.len();
    let ghost base = out@.map_values(|c: Control| control_view(c));
    for i in 0..n
        invariant
            n == pairs@.len(),
            base == old(out)@.map_values(|c: Control| control_view(c)),
            match spec_entry_controls_from(pairs@, i as int, opt_bytes_view(*fv)) {
                Err(e) => spec_entry_controls_from(pairs@, 0, opt_bytes_view(*fv)) == Err::<
                    Seq<ControlView>,
                    SchemaError,
                >(e),
                Ok(r) => spec_entry_controls_from(pairs@, 0, opt_bytes_view(*fv)) matches Ok(w)
                    && base + w == out@.map_values(|c: Control| control_view(c)) + r,
            },
    {
        let nm = match &pairs[i].key {
            YamlNode::Str(nm) => nm,
            _ => {
                return Err(SchemaError::Document);
            },
        };
        match control_of(nm.as_slice(), &pairs[i].value, fv) {
            Err(e) => {
                return Err(e);
            },
            Ok(c) => {
                let ghost pre = out@.map_values(|cc: Control| control_view(cc));
                let ghost cv = control_view(c);
                out.push(c);
                proof {
                    assert(out@.map_values(|cc: Control| control_view(cc)) =~= pre + seq![cv]);
                    match spec_entry_controls_from(pairs@, i + 1, opt_bytes_view(*fv)) {
                        Err(_) => {},
                        Ok(r) => {
                            assert(pre + (seq![cv] + r) =~= (pre + seq![cv]) + r);
                        },
                    }
                }
            },
        }
    }
    proof {
        assert(spec_entry_controls_from(pairs@, n as int, opt_bytes_view(*fv)) == Ok::<
            Seq<ControlView>,
            SchemaError,
        >(Seq::empty()));
        assert(out@.map_values(|c: Control| control_view(c)) + Seq::<ControlView>::empty()
            =~= out@.map_values(|c: Control| control_view(c)));
    }
    Ok(())
}

/// The controls declared by the entries of one `controls` list, from `i`
/// on; every entry must be a mapping.
pub open spec fn spec_entries_controls_from(
    entries: Seq<YamlNode>,
    i: int,
    fv: Option<Seq<u8>>,
) -> Result<Seq<ControlView>, SchemaError>
    decreases entries.len() - i,
{
    if i < 0 || i >= entries.len() {
        Ok(Seq::empty())
    } else {
        match entries[i] {
            YamlNode::Hash(pairs) => match spec_entry_controls_from(pairs@, 0, fv) {
                Err(e) => Err(e),
                Ok(cs) => match spec_entries_controls_from(entries, i + 1, fv) {
                    Err(e) => Err(e),
                    Ok(r) => Ok(cs + r),
                },
            },
            _ => Err(SchemaError::Document),
        }
    }
}

fn entries_controls(entries: &Vec<YamlNode>, fv: &Option<Vec<u8>>, out: &mut Vec<Control>) -> (r:
    Result<(), SchemaError>)
    ensures
        match r {
            Ok(_) => {
                &&& spec_entries_controls_from(entries@, 0, opt_bytes_view(*fv)) matches Ok(cs)
                &&& final(out)@.map_values(|c: Control| control_view(c)) == old(out)@.map_values(
                    |c: Control| control_view(c),
                ) + ({
                    let cs = match spec_entries_controls_from(entries@, 0, opt_bytes_view(*fv)) {
                        Ok(cs) => cs,
                        Err(_) => Seq::empty(),
                    };
                    cs
                })
            },
            Err(e) => spec_entries_controls_from(entries@, 0, opt_bytes_view(*fv)) == Err::<
                Seq<ControlView>,
                SchemaError,
            >(e),
        },
{
    let n = entries.len();
    let ghost base = out@.map_values(|c: Control| control_view(c));
    for i in 0..n
        invariant
            n == entries@.len(),
            base == old(out)@.map_values(|c: Control| control_view(c)),
            match spec_entries_controls_from(entries@, i as int, opt_bytes_view(*fv)) {
                Err(e) => spec_entries_controls_from(entries@, 0, opt_bytes_view(*fv)) == Err::<
                    Seq<ControlView>,
                    SchemaError,
                >(e),
                Ok(r) => spec_entries_controls_from(entries@, 0, opt_bytes_view(*fv)) matches Ok(
                    w,
                ) && base + w == out@.map_values(|c: Control| control_view(c)) + r,
            },
    {
        let pairs = match &entries[i] {
            YamlNode::Hash(pairs) => pairs,
            _ => {
                return Err(SchemaError::Document);
            },
        };
        let ghost pre = out@.map_values(|c: Control| control_view(c));
        match entry_controls(pairs, fv, out) {
            Err(e) => {
                return Err(e);
            },
            Ok(_) => {
                proof {
                    match spec_entry_controls_from(pairs@, 0, opt_bytes_view(*fv)) {
                        Err(_) => {},
                        Ok(cs) => {
                            match spec_entries_controls_from(entries@, i + 1, opt_bytes_view(*fv)) {
                                Err(_) => {},
                                Ok(r) => {
                                    assert(pre + (cs + r) =~= (pre + cs) + r);
                                },
                            }
                        },
                    }
                }
            },
        }
    }
    proof {
        assert(spec_entries_controls_from(entries@, n as int, opt_bytes_view(*fv)) == Ok::<
            Seq<ControlView>,
            SchemaError,
        >(Seq::empty()));
        assert(out@.map_values(|c: Control| control_view(c)) + Seq::<ControlView>::empty()
            =~= out@.map_values(|c: Control| control_view(c)));
    }
    Ok(())
}

/// The controls of one document: an optional document-level vendor, then
/// the `controls` list.
pub open spec fn spec_doc_controls(doc: YamlNode) -> Result<Seq<ControlView>, SchemaError> {
    match doc {
        YamlNode::Hash(pairs) => {
            let fv = match spec_hash_get(pairs@, kw_vendor()) {
                Some(YamlNode::Str(v)) => Some(v@),
                _ => None,
            };
            match spec_hash_get(pairs@, kw_controls()) {
                Some(YamlNode::Array(entries)) => spec_entries_controls_from(entries@, 0, fv),
                _ => Err(SchemaError::Document),
            }
        },
        _ => Err(SchemaError::Document),
    }
}

fn doc_controls(doc: &YamlNode, out: &mut Vec<Control>) -> (r: Result<(), SchemaError>)
    ensures
        match r {
            Ok(_) => {
                &&& spec_doc_controls(*doc) matches Ok(cs)
                &&& final(out)@.map_values(|c: Control| control_view(c)) == old(out)@.map_values(
                    |c: Control| control_view(c),
                ) + ({
                    let cs = match spec_doc_controls(*doc) {
                        Ok(cs) => cs,
                        Err(_) => Seq::empty(),
                    };
                    cs
                })
            },
            Err(e) => spec_doc_controls(*doc) == Err::<Seq<ControlView>, SchemaError>(e),
        },
{
    let pairs = match doc {
        YamlNode::Hash(pairs) => pairs,
        _ => {
            return Err(SchemaError::Document);
        },
    };
    let fv: Option<Vec<u8>> = match hash_get(pairs, kw_vendor_bytes().as_slice()) {
        Some(YamlNode::Str(v)) => Some(crate::text::bytes_to_vec(v.as_slice())),
        _ => None,
    };
    let entries = match hash_get(pairs, kw_controls_bytes().as_slice()) {
        Some(YamlNode::Array(entries)) => entries,
        _ => {
            return Err(SchemaError::Document);
        },
    };
    entries_controls(entries, &fv, out)
}

/// The controls of a list of documents, from `i` on.
pub open spec fn spec_docs_controls_from(docs: Seq<YamlNode>, i: int) -> Result<
    Seq<ControlView>,
    SchemaError,
>
    decreases docs.len() - i,
{
    if i < 0 || i >= docs.len() {
        Ok(Seq::empty())
    } else {
        match spec_doc_controls(docs[i]) {
            Err(e) => Err(e),
            Ok(cs) => match spec_docs_controls_from(docs, i + 1) {
                Err(e) => Err(e),
                Ok(r) => Ok(cs + r),
            },
        }
    }
}

/// The controls of one schema file text.
pub open spec fn spec_file_controls(text: Seq<char>) -> Result<Seq<ControlView>, SchemaError> {
    match yaml_docs_of(text) {
        None => Err(SchemaError::Parse),
        Some(docs) => spec_docs_controls_from(docs, 0),
    }
}

/// The controls of a list of schema file texts, from `i` on, concatenated
/// in list order.
pub open spec fn spec_files_controls_from(texts: Seq<Seq<char>>, i: int) -> Result<
    Seq<ControlView>,
    SchemaError,
>
    decreases texts.len() - i,
{
    if i < 0 || i >= texts.len() {
        Ok(Seq::empty())
    } else {
        match spec_file_controls(texts[i]) {
            Err(e) => Err(e),
            Ok(cs) => match spec_files_controls_from(texts, i + 1) {
                Err(e) => Err(e),
                Ok(r) => Ok(cs + r),
            },
        }
    }
}

pub open spec fn texts_view(fs: Seq<String>) -> Seq<Seq<char>> {
    fs.map_values(|t: String| t@)
}

/// Parse a list of schema file texts into the normalized control records,
/// in list order; the caller passes the files in filename order. Any
/// malformed file aborts the whole run with the first error found.
#[verifier::rlimit(100)]
pub fn parse_control_files(files: &Vec<String>) -> (r: Result<Vec<Control>, SchemaError>)
    ensures
        match r {
            Ok(cs) => spec_files_controls_from(texts_view(files@), 0) == Ok::<
                Seq<ControlView>,
                SchemaError,
            >(cs@.map_values(|c: Control| control_view(c))),
            Err(e) => spec_files_controls_from(texts_view(files@), 0) == Err::<
                Seq<ControlView>,
                SchemaError,
            >(e),
        },
{
    let n = files.len();
    let mut out: Vec<Control> = Vec::new();
    for i in 0..n
        invariant
            n == files@.len(),
            match spec_files_controls_from(texts_view(files@), i as int) {
                Err(e) => spec_files_controls_from(texts_view(files@), 0) == Err::<
                    Seq<ControlView>,
                    SchemaError,
                >(e),
                Ok(r) => spec_files_controls_from(texts_view(files@), 0) matches Ok(w) && w
                    == out@.map_values(|c: Control| control_view(c)) + r,
            },
    {
        proof {
            assert(texts_view(files@)[i as int] == files@[i as int]@);
        }
        let docs = match parse_yaml(files[i].as_str()) {
            None => {
                return Err(SchemaError::Parse);
            },
            Some(docs) => docs,
        };
        let m = docs.len();
        let ghost filebase = out@.map_values(|c: Control| control_view(c));
        for j in 0..m
            invariant
                m == docs@.len(),
                i < n,
                n == files@.len(),
                yaml_docs_of(files@[i as int]@) == Some(docs@),
                match spec_files_controls_from(texts_view(files@), i as int) {
                    Err(e) => spec_files_controls_from(texts_view(files@), 0) == Err::<
                        Seq<ControlView>,
                        SchemaError,
                    >(e),
                    Ok(r) => spec_files_controls_from(texts_view(files@), 0) matches Ok(w) && w
                        == filebase + r,
                },
                match spec_docs_controls_from(docs@, j as int) {
                    Err(e) => spec_docs_controls_from(docs@, 0) == Err::<
                        Seq<ControlView>,
                        SchemaError,
                    >(e),
                    Ok(r) => spec_docs_controls_from(docs@, 0) matches Ok(w) && filebase + w
                        == out@.map_values(|c: Control| control_view(c)) + r,
                },
        {
            proof {
                assert(texts_view(files@)[i as int] == files@[i as int]@);
            }
            let ghost pre = out@.map_values(|c: Control| control_view(c));
            match doc_controls(&docs[j], &mut out) {
                Err(e) => {
                    return Err(e);
                },
                Ok(_) => {
                    proof {
                        match spec_doc_controls(docs@[j as int]) {
                            Err(_) => {},
                            Ok(cs) => {
                                match spec_docs_controls_from(docs@, j + 1) {
                                    Err(_) => {},
                                    Ok(r) => {
                                        assert(pre + (cs + r) =~= (pre + cs) + r);
                                    },
                                }
                            },
                        }
                    }
                },
            }
        }
        proof {
            assert(spec_docs_controls_from(docs@, m as int) == Ok::<
                Seq<ControlView>,
                SchemaError,
            >(Seq::empty()));
            assert(out@.map_values(|c: Control| control_view(c)) + Seq::<ControlView>::empty()
                =~= out@.map_values(|c: Control| control_view(c)));
            match spec_files_controls_from(texts_view(files@), i + 1) {
                Err(_) => {},
                Ok(r) => {
                    match spec_docs_controls_from(docs@, 0) {
                        Err(_) => {},
                        Ok(cs) => {
                            assert(filebase + (cs + r) =~= (filebase + cs) + r);
                        },
                    }
                },
            }
        }
    }
    proof {
        assert(spec_files_controls_from(texts_view(files@), n as int) == Ok::<
            Seq<ControlView>,
            SchemaError,
        >(Seq::empty()));
        assert(out@.map_values(|c: Control| control_view(c)) + Seq::<ControlView>::empty()
            =~= out@.map_values(|c: Control| control_view(c)));
    }
    Ok(out)
}

} // verus!
