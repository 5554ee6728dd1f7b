//! Meshes and primitives, including the attribute-key grammar that resolves
//! semantic names such as `COLOR_3` or `TEXCOORD_12`.

use vstd::prelude::*;
use vstd::string::StrSliceExecFns;

use crate::json::{
    as_usize, bad_field, bad_value, ext_flag, field_opt_numbers, field_opt_text, field_opt_usize,
    get_field, lookup_field, missing_field, opt_numbers_is, opt_text_is, spec_ext_flag,
    spec_field_opt_numbers, spec_field_opt_text, spec_field_opt_usize, spec_usize, str_eq, Json,
    JsonMember, SchemaError,
};

verus! {

/// The topology a primitive's vertices form: one of the ten numeric codes the
/// format allows.
#[derive(Clone, Copy, Debug, Eq, PartialEq)]
pub enum PrimitiveMode {
    Points,
    Lines,
    LineLoop,
    LineStrip,
    Triangles,
    TriangleStrip,
    TriangleFan,
    Quad,
    QuadStrip,
    Polygon,
}

/// The primitive mode a numeric code names, if any: the closed enumeration
/// `{0, ..., 9}`.
pub open spec fn primitive_mode_of(code: u64) -> Option<PrimitiveMode> {
    if code == 0 {
        Some(PrimitiveMode::Points)
    } else if code == 1 {
        Some(PrimitiveMode::Lines)
    } else if code == 2 {
        Some(PrimitiveMode::LineLoop)
    } else if code == 3 {
        Some(PrimitiveMode::LineStrip)
    } else if code == 4 {
        Some(PrimitiveMode::Triangles)
    } else if code == 5 {
        Some(PrimitiveMode::TriangleStrip)
    } else if code == 6 {
        Some(PrimitiveMode::TriangleFan)
    } else if code == 7 {
        Some(PrimitiveMode::Quad)
    } else if code == 8 {
        Some(PrimitiveMode::QuadStrip)
    } else if code == 9 {
        Some(PrimitiveMode::Polygon)
    } else {
        None
    }
}

impl PrimitiveMode {
    /// Resolves the closed `mode` enumeration: exactly the ten legal codes
    /// succeed.
    pub fn from_code(code: u64) -> (r: Result<PrimitiveMode, SchemaError>)
        ensures
            r matches Ok(t) ==> primitive_mode_of(code) == Some(t),
            r is Err <==> primitive_mode_of(code) is None,
    {
        if code == 0 {
            Ok(PrimitiveMode::Points)
        } else if code == 1 {
            Ok(PrimitiveMode::Lines)
        } else if code == 2 {
            Ok(PrimitiveMode::LineLoop)
        } else if code == 3 {
            Ok(PrimitiveMode::LineStrip)
        } else if code == 4 {
            Ok(PrimitiveMode::Triangles)
        } else if code == 5 {
            Ok(PrimitiveMode::TriangleStrip)
        } else if code == 6 {
            Ok(PrimitiveMode::TriangleFan)
        } else if code == 7 {
            Ok(PrimitiveMode::Quad)
        } else if code == 8 {
            Ok(PrimitiveMode::QuadStrip)
        } else if code == 9 {
            Ok(PrimitiveMode::Polygon)
        } else {
            Err(bad_value("a valid primitive mode code"))
        }
    }
}

impl Default for PrimitiveMode {
    /// The format's default topology.
    fn default() -> (r: PrimitiveMode)
        ensures
            r == PrimitiveMode::Triangles,
    {
        PrimitiveMode::Triangles
    }
}

/// A defaulted `mode` field: absent reads as `Triangles`.
pub open spec fn spec_field_mode(ms: Seq<JsonMember>) -> Option<PrimitiveMode> {
    match lookup_field(ms, "mode"@) {
        None => Some(PrimitiveMode::Triangles),
        Some(Json::Num(n)) => match n.int {
            Some(u) => primitive_mode_of(u),
            None => None,
        },
        Some(_) => None,
    }
}

fn field_mode(ms: &Vec<JsonMember>) -> (r: Result<PrimitiveMode, SchemaError>)
    ensures
        r matches Ok(m) ==> spec_field_mode(ms@) == Some(m),
        r is Err <==> spec_field_mode(ms@) is None,
{
    match get_field(ms, "mode") {
        None => Ok(PrimitiveMode::Triangles),
        Some(j) => match j {
            Json::Num(n) => match n.int {
                Some(u) => PrimitiveMode::from_code(u),
                None => Err(bad_field("mode")),
            },
            _ => Err(bad_field("mode")),
        },
    }
}

/// One morph target: accessor indices for the displaced streams.
#[derive(Copy, Clone, Debug)]
pub struct MorphTarget {
    pub positions: Option<usize>,
    pub normals: Option<usize>,
    pub tangents: Option<usize>,
}

pub open spec fn morph_target_ok(v: Json) -> bool {
    &&& v is Obj
    &&& {
        let ms = v->Obj_0@;
        &&& spec_field_opt_usize(ms, "POSITION"@) is Some
        &&& spec_field_opt_usize(ms, "NORMAL"@) is Some
        &&& spec_field_opt_usize(ms, "TANGENT"@) is Some
    }
}

pub open spec fn morph_target_decoded(v: Json, x: MorphTarget) -> bool {
    &&& morph_target_ok(v)
    &&& {
        let ms = v->Obj_0@;
        &&& Some(x.positions) == spec_field_opt_usize(ms, "POSITION"@)
        &&& Some(x.normals) == spec_field_opt_usize(ms, "NORMAL"@)
        &&& Some(x.tangents) == spec_field_opt_usize(ms, "TANGENT"@)
    }
}

impl MorphTarget {
    pub fn from_json(v: &Json) -> (r: Result<MorphTarget, SchemaError>)
        ensures
            r is Ok <==> morph_target_ok(*v),
            r matches Ok(x) ==> morph_target_decoded(*v, x),
    {
        let ms = match v {
            Json::Obj(ms) => ms,
            _ => {
                return Err(bad_value("a morph target must be an object"));
            },
        };
        let positions = field_opt_usize(ms, "POSITION")?;
        let normals = field_opt_usize(ms, "NORMAL")?;
        let tangents = field_opt_usize(ms, "TANGENT")?;
        Ok(MorphTarget { positions, normals, tangents })
    }
}

/// Attribute semantics recognized from the extension tag table. The table is
/// intentionally empty: no extension semantics are recognized yet, so
/// resolution always falls through to the unknown carrier and the `Extension`
/// variant is never produced by decoding.
#[derive(Debug, Clone, Eq, PartialEq, Ord, PartialOrd, Hash)]
pub struct AttributeExtensions {}

/// The semantic role a primitive data stream plays: a fixed whole-key
/// semantic, an indexed set, or the verbatim unknown carrier.
#[derive(Debug, Clone, Eq, PartialEq, Ord, PartialOrd, Hash)]
pub enum Attribute {
    Positions,
    Normals,
    Tangents,
    Colors(usize),
    TexCoords(usize),
    Joints(usize),
    Weights(usize),
    Extension(AttributeExtensions),
    Unknown(String),
}

/// The position of the rightmost underscore in `s`, or -1 if there is none.
pub open spec fn rfind_underscore(s: Seq<char>) -> int
    decreases s.len(),
{
    if s.len() == 0 {
        -1
    } else if s[s.len() - 1] == '_' {
        s.len() - 1
    } else {
        rfind_underscore(s.drop_last())
    }
}

pub open spec fn is_digit(c: char) -> bool {
    48 <= c as u32 <= 57
}

pub open spec fn all_digits(s: Seq<char>) -> bool {
    forall|i: int| 0 <= i < s.len() ==> is_digit(#[trigger] s[i])
}

/// The value of a digit string, most significant digit first.
pub open spec fn digits_val(s: Seq<char>) -> int
    decreases s.len(),
{
    if s.len() == 0 {
        0
    } else {
        digits_val(s.drop_last()) * 10 + (s[s.len() - 1] as u32 - 48)
    }
}

/// A non-negative decimal index with an optional leading `+`, as the standard
/// integer grammar reads it: at least one digit, nothing else, and a value
/// that fits the index type.
pub open spec fn parse_index(s: Seq<char>) -> Option<usize> {
    let t = if s.len() > 0 && s[0] == '+' {
        s.drop_first()
    } else {
        s
    };
    if t.len() > 0 && all_digits(t) && digits_val(t) <= usize::MAX as int {
        Some(digits_val(t) as usize)
    } else {
        None
    }
}

/// Whether an attribute key decodes at all: it fails exactly when the part
/// left of the rightmost underscore is one of the four indexed prefixes and
/// the suffix is not a valid index.
pub open spec fn attribute_key_ok(s: Seq<char>) -> bool {
    let i = rfind_underscore(s);
    if i >= 0 && (s.take(i) == "COLOR"@ || s.take(i) == "TEXCOORD"@ || s.take(i) == "JOINTS"@
        || s.take(i) == "WEIGHTS"@) {
        parse_index(s.skip(i + 1)) is Some
    } else {
        true
    }
}

/// Which attribute an attribute key decodes to: indexed semantics split at
/// the rightmost underscore come first, then the three fixed whole-key
/// semantics, then the (empty) extension table, and finally the verbatim
/// unknown carrier.
pub open spec fn attribute_decoded(s: Seq<char>, a: Attribute) -> bool {
    let i = rfind_underscore(s);
    if i >= 0 && s.take(i) == "COLOR"@ {
        parse_index(s.skip(i + 1)) matches Some(n) && a == Attribute::Colors(n)
    } else if i >= 0 && s.take(i) == "TEXCOORD"@ {
        parse_index(s.skip(i + 1)) matches Some(n) && a == Attribute::TexCoords(n)
    } else if i >= 0 && s.take(i) == "JOINTS"@ {
        parse_index(s.skip(i + 1)) matches Some(n) && a == Attribute::Joints(n)
    } else if i >= 0 && s.take(i) == "WEIGHTS"@ {
        parse_index(s.skip(i + 1)) matches Some(n) && a == Attribute::Weights(n)
    } else if s == "POSITION"@ {
        a == Attribute::Positions
    } else if s == "NORMAL"@ {
        a == Attribute::Normals
    } else if s == "TANGENT"@ {
        a == Attribute::Tangents
    } else {
        a matches Attribute::Unknown(u) && u@ == s
    }
}

proof fn lemma_rfind_hit(s: Seq<char>, i: int)
    requires
        0 <= i < s.len(),
        s[i] == '_',
        forall|k: int| i < k < s.len() ==> s[k] != '_',
    ensures
        rfind_underscore(s) == i,
    decreases s.len(),
{
    if i < s.len() - 1 {
        assert(s.drop_last()[i] == s[i]);
        lemma_rfind_hit(s.drop_last(), i);
    }
}

proof fn lemma_rfind_none(s: Seq<char>)
    requires
        forall|k: int| 0 <= k < s.len() ==> s[k] != '_',
    ensures
        rfind_underscore(s) == -1,
    decreases s.len(),
{
    if s.len() > 0 {
        lemma_rfind_none(s.drop_last());
    }
}

proof fn lemma_digits_val_nonneg(s: Seq<char>)
    requires
        all_digits(s),
    ensures
        digits_val(s) >= 0,
    decreases s.len(),
{
    if s.len() > 0 {
        assert(forall|k: int| 0 <= k < s.drop_last().len() ==> is_digit(#[trigger] s.drop_last()[k]));
        lemma_digits_val_nonneg(s.drop_last());
    }
}

/// Appending digits never shrinks the value of a digit string.
proof fn lemma_digits_val_monotone(s: Seq<char>, i: int, j: int)
    requires
        0 <= i <= j <= s.len(),
        all_digits(s),
    ensures
        digits_val(s.take(i)) <= digits_val(s.take(j)),
    decreases j - i,
{
    if i < j {
        lemma_digits_val_monotone(s, i, j - 1);
        assert(s.take(j).drop_last() =~= s.take(j - 1));
        assert(forall|k: int| 0 <= k < s.take(j - 1).len() ==> is_digit(
            #[trigger] s.take(j - 1)[k],
        ));
        lemma_digits_val_nonneg(s.take(j - 1));
        assert(digits_val(s.take(j)) == digits_val(s.take(j - 1)) * 10 + (s.take(j)[j - 1] as u32
            - 48));
        assert(is_digit(s[j - 1]));
    }
}

/// Finds the rightmost underscore of a key.
fn rfind_underscore_exec(key: &str) -> (r: Option<usize>)
    ensures
        match r {
            Some(i) => i < key@.len() && rfind_underscore(key@) == i,
            None => rfind_underscore(key@) == -1,
        },
{
    let n = key.unicode_len();
    let mut j: usize = n;
    while j > 0
        invariant
            j <= n,
            n == key@.len(),
            forall|k: int| j <= k < n ==> key@[k] != '_',
        decreases j,
    {
        let c = key.get_char(j - 1);
        if c == '_' {
            proof {
                lemma_rfind_hit(key@, j - 1);
            }
            return Some(j - 1);
        }
        j = j - 1;
    }
    proof {
        lemma_rfind_none(key@);
    }
    None
}

/// Parses the character range `[from, to)` of a key as a non-negative index.
#[verifier::loop_isolation(false)]
fn parse_index_exec(key: &str, from: usize, to: usize) -> (r: Result<usize, SchemaError>)
    requires
        from <= to <= key@.len(),
    ensures
        r matches Ok(u) ==> parse_index(key@.subrange(from as int, to as int)) == Some(u),
        r is Err <==> parse_index(key@.subrange(from as int, to as int)) is None,
{
    let ghost s = key@.subrange(from as int, to as int);
    let start: usize = if from < to && key.get_char(from) == '+' {
        from + 1
    } else {
        from
    };
    proof {
        if s.len() > 0 && s[0] == '+' {
            assert(s.drop_first() =~= key@.subrange(start as int, to as int));
        } else {
            assert(s =~= key@.subrange(start as int, to as int));
        }
    }
    let ghost t = key@.subrange(start as int, to as int);
    if start == to {
        return Err(bad_value("an attribute key index"));
    }
    let mut acc: usize = 0;
    let mut p: usize = start;
    while p < to
        invariant
            start <= p <= to <= key@.len(),
            t == key@.subrange(start as int, to as int),
            forall|k: int| 0 <= k < p - start ==> is_digit(#[trigger] t[k]),
            digits_val(t.take(p - start)) == acc,
        decreases to - p,
    {
        let c = key.get_char(p);
        let u = c as u32;
        if u < 48 || u > 57 {
            proof {
                assert(t[p - start] == key@[p as int]);
                assert(!all_digits(t));
            }
            return Err(bad_value("an attribute key index"));
        }
        let d = (u - 48) as usize;
        proof {
            assert(t.take(p - start + 1).drop_last() =~= t.take(p - start));
            assert(t.take(p - start + 1)[p - start] == key@[p as int]);
            assert(digits_val(t.take(p - start + 1)) == acc * 10 + d);
        }
        if acc > (usize::MAX - d) / 10 {
            proof {
                assert(acc as int * 10 + d as int > usize::MAX as int) by (nonlinear_arith)
                    requires
                        acc as int > (usize::MAX as int - d as int) / 10,
                        0 <= d as int <= 9,
                        acc as int >= 0,
                ;
                if all_digits(t) {
                    lemma_digits_val_monotone(t, p - start + 1, t.len() as int);
                    assert(t.take(t.len() as int) =~= t);
                }
            }
            return Err(bad_value("an attribute key index"));
        }
        proof {
            assert(acc as int * 10 + d as int <= usize::MAX as int) by (nonlinear_arith)
                requires
                    acc as int <= (usize::MAX as int - d as int) / 10,
                    0 <= d as int <= 9,
                    acc as int >= 0,
            ;
        }
        acc = acc * 10 + d;
        p = p + 1;
    }
    proof {
        assert(t.take(t.len() as int) =~= t);
        assert(all_digits(t));
    }
    Ok(acc)
}

/// Resolves a key that carries no recognized indexed prefix: the three fixed
/// whole-key semantics, then the verbatim unknown carrier. The extension tag
/// table is empty, so it never matches.
fn from_whole_key(key: &str) -> (a: Attribute)
    ensures
        key@ == "POSITION"@ ==> a == Attribute::Positions,
        key@ == "NORMAL"@ ==> a == Attribute::Normals,
        key@ == "TANGENT"@ ==> a == Attribute::Tangents,
        (key@ != "POSITION"@ && key@ != "NORMAL"@ && key@ != "TANGENT"@) ==> (
        a matches Attribute::Unknown(u) && u@ == key@),
{
    proof {
        reveal_strlit("POSITION");
        reveal_strlit("NORMAL");
        reveal_strlit("TANGENT");
        assert("POSITION"@.len() == 8);
        assert("NORMAL"@.len() == 6);
        assert("TANGENT"@.len() == 7);
    }
    if str_eq(key, "POSITION") {
        Attribute::Positions
    } else if str_eq(key, "NORMAL") {
        Attribute::Normals
    } else if str_eq(key, "TANGENT") {
        Attribute::Tangents
    } else {
        Attribute::Unknown(key.to_owned())
    }
}

impl Attribute {
    /// Decodes an attribute key: split at the rightmost underscore for the
    /// four indexed prefixes, then the fixed whole-key semantics, and finally
    /// the verbatim unknown carrier. It fails exactly when an indexed prefix
    /// carries a malformed index suffix.
    pub fn from_key(key: &str) -> (r: Result<Attribute, SchemaError>)
        ensures
            r is Ok <==> attribute_key_ok(key@),
            r matches Ok(a) ==> attribute_decoded(key@, a),
    {
        let n = key.unicode_len();
        match rfind_underscore_exec(key) {
            Some(i) => {
                let pre = key.substring_char(0, i);
                proof {
                    assert(pre@ =~= key@.take(i as int));
                    assert(key@.subrange(i as int + 1, n as int) =~= key@.skip(i as int + 1));
                }
                if str_eq(pre, "COLOR") {
                    match parse_index_exec(key, i + 1, n) {
                        Ok(u) => Ok(Attribute::Colors(u)),
                        Err(e) => Err(e),
                    }
                } else if str_eq(pre, "TEXCOORD") {
                    match parse_index_exec(key, i + 1, n) {
                        Ok(u) => Ok(Attribute::TexCoords(u)),
                        Err(e) => Err(e),
                    }
                } else if str_eq(pre, "JOINTS") {
                    match parse_index_exec(key, i + 1, n) {
                        Ok(u) => Ok(Attribute::Joints(u)),
                        Err(e) => Err(e),
                    }
                } else if str_eq(pre, "WEIGHTS") {
                    match parse_index_exec(key, i + 1, n) {
                        Ok(u) => Ok(Attribute::Weights(u)),
                        Err(e) => Err(e),
                    }
                } else {
                    Ok(from_whole_key(key))
                }
            },
            None => Ok(from_whole_key(key)),
        }
    }
}

pub open spec fn attribute_members_ok(ms: Seq<JsonMember>) -> bool {
    forall|i: int| 0 <= i < ms.len() ==> attribute_key_ok((#[trigger] ms[i]).name@) && spec_usize(
        ms[i].value,
    ) is Some
}

pub open spec fn attribute_members_decoded(
    ms: Seq<JsonMember>,
    out: Seq<(Attribute, usize)>,
) -> bool {
    &&& out.len() == ms.len()
    &&& forall|i: int| 0 <= i < ms.len() ==> attribute_decoded((#[trigger] ms[i]).name@, out[i].0)
        && Some(out[i].1) == spec_usize(ms[i].value)
}

#[verifier::loop_isolation(false)]
fn attributes_from_json(ms: &Vec<JsonMember>) -> (r: Result<Vec<(Attribute, usize)>, SchemaError>)
    ensures
        r is Ok <==> attribute_members_ok(ms@),
        r matches Ok(out) ==> attribute_members_decoded(ms@, out@),
{
    let n = ms.len();
    let mut out: Vec<(Attribute, usize)> = Vec::new();
    let mut i: usize = 0;
    while i < n
        invariant
            i <= n,
            out@.len() == i,
            forall|k: int| 0 <= k < i ==> attribute_decoded((#[trigger] ms@[k]).name@, out@[k].0)
                && Some(out@[k].1) == spec_usize(ms@[k].value),
        decreases n - i,
    {
        let a = match Attribute::from_key(ms[i].name.as_str()) {
            Ok(a) => a,
            Err(e) => {
                proof {
                    assert(!attribute_key_ok(ms@[i as int].name@));
                }
                return Err(e);
            },
        };
        let u = match as_usize(&ms[i].value, "attributes") {
            Ok(u) => u,
            Err(e) => {
                proof {
                    assert(spec_usize(ms@[i as int].value) is None);
                }
                return Err(e);
            },
        };
        out.push((a, u));
        i += 1;
    }
    Ok(out)
}

pub open spec fn morph_target_items_ok(items: Seq<Json>) -> bool {
    forall|i: int| 0 <= i < items.len() ==> morph_target_ok(#[trigger] items[i])
}

pub open spec fn morph_target_items_decoded(items: Seq<Json>, out: Seq<MorphTarget>) -> bool {
    &&& out.len() == items.len()
    &&& forall|i: int| 0 <= i < items.len() ==> morph_target_decoded(#[trigger] items[i], out[i])
}

#[verifier::loop_isolation(false)]
fn morph_targets_from_json(items: &Vec<Json>) -> (r: Result<Vec<MorphTarget>, SchemaError>)
    ensures
        r is Ok <==> morph_target_items_ok(items@),
        r matches Ok(out) ==> morph_target_items_decoded(items@, out@),
{
    let n = items.len();
    let mut out: Vec<MorphTarget> = Vec::new();
    let mut i: usize = 0;
    while i < n
        invariant
            i <= n,
            out@.len() == i,
            forall|k: int| 0 <= k < i ==> morph_target_decoded(#[trigger] items@[k], out@[k]),
        decreases n - i,
    {
        match MorphTarget::from_json(&items[i]) {
            Ok(x) => {
                out.push(x);
            },
            Err(e) => {
                proof {
                    assert(!morph_target_ok(items@[i as int]));
                }
                return Err(e);
            },
        }
        i += 1;
    }
    Ok(out)
}

/// One primitive: a map from attribute semantics to accessor indices plus
/// topology, material and morph targets.
#[derive(Clone, Debug)]
pub struct Primitive {
    pub attributes: Vec<(Attribute, usize)>,
    pub indices: Option<usize>,
    pub material: Option<usize>,
    pub mode: PrimitiveMode,
    pub targets: Option<Vec<MorphTarget>>,
    pub extensions: Option<PrimitiveExtensions>,
}

pub open spec fn primitive_ok(v: Json) -> bool {
    &&& v is Obj
    &&& {
        let ms = v->Obj_0@;
        &&& match lookup_field(ms, "attributes"@) {
            Some(Json::Obj(ams)) => attribute_members_ok(ams@),
            _ => false,
        }
        &&& spec_field_opt_usize(ms, "indices"@) is Some
        &&& spec_field_opt_usize(ms, "material"@) is Some
        &&& spec_field_mode(ms) is Some
        &&& match lookup_field(ms, "targets"@) {
            None => true,
            Some(Json::Null) => true,
            Some(Json::Arr(items)) => morph_target_items_ok(items@),
            Some(_) => false,
        }
        &&& spec_ext_flag(ms, "extensions"@) is Some
    }
}

pub open spec fn primitive_decoded(v: Json, x: Primitive) -> bool {
    &&& primitive_ok(v)
    &&& {
        let ms = v->Obj_0@;
        &&& match lookup_field(ms, "attributes"@) {
            Some(Json::Obj(ams)) => attribute_members_decoded(ams@, x.attributes@),
            _ => false,
        }
        &&& Some(x.indices) == spec_field_opt_usize(ms, "indices"@)
        &&& Some(x.material) == spec_field_opt_usize(ms, "material"@)
        &&& Some(x.mode) == spec_field_mode(ms)
        &&& match lookup_field(ms, "targets"@) {
            None => x.targets is None,
            Some(Json::Null) => x.targets is None,
            Some(Json::Arr(items)) => x.targets matches Some(ts) && morph_target_items_decoded(
                items@,
                ts@,
            ),
            Some(_) => false,
        }
        &&& x.extensions == (if spec_ext_flag(ms, "extensions"@)->Some_0 {
            Some(PrimitiveExtensions {  })
        } else {
            None
        })
    }
}

impl Primitive {
    pub fn from_json(v: &Json) -> (r: Result<Primitive, SchemaError>)
        ensures
            r is Ok <==> primitive_ok(*v),
            r matches Ok(x) ==> primitive_decoded(*v, x),
    {
        let ms = match v {
            Json::Obj(ms) => ms,
            _ => {
                return Err(bad_value("a primitive must be an object"));
            },
        };
        let attributes = match get_field(ms, "attributes") {
            Some(j) => match j {
                Json::Obj(ams) => attributes_from_json(ams)?,
                _ => {
                    return Err(bad_field("attributes"));
                },
            },
            None => {
                return Err(missing_field("attributes"));
            },
        };
        let indices = field_opt_usize(ms, "indices")?;
        let material = field_opt_usize(ms, "material")?;
        let mode = field_mode(ms)?;
        let targets = match get_field(ms, "targets") {
            None => None,
            Some(j) => match j {
                Json::Null => None,
                Json::Arr(items) => Some(morph_targets_from_json(items)?),
                _ => {
                    return Err(bad_field("targets"));
                },
            },
        };
        let extensions = if ext_flag(ms, "extensions")? {
            Some(PrimitiveExtensions {  })
        } else {
            None
        };
        Ok(Primitive { attributes, indices, material, mode, targets, extensions })
    }
}

pub open spec fn primitive_items_ok(items: Seq<Json>) -> bool {
    forall|i: int| 0 <= i < items.len() ==> primitive_ok(#[trigger] items[i])
}

pub open spec fn primitive_items_decoded(items: Seq<Json>, out: Seq<Primitive>) -> bool {
    &&& out.len() == items.len()
    &&& forall|i: int| 0 <= i < items.len() ==> primitive_decoded(#[trigger] items[i], out[i])
}

#[verifier::loop_isolation(false)]
fn primitives_from_json(items: &Vec<Json>) -> (r: Result<Vec<Primitive>, SchemaError>)
    ensures
        r is Ok <==> primitive_items_ok(items@),
        r matches Ok(out) ==> primitive_items_decoded(items@, out@),
{
    let n = items.len();
    let mut out: Vec<Primitive> = Vec::new();
    let mut i: usize = 0;
    while i < n
        invariant
            i <= n,
            out@.len() == i,
            forall|k: int| 0 <= k < i ==> primitive_decoded(#[trigger] items@[k], out@[k]),
        decreases n - i,
    {
        match Primitive::from_json(&items[i]) {
            Ok(x) => {
                out.push(x);
            },
            Err(e) => {
                proof {
                    assert(!primitive_ok(items@[i as int]));
                }
                return Err(e);
            },
        }
        i += 1;
    }
    Ok(out)
}

/// One mesh: its primitives and optional morph-target weights.
#[derive(Clone, Debug)]
pub struct Mesh {
    pub name: Option<String>,
    pub primitives: Vec<Primitive>,
    pub weights: Option<Vec<crate::json::FloatBits>>,
    pub extensions: Option<MeshExtensions>,
}

pub open spec fn mesh_ok(v: Json) -> bool {
    &&& v is Obj
    &&& {
        let ms = v->Obj_0@;
        &&& spec_field_opt_text(ms, "name"@) is Some
        &&& match lookup_field(ms, "primitives"@) {
            Some(Json::Arr(items)) => primitive_items_ok(items@),
            _ => false,
        }
        &&& spec_field_opt_numbers(ms, "weights"@) is Some
        &&& spec_ext_flag(ms, "extensions"@) is Some
    }
}

pub open spec fn mesh_decoded(v: Json, x: Mesh) -> bool {
    &&& mesh_ok(v)
    &&& {
        let ms = v->Obj_0@;
        &&& opt_text_is(spec_field_opt_text(ms, "name"@)->Some_0, x.name)
        &&& match lookup_field(ms, "primitives"@) {
            Some(Json::Arr(items)) => primitive_items_decoded(items@, x.primitives@),
            _ => false,
        }
        &&& opt_numbers_is(spec_field_opt_numbers(ms, "weights"@)->Some_0, x.weights)
        &&& x.extensions == (if spec_ext_flag(ms, "extensions"@)->Some_0 {
            Some(MeshExtensions {  })
        } else {
            None
        })
    }
}

impl Mesh {
    pub fn from_json(v: &Json) -> (r: Result<Mesh, SchemaError>)
        ensures
            r is Ok <==> mesh_ok(*v),
            r matches Ok(x) ==> mesh_decoded(*v, x),
    {
        let ms = match v {
            Json::Obj(ms) => ms,
            _ => {
                return Err(bad_value("a mesh must be an object"));
            },
        };
        let name = field_opt_text(ms, "name")?;
        let primitives = match get_field(ms, "primitives") {
            Some(j) => match j {
                Json::Arr(items) => primitives_from_json(items)?,
                _ => {
                    return Err(bad_field("primitives"));
                },
            },
            None => {
                return Err(missing_field("primitives"));
            },
        };
        let weights = field_opt_numbers(ms, "weights")?;
        let extensions = if ext_flag(ms, "extensions")? {
            Some(MeshExtensions {  })
        } else {
            None
        };
        Ok(Mesh { name, primitives, weights, extensions })
    }
}

/// Reserved extension slot of a primitive.
#[derive(Default, Debug, Copy, Clone)]
pub struct PrimitiveExtensions {}

/// Reserved extension slot of a mesh.
#[derive(Default, Debug, Copy, Clone)]
pub struct MeshExtensions {}

} // verus!
