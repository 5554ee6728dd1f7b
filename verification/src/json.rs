//! The generic JSON value tree that every schema decoder works on, the
//! trusted bridge to the external JSON tokenizer, and the field-level
//! decoding helpers shared by all entity modules.

use vstd::prelude::*;
use vstd::string::StringSliceAdditionalSpecFns;
use vstd::string::StringExecFns;

verus! {

/// The IEEE-754 binary64 bit pattern of a numeric value.
///
/// The schema never computes with its numeric factors; it only carries them.
/// Holding the bit pattern keeps the value exact while staying in integer
/// territory.
#[derive(Clone, Copy, Debug, PartialEq, Eq, Structural)]
pub struct FloatBits(pub u64);

/// Bit pattern of 1.0.
pub const BITS_ONE: u64 = 0x3FF0_0000_0000_0000;

/// Bit pattern of 0.5.
pub const BITS_HALF: u64 = 0x3FE0_0000_0000_0000;

/// Bit pattern of (the closest double to) 0.1.
pub const BITS_TENTH: u64 = 0x3FB9_9999_9999_999A;

/// A JSON value tree, as handed back by the trusted parsing layer.
pub enum Json {
    Null,
    Bool(bool),
    Num(JsonNum),
    Text(String),
    Arr(Vec<Json>),
    Obj(Vec<JsonMember>),
}

/// One `key: value` entry of a JSON object.
pub struct JsonMember {
    pub name: String,
    pub value: Json,
}

/// A JSON number: the exact value when the token was a non-negative integer,
/// plus the IEEE-754 binary64 bit pattern of the value.
pub struct JsonNum {
    pub int: Option<u64>,
    pub bits: u64,
}

/// An input object that does not fit the schema: a missing required field, a
/// token outside a closed enumeration's legal set, a malformed attribute key.
#[derive(Clone, Debug)]
pub struct SchemaError {
    pub message: String,
}

#[verifier::external_type_specification]
#[verifier::external_body]
pub struct ExJsonValue(serde_json::Value);

#[verifier::external_type_specification]
#[verifier::external_body]
pub struct ExJsonNumber(serde_json::Number);

#[verifier::external_type_specification]
#[verifier::external_body]
pub struct ExJsonError(serde_json::Error);

/// What the external tokenizer parses a JSON text into, translated to `Json`:
/// `None` when the text is not well-formed JSON.
pub uninterp spec fn json_doc(text: Seq<char>) -> Option<Json>;

/// What the external tokenizer parses a JSON byte buffer into, translated to
/// `Json`: `None` when the bytes are not UTF-8 or not well-formed JSON.
pub uninterp spec fn json_doc_bytes(bytes: Seq<u8>) -> Option<Json>;

/// Relies on `serde_json::from_str::<serde_json::Value>`: parses a JSON text
/// into a value tree; the result is a function of the text alone.
#[verifier::external_body]
pub(crate) fn parse_json_text(text: &str) -> (r: Result<Json, serde_json::Error>)
    ensures
        r is Ok <==> json_doc(text@) is Some,
        r matches Ok(j) ==> json_doc(text@) == Some(j),
{
    match serde_json::from_str::<serde_json::Value>(text) {
        Ok(v) => Ok(json_of(&v)),
        Err(e) => Err(e),
    }
}

/// Relies on `serde_json::from_slice::<serde_json::Value>`: parses a UTF-8
/// JSON byte buffer into a value tree; the result is a function of the bytes
/// alone.
#[verifier::external_body]
pub(crate) fn parse_json_bytes(bytes: &[u8]) -> (r: Result<Json, serde_json::Error>)
    ensures
        r is Ok <==> json_doc_bytes(bytes@) is Some,
        r matches Ok(j) ==> json_doc_bytes(bytes@) == Some(j),
{
    match serde_json::from_slice::<serde_json::Value>(bytes) {
        Ok(v) => Ok(json_of(&v)),
        Err(e) => Err(e),
    }
}

/// Relies on matching `serde_json::Value`: translates the parsed tree into
/// `Json`, variant by variant, one for one.
#[verifier::external_body]
fn json_of(v: &serde_json::Value) -> Json {
    match v {
        serde_json::Value::Null => Json::Null,
        serde_json::Value::Bool(b) => Json::Bool(*b),
        serde_json::Value::Number(n) => Json::Num(num_of(n)),
        serde_json::Value::String(s) => Json::Text(s.clone()),
        serde_json::Value::Array(a) => Json::Arr(a.iter().map(json_of).collect()),
        serde_json::Value::Object(m) => Json::Obj(
            m.iter().map(|(k, x)| JsonMember { name: k.clone(), value: json_of(x) }).collect(),
        ),
    }
}

/// Relies on `serde_json::Number::as_u64` / `as_f64`: the exact value of a
/// non-negative integer token, and the closest double of any numeric token.
/// A number is stored as one of an unsigned integer, a signed integer or a
/// double, so `as_f64` returns a value for every number and the fallback arm
/// is never taken.
#[verifier::external_body]
fn num_of(n: &serde_json::Number) -> JsonNum {
    let bits = match n.as_f64() {
        Some(f) => f.to_bits(),
        None => 0,
    };
    JsonNum { int: n.as_u64(), bits }
}

/// Character-for-character string equality, proved through the injectivity of
/// the UTF-8 encoding.
pub fn str_eq(a: &str, b: &str) -> (r: bool)
    ensures
        r == (a@ == b@),
{
    let ab = a.as_bytes();
    let bb = b.as_bytes();
    proof {
        vstd::utf8::encode_utf8_decode_utf8(a@);
        vstd::utf8::encode_utf8_decode_utf8(b@);
    }
    if ab.len() != bb.len() {
        assert(a@ != b@);
        return false;
    }
    let n = ab.len();
    let mut i: usize = 0;
    while i < n
        invariant
            n == ab@.len() == bb@.len(),
            i <= n,
            ab@ == a.spec_bytes(),
            bb@ == b.spec_bytes(),
            vstd::utf8::decode_utf8(a.spec_bytes()) == a@,
            vstd::utf8::decode_utf8(b.spec_bytes()) == b@,
            forall|j: int| 0 <= j < i ==> ab@[j] == bb@[j],
        decreases n - i,
    {
        if ab[i] != bb[i] {
            assert(a.spec_bytes() != b.spec_bytes());
            assert(a@ != b@);
            return false;
        }
        i += 1;
    }
    proof {
        assert(ab@ =~= bb@);
        assert(vstd::utf8::decode_utf8(a.spec_bytes()) == vstd::utf8::decode_utf8(b.spec_bytes()));
    }
    true
}

/// The value of the first member named `key`, if any.
pub open spec fn lookup_field(ms: Seq<JsonMember>, key: Seq<char>) -> Option<Json>
    decreases ms.len(),
{
    if ms.len() == 0 {
        None
    } else if ms[0].name@ == key {
        Some(ms[0].value)
    } else {
        lookup_field(ms.drop_first(), key)
    }
}

proof fn lemma_lookup_step(ms: Seq<JsonMember>, key: Seq<char>, i: int)
    requires
        0 <= i < ms.len(),
        ms[i].name@ != key,
    ensures
        lookup_field(ms.skip(i), key) == lookup_field(ms.skip(i + 1), key),
{
    assert(ms.skip(i)[0] == ms[i]);
    assert(ms.skip(i).drop_first() =~= ms.skip(i + 1));
}

/// Looks a field up by name; `None` means the field is absent.
pub fn get_field<'a>(ms: &'a Vec<JsonMember>, key: &str) -> (r: Option<&'a Json>)
    ensures
        match r {
            Some(j) => lookup_field(ms@, key@) == Some(*j),
            None => lookup_field(ms@, key@) is None,
        },
{
    let n = ms.len();
    let mut i: usize = 0;
    proof {
        assert(ms@.skip(0) =~= ms@);
    }
    while i < n
        invariant
            n == ms@.len(),
            i <= n,
            lookup_field(ms@, key@) == lookup_field(ms@.skip(i as int), key@),
        decreases n - i,
    {
        if str_eq(ms[i].name.as_str(), key) {
            proof {
                assert(ms@.skip(i as int)[0] == ms@[i as int]);
            }
            return Some(&ms[i].value);
        }
        proof {
            lemma_lookup_step(ms@, key@, i as int);
        }
        i += 1;
    }
    None
}

pub(crate) fn missing_field(key: &str) -> SchemaError {
    let mut m = String::from_str("missing field `");
    m.append(key);
    m.append("`");
    SchemaError { message: m }
}

pub(crate) fn bad_field(key: &str) -> SchemaError {
    let mut m = String::from_str("invalid value for field `");
    m.append(key);
    m.append("`");
    SchemaError { message: m }
}

pub(crate) fn bad_value(what: &str) -> SchemaError {
    let mut m = String::from_str("invalid value: ");
    m.append(what);
    SchemaError { message: m }
}

// ---------------------------------------------------------------------------
// Single values
// ---------------------------------------------------------------------------

/// A JSON value read as an index or size: a non-negative integer token that
/// fits in `usize`.
pub open spec fn spec_usize(j: Json) -> Option<usize> {
    match j {
        Json::Num(n) => match n.int {
            Some(u) => if u <= usize::MAX as u64 {
                Some(u as usize)
            } else {
                None
            },
            None => None,
        },
        _ => None,
    }
}

pub fn as_usize(j: &Json, key: &str) -> (r: Result<usize, SchemaError>)
    ensures
        r matches Ok(u) ==> spec_usize(*j) == Some(u),
        r is Err <==> spec_usize(*j) is None,
{
    match j {
        Json::Num(n) => match n.int {
            Some(u) => {
                if u <= usize::MAX as u64 {
                    Ok(u as usize)
                } else {
                    Err(bad_field(key))
                }
            },
            None => Err(bad_field(key)),
        },
        _ => Err(bad_field(key)),
    }
}

/// A JSON value read as a numeric factor: any numeric token, carried as its
/// binary64 bit pattern.
pub open spec fn spec_number(j: Json) -> Option<FloatBits> {
    match j {
        Json::Num(n) => Some(FloatBits(n.bits)),
        _ => None,
    }
}

pub fn as_number(j: &Json, key: &str) -> (r: Result<FloatBits, SchemaError>)
    ensures
        r matches Ok(x) ==> spec_number(*j) == Some(x),
        r is Err <==> spec_number(*j) is None,
{
    match j {
        Json::Num(n) => Ok(FloatBits(n.bits)),
        _ => Err(bad_field(key)),
    }
}

/// A JSON value read as a string.
pub open spec fn spec_text(j: Json) -> Option<Seq<char>> {
    match j {
        Json::Text(s) => Some(s@),
        _ => None,
    }
}

pub fn as_text(j: &Json, key: &str) -> (r: Result<String, SchemaError>)
    ensures
        r matches Ok(s) ==> spec_text(*j) == Some(s@),
        r is Err <==> spec_text(*j) is None,
{
    match j {
        Json::Text(s) => Ok(s.clone()),
        _ => Err(bad_field(key)),
    }
}

// ---------------------------------------------------------------------------
// Homogeneous arrays
// ---------------------------------------------------------------------------

pub open spec fn all_numbers(items: Seq<Json>) -> bool {
    forall|i: int| 0 <= i < items.len() ==> (#[trigger] items[i]) is Num
}

pub open spec fn number_seq(items: Seq<Json>) -> Seq<FloatBits> {
    Seq::new(items.len(), |i: int| FloatBits(items[i]->Num_0.bits))
}

/// A JSON value read as an array of numeric factors, of any length.
pub open spec fn spec_numbers(j: Json) -> Option<Seq<FloatBits>> {
    match j {
        Json::Arr(items) => if all_numbers(items@) {
            Some(number_seq(items@))
        } else {
            None
        },
        _ => None,
    }
}

/// A JSON value read as an array of exactly `n` numeric factors.
pub open spec fn spec_numbers_exact(j: Json, n: int) -> Option<Seq<FloatBits>> {
    match spec_numbers(j) {
        Some(s) => if s.len() == n {
            Some(s)
        } else {
            None
        },
        None => None,
    }
}

#[verifier::loop_isolation(false)]
pub fn as_numbers(j: &Json, key: &str) -> (r: Result<Vec<FloatBits>, SchemaError>)
    ensures
        r matches Ok(out) ==> spec_numbers(*j) == Some(out@),
        r is Err <==> spec_numbers(*j) is None,
{
    match j {
        Json::Arr(items) => {
            let n = items.len();
            let mut out: Vec<FloatBits> = Vec::new();
            let mut i: usize = 0;
            while i < n
                invariant
                    n == items@.len(),
                    i <= n,
                    out@.len() == i,
                    forall|k: int| 0 <= k < i ==> (#[trigger] items@[k]) is Num,
                    forall|k: int| 0 <= k < i ==> out@[k] == FloatBits(items@[k]->Num_0.bits),
                decreases n - i,
            {
                match &items[i] {
                    Json::Num(m) => {
                        out.push(FloatBits(m.bits));
                    },
                    _ => {
                        proof {
                            assert(!((items@[i as int]) is Num));
                        }
                        return Err(bad_field(key));
                    },
                }
                i += 1;
            }
            proof {
                assert(out@ =~= number_seq(items@));
            }
            Ok(out)
        },
        _ => Err(bad_field(key)),
    }
}

pub open spec fn all_usizes(items: Seq<Json>) -> bool {
    forall|i: int| 0 <= i < items.len() ==> (#[trigger] spec_usize(items[i])) is Some
}

pub open spec fn usize_seq(items: Seq<Json>) -> Seq<usize> {
    Seq::new(items.len(), |i: int| spec_usize(items[i])->Some_0)
}

/// A JSON value read as an array of indices.
pub open spec fn spec_usizes(j: Json) -> Option<Seq<usize>> {
    match j {
        Json::Arr(items) => if all_usizes(items@) {
            Some(usize_seq(items@))
        } else {
            None
        },
        _ => None,
    }
}

#[verifier::loop_isolation(false)]
pub fn as_usizes(j: &Json, key: &str) -> (r: Result<Vec<usize>, SchemaError>)
    ensures
        r matches Ok(out) ==> spec_usizes(*j) == Some(out@),
        r is Err <==> spec_usizes(*j) is None,
{
    match j {
        Json::Arr(items) => {
            let n = items.len();
            let mut out: Vec<usize> = Vec::new();
            let mut i: usize = 0;
            while i < n
                invariant
                    n == items@.len(),
                    i <= n,
                    out@.len() == i,
                    forall|k: int| 0 <= k < i ==> (#[trigger] spec_usize(items@[k])) is Some,
                    forall|k: int| 0 <= k < i ==> out@[k] == spec_usize(items@[k])->Some_0,
                decreases n - i,
            {
                match as_usize(&items[i], key) {
                    Ok(u) => {
                        out.push(u);
                    },
                    Err(e) => {
                        proof {
                            assert((spec_usize(items@[i as int])) is None);
                        }
                        return Err(e);
                    },
                }
                i += 1;
            }
            proof {
                assert(out@ =~= usize_seq(items@));
            }
            Ok(out)
        },
        _ => Err(bad_field(key)),
    }
}

// ---------------------------------------------------------------------------
// Fields of an object
// ---------------------------------------------------------------------------

/// A required index field.
pub open spec fn spec_field_usize(ms: Seq<JsonMember>, key: Seq<char>) -> Option<usize> {
    match lookup_field(ms, key) {
        Some(j) => spec_usize(j),
        None => None,
    }
}

pub fn field_usize(ms: &Vec<JsonMember>, key: &str) -> (r: Result<usize, SchemaError>)
    ensures
        r matches Ok(u) ==> spec_field_usize(ms@, key@) == Some(u),
        r is Err <==> spec_field_usize(ms@, key@) is None,
{
    match get_field(ms, key) {
        Some(j) => as_usize(j, key),
        None => Err(missing_field(key)),
    }
}

/// An optional index field: absent or null reads as `None`.
pub open spec fn spec_field_opt_usize(ms: Seq<JsonMember>, key: Seq<char>) -> Option<
    Option<usize>,
> {
    match lookup_field(ms, key) {
        None => Some(None),
        Some(Json::Null) => Some(None),
        Some(j) => match spec_usize(j) {
            Some(u) => Some(Some(u)),
            None => None,
        },
    }
}

pub fn field_opt_usize(ms: &Vec<JsonMember>, key: &str) -> (r: Result<
    Option<usize>,
    SchemaError,
>)
    ensures
        r matches Ok(o) ==> spec_field_opt_usize(ms@, key@) == Some(o),
        r is Err <==> spec_field_opt_usize(ms@, key@) is None,
{
    match get_field(ms, key) {
        None => Ok(None),
        Some(j) => match j {
            Json::Null => Ok(None),
            _ => match as_usize(j, key) {
                Ok(u) => Ok(Some(u)),
                Err(e) => Err(e),
            },
        },
    }
}

/// A defaulted index field: absent reads as `d`; null is not accepted.
pub open spec fn spec_field_usize_or(ms: Seq<JsonMember>, key: Seq<char>, d: usize) -> Option<
    usize,
> {
    match lookup_field(ms, key) {
        None => Some(d),
        Some(j) => spec_usize(j),
    }
}

pub fn field_usize_or(ms: &Vec<JsonMember>, key: &str, d: usize) -> (r: Result<
    usize,
    SchemaError,
>)
    ensures
        r matches Ok(u) ==> spec_field_usize_or(ms@, key@, d) == Some(u),
        r is Err <==> spec_field_usize_or(ms@, key@, d) is None,
{
    match get_field(ms, key) {
        None => Ok(d),
        Some(j) => as_usize(j, key),
    }
}

/// A defaulted boolean field.
pub open spec fn spec_field_bool_or(ms: Seq<JsonMember>, key: Seq<char>, d: bool) -> Option<bool> {
    match lookup_field(ms, key) {
        None => Some(d),
        Some(Json::Bool(b)) => Some(b),
        Some(_) => None,
    }
}

pub fn field_bool_or(ms: &Vec<JsonMember>, key: &str, d: bool) -> (r: Result<bool, SchemaError>)
    ensures
        r matches Ok(b) ==> spec_field_bool_or(ms@, key@, d) == Some(b),
        r is Err <==> spec_field_bool_or(ms@, key@, d) is None,
{
    match get_field(ms, key) {
        None => Ok(d),
        Some(j) => match j {
            Json::Bool(b) => Ok(*b),
            _ => Err(bad_field(key)),
        },
    }
}

/// A required numeric field.
pub open spec fn spec_field_number(ms: Seq<JsonMember>, key: Seq<char>) -> Option<FloatBits> {
    match lookup_field(ms, key) {
        Some(j) => spec_number(j),
        None => None,
    }
}

pub fn field_number(ms: &Vec<JsonMember>, key: &str) -> (r: Result<FloatBits, SchemaError>)
    ensures
        r matches Ok(x) ==> spec_field_number(ms@, key@) == Some(x),
        r is Err <==> spec_field_number(ms@, key@) is None,
{
    match get_field(ms, key) {
        Some(j) => as_number(j, key),
        None => Err(missing_field(key)),
    }
}

/// An optional numeric field: absent or null reads as `None`.
pub open spec fn spec_field_opt_number(ms: Seq<JsonMember>, key: Seq<char>) -> Option<
    Option<FloatBits>,
> {
    match lookup_field(ms, key) {
        None => Some(None),
        Some(Json::Null) => Some(None),
        Some(j) => match spec_number(j) {
            Some(x) => Some(Some(x)),
            None => None,
        },
    }
}

pub fn field_opt_number(ms: &Vec<JsonMember>, key: &str) -> (r: Result<
    Option<FloatBits>,
    SchemaError,
>)
    ensures
        r matches Ok(o) ==> spec_field_opt_number(ms@, key@) == Some(o),
        r is Err <==> spec_field_opt_number(ms@, key@) is None,
{
    match get_field(ms, key) {
        None => Ok(None),
        Some(j) => match j {
            Json::Null => Ok(None),
            _ => match as_number(j, key) {
                Ok(x) => Ok(Some(x)),
                Err(e) => Err(e),
            },
        },
    }
}

/// A defaulted numeric field.
pub open spec fn spec_field_number_or(ms: Seq<JsonMember>, key: Seq<char>, d: FloatBits) -> Option<
    FloatBits,
> {
    match lookup_field(ms, key) {
        None => Some(d),
        Some(j) => spec_number(j),
    }
}

pub fn field_number_or(ms: &Vec<JsonMember>, key: &str, d: FloatBits) -> (r: Result<
    FloatBits,
    SchemaError,
>)
    ensures
        r matches Ok(x) ==> spec_field_number_or(ms@, key@, d) == Some(x),
        r is Err <==> spec_field_number_or(ms@, key@, d) is None,
{
    match get_field(ms, key) {
        None => Ok(d),
        Some(j) => as_number(j, key),
    }
}

/// An optional string field: absent or null reads as `None`.
pub open spec fn spec_field_opt_text(ms: Seq<JsonMember>, key: Seq<char>) -> Option<
    Option<Seq<char>>,
> {
    match lookup_field(ms, key) {
        None => Some(None),
        Some(Json::Null) => Some(None),
        Some(j) => match spec_text(j) {
            Some(t) => Some(Some(t)),
            None => None,
        },
    }
}

/// How an optionally decoded string relates to its source characters.
pub open spec fn opt_text_is(t: Option<Seq<char>>, s: Option<String>) -> bool {
    match t {
        None => s is None,
        Some(a) => s matches Some(b) && b@ == a,
    }
}

pub fn field_opt_text(ms: &Vec<JsonMember>, key: &str) -> (r: Result<Option<String>, SchemaError>)
    ensures
        r matches Ok(o) ==> spec_field_opt_text(ms@, key@) matches Some(t) && opt_text_is(t, o),
        r is Err <==> spec_field_opt_text(ms@, key@) is None,
{
    match get_field(ms, key) {
        None => Ok(None),
        Some(j) => match j {
            Json::Null => Ok(None),
            _ => match as_text(j, key) {
                Ok(s) => Ok(Some(s)),
                Err(e) => Err(e),
            },
        },
    }
}

/// A defaulted string field: absent reads as the given fallback text.
pub open spec fn spec_field_text_or(ms: Seq<JsonMember>, key: Seq<char>, d: Seq<char>) -> Option<
    Seq<char>,
> {
    match lookup_field(ms, key) {
        None => Some(d),
        Some(j) => spec_text(j),
    }
}

pub fn field_text_or(ms: &Vec<JsonMember>, key: &str, d: &str) -> (r: Result<String, SchemaError>)
    ensures
        r matches Ok(s) ==> spec_field_text_or(ms@, key@, d@) == Some(s@),
        r is Err <==> spec_field_text_or(ms@, key@, d@) is None,
{
    match get_field(ms, key) {
        None => Ok(d.to_owned()),
        Some(j) => as_text(j, key),
    }
}

/// A required array-of-indices field.
pub open spec fn spec_field_usizes(ms: Seq<JsonMember>, key: Seq<char>) -> Option<Seq<usize>> {
    match lookup_field(ms, key) {
        Some(j) => spec_usizes(j),
        None => None,
    }
}

pub fn field_usizes(ms: &Vec<JsonMember>, key: &str) -> (r: Result<Vec<usize>, SchemaError>)
    ensures
        r matches Ok(out) ==> spec_field_usizes(ms@, key@) == Some(out@),
        r is Err <==> spec_field_usizes(ms@, key@) is None,
{
    match get_field(ms, key) {
        Some(j) => as_usizes(j, key),
        None => Err(missing_field(key)),
    }
}

/// An optional array-of-indices field: absent or null reads as `None`.
pub open spec fn spec_field_opt_usizes(ms: Seq<JsonMember>, key: Seq<char>) -> Option<
    Option<Seq<usize>>,
> {
    match lookup_field(ms, key) {
        None => Some(None),
        Some(Json::Null) => Some(None),
        Some(j) => match spec_usizes(j) {
            Some(s) => Some(Some(s)),
            None => None,
        },
    }
}

/// How an optionally decoded index list relates to its source.
pub open spec fn opt_usizes_is(t: Option<Seq<usize>>, o: Option<Vec<usize>>) -> bool {
    match t {
        None => o is None,
        Some(s) => o matches Some(v) && v@ == s,
    }
}

pub fn field_opt_usizes(ms: &Vec<JsonMember>, key: &str) -> (r: Result<
    Option<Vec<usize>>,
    SchemaError,
>)
    ensures
        r matches Ok(o) ==> spec_field_opt_usizes(ms@, key@) matches Some(t) && opt_usizes_is(
            t,
            o,
        ),
        r is Err <==> spec_field_opt_usizes(ms@, key@) is None,
{
    match get_field(ms, key) {
        None => Ok(None),
        Some(j) => match j {
            Json::Null => Ok(None),
            _ => match as_usizes(j, key) {
                Ok(v) => Ok(Some(v)),
                Err(e) => Err(e),
            },
        },
    }
}

/// An optional array-of-numbers field of any length: absent or null reads as
/// `None`.
pub open spec fn spec_field_opt_numbers(ms: Seq<JsonMember>, key: Seq<char>) -> Option<
    Option<Seq<FloatBits>>,
> {
    match lookup_field(ms, key) {
        None => Some(None),
        Some(Json::Null) => Some(None),
        Some(j) => match spec_numbers(j) {
            Some(s) => Some(Some(s)),
            None => None,
        },
    }
}

/// How an optionally decoded number list relates to its source.
pub open spec fn opt_numbers_is(t: Option<Seq<FloatBits>>, o: Option<Vec<FloatBits>>) -> bool {
    match t {
        None => o is None,
        Some(s) => o matches Some(v) && v@ == s,
    }
}

pub fn field_opt_numbers(ms: &Vec<JsonMember>, key: &str) -> (r: Result<
    Option<Vec<FloatBits>>,
    SchemaError,
>)
    ensures
        r matches Ok(o) ==> spec_field_opt_numbers(ms@, key@) matches Some(t) && opt_numbers_is(
            t,
            o,
        ),
        r is Err <==> spec_field_opt_numbers(ms@, key@) is None,
{
    match get_field(ms, key) {
        None => Ok(None),
        Some(j) => match j {
            Json::Null => Ok(None),
            _ => match as_numbers(j, key) {
                Ok(v) => Ok(Some(v)),
                Err(e) => Err(e),
            },
        },
    }
}

/// Copies a vector of `N` numeric factors into a fixed-size array.
fn to_float_array<const N: usize>(w: &Vec<FloatBits>) -> (r: [FloatBits; N])
    requires
        w@.len() == N,
    ensures
        r@ == w@,
{
    broadcast use vstd::array::group_array_axioms;

    let mut a: [FloatBits; N] = vstd::array::array_fill_for_copy_types(FloatBits(0));
    let mut i: usize = 0;
    while i < N
        invariant
            i <= N,
            w@.len() == N,
            a@.len() == N,
            forall|k: int| 0 <= k < i ==> a@[k] == w@[k],
        decreases N - i,
    {
        vstd::array::ArrayAdditionalExecFns::set(&mut a, i, w[i]);
        i += 1;
    }
    proof {
        assert(a@ =~= w@);
    }
    a
}

/// A defaulted fixed-size array-of-numbers field.
pub open spec fn spec_field_numbers_exact_or(
    ms: Seq<JsonMember>,
    key: Seq<char>,
    n: int,
    d: Seq<FloatBits>,
) -> Option<Seq<FloatBits>> {
    match lookup_field(ms, key) {
        None => Some(d),
        Some(j) => spec_numbers_exact(j, n),
    }
}

pub fn field_numbers_exact_or<const N: usize>(
    ms: &Vec<JsonMember>,
    key: &str,
    d: [FloatBits; N],
) -> (r: Result<[FloatBits; N], SchemaError>)
    ensures
        r matches Ok(a) ==> spec_field_numbers_exact_or(ms@, key@, N as int, d@) == Some(a@),
        r is Err <==> spec_field_numbers_exact_or(ms@, key@, N as int, d@) is None,
{
    broadcast use vstd::array::group_array_axioms;

    match get_field(ms, key) {
        None => Ok(d),
        Some(j) => {
            let w = as_numbers(j, key)?;
            if w.len() == N {
                Ok(to_float_array(&w))
            } else {
                Err(bad_field(key))
            }
        },
    }
}

/// An optional fixed-size array-of-numbers field: absent or null reads as
/// `None`.
pub open spec fn spec_field_opt_numbers_exact(ms: Seq<JsonMember>, key: Seq<char>, n: int) -> Option<
    Option<Seq<FloatBits>>,
> {
    match lookup_field(ms, key) {
        None => Some(None),
        Some(Json::Null) => Some(None),
        Some(j) => match spec_numbers_exact(j, n) {
            Some(s) => Some(Some(s)),
            None => None,
        },
    }
}

pub fn field_opt_numbers_exact<const N: usize>(ms: &Vec<JsonMember>, key: &str) -> (r: Result<
    Option<[FloatBits; N]>,
    SchemaError,
>)
    ensures
        r matches Ok(o) ==> spec_field_opt_numbers_exact(ms@, key@, N as int) matches Some(t)
            && (match t {
            None => o is None,
            Some(s) => o matches Some(a) && a@ == s,
        }),
        r is Err <==> spec_field_opt_numbers_exact(ms@, key@, N as int) is None,
{
    broadcast use vstd::array::group_array_axioms;

    match get_field(ms, key) {
        None => Ok(None),
        Some(j) => match j {
            Json::Null => Ok(None),
            _ => {
                let w = as_numbers(j, key)?;
                if w.len() == N {
                    Ok(Some(to_float_array(&w)))
                } else {
                    Err(bad_field(key))
                }
            },
        },
    }
}

/// A reserved, structurally recognized `extensions` slot: absent or null reads
/// as `false` (no record), an object as `true`; anything else is an error.
pub open spec fn spec_ext_flag(ms: Seq<JsonMember>, key: Seq<char>) -> Option<bool> {
    match lookup_field(ms, key) {
        None => Some(false),
        Some(Json::Null) => Some(false),
        Some(Json::Obj(_)) => Some(true),
        Some(_) => None,
    }
}

pub fn ext_flag(ms: &Vec<JsonMember>, key: &str) -> (r: Result<bool, SchemaError>)
    ensures
        r matches Ok(b) ==> spec_ext_flag(ms@, key@) == Some(b),
        r is Err <==> spec_ext_flag(ms@, key@) is None,
{
    match get_field(ms, key) {
        None => Ok(false),
        Some(j) => match j {
            Json::Null => Ok(false),
            Json::Obj(_) => Ok(true),
            _ => Err(bad_field(key)),
        },
    }
}

} // verus!
