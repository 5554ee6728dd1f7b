//! Buffer views: byte-range slices of a buffer, with an optional GPU binding
//! target.

use vstd::prelude::*;

use crate::json::{
    bad_field, bad_value, ext_flag, field_opt_text, field_usize, field_usize_or, field_opt_usize,
    get_field, lookup_field, opt_text_is, spec_ext_flag, spec_field_opt_text,
    spec_field_opt_usize, spec_field_usize, spec_field_usize_or, Json, JsonMember, SchemaError,
};

verus! {

/// Which GPU binding point a buffer view is meant for: one of the two numeric
/// codes the format allows.
#[derive(Clone, Copy, Debug, Eq, PartialEq)]
pub enum Target {
    ArrayBuffer,
    ElementArrayBuffer,
}

/// The target a numeric code names, if any: the closed enumeration
/// `{34962, 34963}`.
pub open spec fn target_of(code: u64) -> Option<Target> {
    if code == 34962 {
        Some(Target::ArrayBuffer)
    } else if code == 34963 {
        Some(Target::ElementArrayBuffer)
    } else {
        None
    }
}

impl Target {
    /// Resolves the closed `target` enumeration: exactly the two legal codes
    /// succeed.
    pub fn from_code(code: u64) -> (r: Result<Target, SchemaError>)
        ensures
            r matches Ok(t) ==> target_of(code) == Some(t),
            r is Err <==> target_of(code) is None,
    {
        if code == 34962 {
            Ok(Target::ArrayBuffer)
        } else if code == 34963 {
            Ok(Target::ElementArrayBuffer)
        } else {
            Err(bad_value("a valid buffer-view target code"))
        }
    }
}

/// An optional `target` field: a non-negative integer token naming one of the
/// two legal codes; absent or null reads as `None`.
pub open spec fn spec_field_target(ms: Seq<JsonMember>) -> Option<Option<Target>> {
    match lookup_field(ms, "target"@) {
        None => Some(None),
        Some(Json::Null) => Some(None),
        Some(Json::Num(n)) => match n.int {
            Some(u) => match target_of(u) {
                Some(t) => Some(Some(t)),
                None => None,
            },
            None => None,
        },
        Some(_) => None,
    }
}

pub fn field_target(ms: &Vec<JsonMember>) -> (r: Result<Option<Target>, SchemaError>)
    ensures
        r matches Ok(o) ==> spec_field_target(ms@) == Some(o),
        r is Err <==> spec_field_target(ms@) is None,
{
    match get_field(ms, "target") {
        None => Ok(None),
        Some(j) => match j {
            Json::Null => Ok(None),
            Json::Num(n) => match n.int {
                Some(u) => match Target::from_code(u) {
                    Ok(t) => Ok(Some(t)),
                    Err(e) => Err(e),
                },
                None => Err(bad_field("target")),
            },
            _ => Err(bad_field("target")),
        },
    }
}

/// A byte-range slice of a buffer plus an optional stride and target.
#[derive(Clone, Debug)]
pub struct BufferView {
    pub buffer: usize,
    pub byte_length: usize,
    pub byte_offset: usize,
    pub byte_stride: Option<usize>,
    pub name: Option<String>,
    pub target: Option<Target>,
    pub extensions: Option<BufferViewExtensions>,
}

pub open spec fn buffer_view_ok(v: Json) -> bool {
    &&& v is Obj
    &&& {
        let ms = v->Obj_0@;
        &&& spec_field_usize(ms, "buffer"@) is Some
        &&& spec_field_usize(ms, "byteLength"@) is Some
        &&& spec_field_usize_or(ms, "byteOffset"@, 0) is Some
        &&& spec_field_opt_usize(ms, "byteStride"@) is Some
        &&& spec_field_opt_text(ms, "name"@) is Some
        &&& spec_field_target(ms) is Some
        &&& spec_ext_flag(ms, "extensions"@) is Some
    }
}

pub open spec fn buffer_view_decoded(v: Json, x: BufferView) -> bool {
    &&& buffer_view_ok(v)
    &&& {
        let ms = v->Obj_0@;
        &&& Some(x.buffer) == spec_field_usize(ms, "buffer"@)
        &&& Some(x.byte_length) == spec_field_usize(ms, "byteLength"@)
        &&& Some(x.byte_offset) == spec_field_usize_or(ms, "byteOffset"@, 0)
        &&& Some(x.byte_stride) == spec_field_opt_usize(ms, "byteStride"@)
        &&& opt_text_is(spec_field_opt_text(ms, "name"@)->Some_0, x.name)
        &&& Some(x.target) == spec_field_target(ms)
        &&& x.extensions == (if spec_ext_flag(ms, "extensions"@)->Some_0 {
            Some(BufferViewExtensions {  })
        } else {
            None
        })
    }
}

impl BufferView {
    pub fn from_json(v: &Json) -> (r: Result<BufferView, SchemaError>)
        ensures
            r is Ok <==> buffer_view_ok(*v),
            r matches Ok(x) ==> buffer_view_decoded(*v, x),
    {
        let ms = match v {
            Json::Obj(ms) => ms,
            _ => {
                return Err(bad_value("a buffer view must be an object"));
            },
        };
        let buffer = field_usize(ms, "buffer")?;
        let byte_length = field_usize(ms, "byteLength")?;
        let byte_offset = field_usize_or(ms, "byteOffset", 0)?;
        let byte_stride = field_opt_usize(ms, "byteStride")?;
        let name = field_opt_text(ms, "name")?;
        let target = field_target(ms)?;
        let extensions = if ext_flag(ms, "extensions")? {
            Some(BufferViewExtensions {  })
        } else {
            None
        };
        Ok(BufferView { buffer, byte_length, byte_offset, byte_stride, name, target, extensions })
    }
}

/// Reserved extension slot of a buffer view.
#[derive(Clone, Debug)]
pub struct BufferViewExtensions {}

} // verus!
