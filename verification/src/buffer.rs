//! Buffers: named byte ranges that accessors and views refer to by index.

use vstd::prelude::*;

use crate::json::{
    bad_value, ext_flag, field_opt_text, field_usize_or, opt_text_is, spec_ext_flag,
    spec_field_opt_text, spec_field_usize_or, Json, SchemaError,
};

verus! {

/// One contiguous run of binary data referenced by the document.
#[derive(Clone, Debug)]
pub struct Buffer {
    pub byte_length: usize,
    pub name: Option<String>,
    pub uri: Option<String>,
    pub extensions: Option<BufferExtensions>,
}

pub open spec fn buffer_ok(v: Json) -> bool {
    &&& v is Obj
    &&& {
        let ms = v->Obj_0@;
        &&& spec_field_usize_or(ms, "byteLength"@, 0) is Some
        &&& spec_field_opt_text(ms, "name"@) is Some
        &&& spec_field_opt_text(ms, "uri"@) is Some
        &&& spec_ext_flag(ms, "extensions"@) is Some
    }
}

pub open spec fn buffer_decoded(v: Json, x: Buffer) -> bool {
    &&& buffer_ok(v)
    &&& {
        let ms = v->Obj_0@;
        &&& Some(x.byte_length) == spec_field_usize_or(ms, "byteLength"@, 0)
        &&& opt_text_is(spec_field_opt_text(ms, "name"@)->Some_0, x.name)
        &&& opt_text_is(spec_field_opt_text(ms, "uri"@)->Some_0, x.uri)
        &&& x.extensions == (if spec_ext_flag(ms, "extensions"@)->Some_0 {
            Some(BufferExtensions {  })
        } else {
            None
        })
    }
}

impl Buffer {
    pub fn from_json(v: &Json) -> (r: Result<Buffer, SchemaError>)
        ensures
            r is Ok <==> buffer_ok(*v),
            r matches Ok(x) ==> buffer_decoded(*v, x),
    {
        let ms = match v {
            Json::Obj(ms) => ms,
            _ => {
                return Err(bad_value("a buffer must be an object"));
            },
        };
        let byte_length = field_usize_or(ms, "byteLength", 0)?;
        let name = field_opt_text(ms, "name")?;
        let uri = field_opt_text(ms, "uri")?;
        let extensions = if ext_flag(ms, "extensions")? {
            Some(BufferExtensions {  })
        } else {
            None
        };
        Ok(Buffer { byte_length, name, uri, extensions })
    }
}

/// Reserved extension slot of a buffer.
#[derive(Clone, Debug)]
pub struct BufferExtensions {}

} // verus!
