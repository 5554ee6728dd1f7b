//! Accessors: typed views over binary buffer data, including the optional
//! sparse-storage override.

use vstd::prelude::*;

use crate::json::{
    bad_field, bad_value, ext_flag, field_opt_text, field_opt_usize, field_usize, field_usize_or,
    get_field, field_bool_or, lookup_field, missing_field, opt_text_is, spec_ext_flag,
    spec_field_bool_or, spec_field_opt_text, spec_field_opt_usize, spec_field_usize,
    spec_field_usize_or, Json, JsonMember, SchemaError,
};

verus! {

/// How one scalar component of an accessor's elements is stored: one of the
/// six numeric codes the format allows.
#[derive(Clone, Copy, Debug, Eq, PartialEq, Hash)]
pub enum ComponentType {
    I8,
    U8,
    I16,
    U16,
    U32,
    F32,
}

/// The component type a numeric code names, if any: the closed enumeration
/// `{5120, 5121, 5122, 5123, 5125, 5126}`.
pub open spec fn component_type_of(code: u64) -> Option<ComponentType> {
    if code == 5120 {
        Some(ComponentType::I8)
    } else if code == 5121 {
        Some(ComponentType::U8)
    } else if code == 5122 {
        Some(ComponentType::I16)
    } else if code == 5123 {
        Some(ComponentType::U16)
    } else if code == 5125 {
        Some(ComponentType::U32)
    } else if code == 5126 {
        Some(ComponentType::F32)
    } else {
        None
    }
}

impl ComponentType {
    /// The byte width of one component.
    pub open spec fn spec_size(self) -> usize {
        match self {
            ComponentType::I8 => 1,
            ComponentType::U8 => 1,
            ComponentType::I16 => 2,
            ComponentType::U16 => 2,
            ComponentType::U32 => 4,
            ComponentType::F32 => 4,
        }
    }

    pub fn size(&self) -> (r: usize)
        ensures
            r == self.spec_size(),
    {
        match self {
            ComponentType::I8 | ComponentType::U8 => 1,
            ComponentType::I16 | ComponentType::U16 => 2,
            ComponentType::F32 | ComponentType::U32 => 4,
        }
    }

    /// Resolves the closed `componentType` enumeration: exactly the six legal
    /// codes succeed.
    pub fn from_code(code: u64) -> (r: Result<ComponentType, SchemaError>)
        ensures
            r matches Ok(t) ==> component_type_of(code) == Some(t),
            r is Err <==> component_type_of(code) is None,
    {
        if code == 5120 {
            Ok(ComponentType::I8)
        } else if code == 5121 {
            Ok(ComponentType::U8)
        } else if code == 5122 {
            Ok(ComponentType::I16)
        } else if code == 5123 {
            Ok(ComponentType::U16)
        } else if code == 5125 {
            Ok(ComponentType::U32)
        } else if code == 5126 {
            Ok(ComponentType::F32)
        } else {
            Err(bad_value("a valid componentType code"))
        }
    }
}

/// The element shape of an accessor: one of the seven string tags the format
/// allows, each with a fixed multiplicity.
#[derive(Clone, Copy, Debug, Eq, PartialEq)]
pub enum AccessorType {
    Scalar,
    Vec2,
    Vec3,
    Vec4,
    Mat2,
    Mat3,
    Mat4,
}

/// The accessor type a string tag names, if any: the closed enumeration
/// `{SCALAR, VEC2, VEC3, VEC4, MAT2, MAT3, MAT4}`.
pub open spec fn accessor_type_of(s: Seq<char>) -> Option<AccessorType> {
    if s == "SCALAR"@ {
        Some(AccessorType::Scalar)
    } else if s == "VEC2"@ {
        Some(AccessorType::Vec2)
    } else if s == "VEC3"@ {
        Some(AccessorType::Vec3)
    } else if s == "VEC4"@ {
        Some(AccessorType::Vec4)
    } else if s == "MAT2"@ {
        Some(AccessorType::Mat2)
    } else if s == "MAT3"@ {
        Some(AccessorType::Mat3)
    } else if s == "MAT4"@ {
        Some(AccessorType::Mat4)
    } else {
        None
    }
}

impl AccessorType {
    /// How many components one element of this type holds.
    pub open spec fn spec_multiplicity(self) -> usize {
        match self {
            AccessorType::Scalar => 1,
            AccessorType::Vec2 => 2,
            AccessorType::Vec3 => 3,
            AccessorType::Vec4 => 4,
            AccessorType::Mat2 => 4,
            AccessorType::Mat3 => 9,
            AccessorType::Mat4 => 16,
        }
    }

    pub fn multiplicity(&self) -> (r: usize)
        ensures
            r == self.spec_multiplicity(),
    {
        match self {
            AccessorType::Scalar => 1,
            AccessorType::Vec2 => 2,
            AccessorType::Vec3 => 3,
            AccessorType::Vec4 => 4,
            AccessorType::Mat2 => 4,
            AccessorType::Mat3 => 9,
            AccessorType::Mat4 => 16,
        }
    }

    /// Resolves the closed `type` enumeration: exactly the seven legal tags
    /// succeed.
    pub fn from_name(name: &str) -> (r: Result<AccessorType, SchemaError>)
        ensures
            r matches Ok(t) ==> accessor_type_of(name@) == Some(t),
            r is Err <==> accessor_type_of(name@) is None,
    {
        if crate::json::str_eq(name, "SCALAR") {
            Ok(AccessorType::Scalar)
        } else if crate::json::str_eq(name, "VEC2") {
            Ok(AccessorType::Vec2)
        } else if crate::json::str_eq(name, "VEC3") {
            Ok(AccessorType::Vec3)
        } else if crate::json::str_eq(name, "VEC4") {
            Ok(AccessorType::Vec4)
        } else if crate::json::str_eq(name, "MAT2") {
            Ok(AccessorType::Mat2)
        } else if crate::json::str_eq(name, "MAT3") {
            Ok(AccessorType::Mat3)
        } else if crate::json::str_eq(name, "MAT4") {
            Ok(AccessorType::Mat4)
        } else {
            Err(bad_value("a valid accessor type tag"))
        }
    }
}

/// The multiplicities the seven accessor-type tags resolve to are exactly
/// 1, 2, 3, 4, 4, 9 and 16, in tag order.
pub proof fn lemma_decoded_multiplicity(s: Seq<char>, t: AccessorType)
    requires
        accessor_type_of(s) == Some(t),
    ensures
        s == "SCALAR"@ ==> t.spec_multiplicity() == 1,
        s == "VEC2"@ ==> t.spec_multiplicity() == 2,
        s == "VEC3"@ ==> t.spec_multiplicity() == 3,
        s == "VEC4"@ ==> t.spec_multiplicity() == 4,
        s == "MAT2"@ ==> t.spec_multiplicity() == 4,
        s == "MAT3"@ ==> t.spec_multiplicity() == 9,
        s == "MAT4"@ ==> t.spec_multiplicity() == 16,
{
    broadcast use vstd::string::group_string_axioms;

    reveal_strlit("SCALAR");
    reveal_strlit("VEC2");
    reveal_strlit("VEC3");
    reveal_strlit("VEC4");
    reveal_strlit("MAT2");
    reveal_strlit("MAT3");
    reveal_strlit("MAT4");
    assert("SCALAR"@.len() == 6);
    assert("VEC2"@[0] == 'V' && "VEC2"@[3] == '2');
    assert("VEC3"@[0] == 'V' && "VEC3"@[3] == '3');
    assert("VEC4"@[0] == 'V' && "VEC4"@[3] == '4');
    assert("MAT2"@[0] == 'M' && "MAT2"@[3] == '2');
    assert("MAT3"@[0] == 'M' && "MAT3"@[3] == '3');
    assert("MAT4"@[0] == 'M' && "MAT4"@[3] == '4');
}

/// A required `componentType` field: a non-negative integer token naming one
/// of the six legal codes.
pub open spec fn spec_field_component_type(ms: Seq<JsonMember>) -> Option<ComponentType> {
    match lookup_field(ms, "componentType"@) {
        Some(Json::Num(n)) => match n.int {
            Some(u) => component_type_of(u),
            None => None,
        },
        _ => None,
    }
}

pub fn field_component_type(ms: &Vec<JsonMember>) -> (r: Result<ComponentType, SchemaError>)
    ensures
        r matches Ok(t) ==> spec_field_component_type(ms@) == Some(t),
        r is Err <==> spec_field_component_type(ms@) is None,
{
    match get_field(ms, "componentType") {
        Some(j) => match j {
            Json::Num(n) => match n.int {
                Some(u) => ComponentType::from_code(u),
                None => Err(bad_field("componentType")),
            },
            _ => Err(bad_field("componentType")),
        },
        None => Err(missing_field("componentType")),
    }
}

/// A required `type` field: a string naming one of the seven legal tags.
pub open spec fn spec_field_accessor_type(ms: Seq<JsonMember>) -> Option<AccessorType> {
    match lookup_field(ms, "type"@) {
        Some(Json::Text(s)) => accessor_type_of(s@),
        _ => None,
    }
}

pub fn field_accessor_type(ms: &Vec<JsonMember>) -> (r: Result<AccessorType, SchemaError>)
    ensures
        r matches Ok(t) ==> spec_field_accessor_type(ms@) == Some(t),
        r is Err <==> spec_field_accessor_type(ms@) is None,
{
    match get_field(ms, "type") {
        Some(j) => match j {
            Json::Text(s) => AccessorType::from_name(s.as_str()),
            _ => Err(bad_field("type")),
        },
        None => Err(missing_field("type")),
    }
}

/// Where a sparse accessor's overriding indices live.
#[derive(Clone, Debug)]
pub struct Indices {
    pub buffer_view: usize,
    pub byte_offset: usize,
    pub component_type: ComponentType,
    pub extensions: Option<IndicesExtension>,
}

pub open spec fn indices_ok(v: Json) -> bool {
    &&& v is Obj
    &&& {
        let ms = v->Obj_0@;
        &&& spec_field_usize(ms, "bufferView"@) is Some
        &&& spec_field_usize_or(ms, "byteOffset"@, 0) is Some
        &&& spec_field_component_type(ms) is Some
        &&& spec_ext_flag(ms, "extensions"@) is Some
    }
}

pub open spec fn indices_decoded(v: Json, x: Indices) -> bool {
    &&& indices_ok(v)
    &&& {
        let ms = v->Obj_0@;
        &&& Some(x.buffer_view) == spec_field_usize(ms, "bufferView"@)
        &&& Some(x.byte_offset) == spec_field_usize_or(ms, "byteOffset"@, 0)
        &&& Some(x.component_type) == spec_field_component_type(ms)
        &&& x.extensions == (if spec_ext_flag(ms, "extensions"@)->Some_0 {
            Some(IndicesExtension {  })
        } else {
            None
        })
    }
}

impl Indices {
    pub fn from_json(v: &Json) -> (r: Result<Indices, SchemaError>)
        ensures
            r is Ok <==> indices_ok(*v),
            r matches Ok(x) ==> indices_decoded(*v, x),
    {
        let ms = match v {
            Json::Obj(ms) => ms,
            _ => {
                return Err(bad_value("sparse indices must be an object"));
            },
        };
        let buffer_view = field_usize(ms, "bufferView")?;
        let byte_offset = field_usize_or(ms, "byteOffset", 0)?;
        let component_type = field_component_type(ms)?;
        let extensions = if ext_flag(ms, "extensions")? {
            Some(IndicesExtension {  })
        } else {
            None
        };
        Ok(Indices { buffer_view, byte_offset, component_type, extensions })
    }
}

/// Where a sparse accessor's overriding values live.
#[derive(Clone, Debug)]
pub struct Values {
    pub buffer_view: usize,
    pub byte_offset: usize,
    pub extensions: Option<ValuesExtension>,
}

pub open spec fn values_ok(v: Json) -> bool {
    &&& v is Obj
    &&& {
        let ms = v->Obj_0@;
        &&& spec_field_usize(ms, "bufferView"@) is Some
        &&& spec_field_usize_or(ms, "byteOffset"@, 0) is Some
        &&& spec_ext_flag(ms, "extensions"@) is Some
    }
}

pub open spec fn values_decoded(v: Json, x: Values) -> bool {
    &&& values_ok(v)
    &&& {
        let ms = v->Obj_0@;
        &&& Some(x.buffer_view) == spec_field_usize(ms, "bufferView"@)
        &&& Some(x.byte_offset) == spec_field_usize_or(ms, "byteOffset"@, 0)
        &&& x.extensions == (if spec_ext_flag(ms, "extensions"@)->Some_0 {
            Some(ValuesExtension {  })
        } else {
            None
        })
    }
}

impl Values {
    pub fn from_json(v: &Json) -> (r: Result<Values, SchemaError>)
        ensures
            r is Ok <==> values_ok(*v),
            r matches Ok(x) ==> values_decoded(*v, x),
    {
        let ms = match v {
            Json::Obj(ms) => ms,
            _ => {
                return Err(bad_value("sparse values must be an object"));
            },
        };
        let buffer_view = field_usize(ms, "bufferView")?;
        let byte_offset = field_usize_or(ms, "byteOffset", 0)?;
        let extensions = if ext_flag(ms, "extensions")? {
            Some(ValuesExtension {  })
        } else {
            None
        };
        Ok(Values { buffer_view, byte_offset, extensions })
    }
}

/// Sparse storage: a small set of (index, value) overrides against an
/// implicit base.
#[derive(Clone, Debug)]
pub struct Sparse {
    pub count: usize,
    pub indices: Indices,
    pub values: Values,
    pub extensions: Option<SparseExtension>,
}

pub open spec fn sparse_ok(v: Json) -> bool {
    &&& v is Obj
    &&& {
        let ms = v->Obj_0@;
        &&& spec_field_usize(ms, "count"@) is Some
        &&& match lookup_field(ms, "indices"@) {
            Some(w) => indices_ok(w),
            None => false,
        }
        &&& match lookup_field(ms, "values"@) {
            Some(w) => values_ok(w),
            None => false,
        }
        &&& spec_ext_flag(ms, "extensions"@) is Some
    }
}

pub open spec fn sparse_decoded(v: Json, x: Sparse) -> bool {
    &&& sparse_ok(v)
    &&& {
        let ms = v->Obj_0@;
        &&& Some(x.count) == spec_field_usize(ms, "count"@)
        &&& indices_decoded(lookup_field(ms, "indices"@)->Some_0, x.indices)
        &&& values_decoded(lookup_field(ms, "values"@)->Some_0, x.values)
        &&& x.extensions == (if spec_ext_flag(ms, "extensions"@)->Some_0 {
            Some(SparseExtension {  })
        } else {
            None
        })
    }
}

impl Sparse {
    pub fn from_json(v: &Json) -> (r: Result<Sparse, SchemaError>)
        ensures
            r is Ok <==> sparse_ok(*v),
            r matches Ok(x) ==> sparse_decoded(*v, x),
    {
        let ms = match v {
            Json::Obj(ms) => ms,
            _ => {
                return Err(bad_value("sparse storage must be an object"));
            },
        };
        let count = field_usize(ms, "count")?;
        let indices = match get_field(ms, "indices") {
            Some(w) => Indices::from_json(w)?,
            None => {
                return Err(missing_field("indices"));
            },
        };
        let values = match get_field(ms, "values") {
            Some(w) => Values::from_json(w)?,
            None => {
                return Err(missing_field("values"));
            },
        };
        let extensions = if ext_flag(ms, "extensions")? {
            Some(SparseExtension {  })
        } else {
            None
        };
        Ok(Sparse { count, indices, values, extensions })
    }
}

/// A typed view over a contiguous run of binary data.
#[derive(Clone, Debug)]
pub struct Accessor {
    pub buffer_view: Option<usize>,
    pub byte_offset: usize,
    pub count: usize,
    pub component_type: ComponentType,
    pub accessor_type: AccessorType,
    pub name: Option<String>,
    pub normalized: bool,
    pub sparse: Option<Sparse>,
    pub extensions: Option<AccessorExtensions>,
}

pub open spec fn accessor_ok(v: Json) -> bool {
    &&& v is Obj
    &&& {
        let ms = v->Obj_0@;
        &&& spec_field_opt_usize(ms, "bufferView"@) is Some
        &&& spec_field_usize_or(ms, "byteOffset"@, 0) is Some
        &&& spec_field_usize(ms, "count"@) is Some
        &&& spec_field_component_type(ms) is Some
        &&& spec_field_accessor_type(ms) is Some
        &&& spec_field_opt_text(ms, "name"@) is Some
        &&& spec_field_bool_or(ms, "normalized"@, false) is Some
        &&& match lookup_field(ms, "sparse"@) {
            None => true,
            Some(Json::Null) => true,
            Some(w) => sparse_ok(w),
        }
        &&& spec_ext_flag(ms, "extensions"@) is Some
    }
}

pub open spec fn accessor_decoded(v: Json, a: Accessor) -> bool {
    &&& accessor_ok(v)
    &&& {
        let ms = v->Obj_0@;
        &&& Some(a.buffer_view) == spec_field_opt_usize(ms, "bufferView"@)
        &&& Some(a.byte_offset) == spec_field_usize_or(ms, "byteOffset"@, 0)
        &&& Some(a.count) == spec_field_usize(ms, "count"@)
        &&& Some(a.component_type) == spec_field_component_type(ms)
        &&& Some(a.accessor_type) == spec_field_accessor_type(ms)
        &&& opt_text_is(spec_field_opt_text(ms, "name"@)->Some_0, a.name)
        &&& Some(a.normalized) == spec_field_bool_or(ms, "normalized"@, false)
        &&& match lookup_field(ms, "sparse"@) {
            None => a.sparse is None,
            Some(Json::Null) => a.sparse is None,
            Some(w) => a.sparse matches Some(sp) && sparse_decoded(w, sp),
        }
        &&& a.extensions == (if spec_ext_flag(ms, "extensions"@)->Some_0 {
            Some(AccessorExtensions {  })
        } else {
            None
        })
    }
}

impl Accessor {
    pub fn from_json(v: &Json) -> (r: Result<Accessor, SchemaError>)
        ensures
            r is Ok <==> accessor_ok(*v),
            r matches Ok(a) ==> accessor_decoded(*v, a),
    {
        let ms = match v {
            Json::Obj(ms) => ms,
            _ => {
                return Err(bad_value("an accessor must be an object"));
            },
        };
        let buffer_view = field_opt_usize(ms, "bufferView")?;
        let byte_offset = field_usize_or(ms, "byteOffset", 0)?;
        let count = field_usize(ms, "count")?;
        let component_type = field_component_type(ms)?;
        let accessor_type = field_accessor_type(ms)?;
        let name = field_opt_text(ms, "name")?;
        let normalized = field_bool_or(ms, "normalized", false)?;
        let sparse = match get_field(ms, "sparse") {
            None => None,
            Some(j) => match j {
                Json::Null => None,
                _ => Some(Sparse::from_json(j)?),
            },
        };
        let extensions = if ext_flag(ms, "extensions")? {
            Some(AccessorExtensions {  })
        } else {
            None
        };
        Ok(
            Accessor {
                buffer_view,
                byte_offset,
                count,
                component_type,
                accessor_type,
                name,
                normalized,
                sparse,
                extensions,
            },
        )
    }
}

/// Reserved extension slot of an accessor; recognized structurally, content
/// intentionally uninterpreted.
#[derive(Clone, Debug, Default)]
pub struct AccessorExtensions {}

/// Reserved extension slot of a sparse index block.
#[derive(Clone, Debug, Default)]
pub struct IndicesExtension {}

/// Reserved extension slot of a sparse storage block.
#[derive(Clone, Debug, Default)]
pub struct SparseExtension {}

/// Reserved extension slot of a sparse value block.
#[derive(Clone, Debug, Default)]
pub struct ValuesExtension {}

} // verus!
