//! Cameras: perspective or orthographic projection parameters.

use vstd::prelude::*;

use crate::json::{
    bad_field, bad_value, ext_flag, field_number, field_opt_number, field_opt_text, get_field,
    lookup_field, missing_field, opt_text_is, spec_ext_flag, spec_field_number,
    spec_field_opt_number, spec_field_opt_text, str_eq, FloatBits, Json, JsonMember, SchemaError,
};

verus! {

/// Which projection a camera uses: one of the two string tags the format
/// allows.
#[derive(Clone, Copy, Debug, Eq, PartialEq, Hash)]
pub enum CameraType {
    Perspective,
    Orthographic,
}

/// The camera type a string tag names, if any: the closed enumeration
/// `{perspective, orthographic}`.
pub open spec fn camera_type_of(s: Seq<char>) -> Option<CameraType> {
    if s == "perspective"@ {
        Some(CameraType::Perspective)
    } else if s == "orthographic"@ {
        Some(CameraType::Orthographic)
    } else {
        None
    }
}

impl CameraType {
    /// Resolves the closed camera `type` enumeration: exactly the two legal
    /// tags succeed.
    pub fn from_name(name: &str) -> (r: Result<CameraType, SchemaError>)
        ensures
            r matches Ok(t) ==> camera_type_of(name@) == Some(t),
            r is Err <==> camera_type_of(name@) is None,
    {
        if str_eq(name, "perspective") {
            Ok(CameraType::Perspective)
        } else if str_eq(name, "orthographic") {
            Ok(CameraType::Orthographic)
        } else {
            Err(bad_value("a valid camera type tag"))
        }
    }
}

/// A required camera `type` field.
pub open spec fn spec_field_camera_type(ms: Seq<JsonMember>) -> Option<CameraType> {
    match lookup_field(ms, "type"@) {
        Some(Json::Text(s)) => camera_type_of(s@),
        _ => None,
    }
}

pub fn field_camera_type(ms: &Vec<JsonMember>) -> (r: Result<CameraType, SchemaError>)
    ensures
        r matches Ok(t) ==> spec_field_camera_type(ms@) == Some(t),
        r is Err <==> spec_field_camera_type(ms@) is None,
{
    match get_field(ms, "type") {
        Some(j) => match j {
            Json::Text(s) => CameraType::from_name(s.as_str()),
            _ => Err(bad_field("type")),
        },
        None => Err(missing_field("type")),
    }
}

/// Orthographic projection parameters.
#[derive(Clone, Debug)]
pub struct Orthographic {
    pub xmag: FloatBits,
    pub ymag: FloatBits,
    pub zfar: FloatBits,
    pub znear: FloatBits,
    pub extensions: Option<OrthographicExtensions>,
}

pub open spec fn orthographic_ok(v: Json) -> bool {
    &&& v is Obj
    &&& {
        let ms = v->Obj_0@;
        &&& spec_field_number(ms, "xmag"@) is Some
        &&& spec_field_number(ms, "ymag"@) is Some
        &&& spec_field_number(ms, "zfar"@) is Some
        &&& spec_field_number(ms, "znear"@) is Some
        &&& spec_ext_flag(ms, "extensions"@) is Some
    }
}

pub open spec fn orthographic_decoded(v: Json, x: Orthographic) -> bool {
    &&& orthographic_ok(v)
    &&& {
        let ms = v->Obj_0@;
        &&& Some(x.xmag) == spec_field_number(ms, "xmag"@)
        &&& Some(x.ymag) == spec_field_number(ms, "ymag"@)
        &&& Some(x.zfar) == spec_field_number(ms, "zfar"@)
        &&& Some(x.znear) == spec_field_number(ms, "znear"@)
        &&& x.extensions == (if spec_ext_flag(ms, "extensions"@)->Some_0 {
            Some(OrthographicExtensions {  })
        } else {
            None
        })
    }
}

impl Orthographic {
    pub fn from_json(v: &Json) -> (r: Result<Orthographic, SchemaError>)
        ensures
            r is Ok <==> orthographic_ok(*v),
            r matches Ok(x) ==> orthographic_decoded(*v, x),
    {
        let ms = match v {
            Json::Obj(ms) => ms,
            _ => {
                return Err(bad_value("an orthographic camera must be an object"));
            },
        };
        let xmag = field_number(ms, "xmag")?;
        let ymag = field_number(ms, "ymag")?;
        let zfar = field_number(ms, "zfar")?;
        let znear = field_number(ms, "znear")?;
        let extensions = if ext_flag(ms, "extensions")? {
            Some(OrthographicExtensions {  })
        } else {
            None
        };
        Ok(Orthographic { xmag, ymag, zfar, znear, extensions })
    }
}

/// Perspective projection parameters.
#[derive(Clone, Debug)]
pub struct Perspective {
    pub aspect_ratio: Option<FloatBits>,
    pub yfov: FloatBits,
    pub zfar: Option<FloatBits>,
    pub znear: FloatBits,
    pub extensions: Option<PerspectiveExtensions>,
}

pub open spec fn perspective_ok(v: Json) -> bool {
    &&& v is Obj
    &&& {
        let ms = v->Obj_0@;
        &&& spec_field_opt_number(ms, "aspectRatio"@) is Some
        &&& spec_field_number(ms, "yfov"@) is Some
        &&& spec_field_opt_number(ms, "zfar"@) is Some
        &&& spec_field_number(ms, "znear"@) is Some
        &&& spec_ext_flag(ms, "extensions"@) is Some
    }
}

pub open spec fn perspective_decoded(v: Json, x: Perspective) -> bool {
    &&& perspective_ok(v)
    &&& {
        let ms = v->Obj_0@;
        &&& Some(x.aspect_ratio) == spec_field_opt_number(ms, "aspectRatio"@)
        &&& Some(x.yfov) == spec_field_number(ms, "yfov"@)
        &&& Some(x.zfar) == spec_field_opt_number(ms, "zfar"@)
        &&& Some(x.znear) == spec_field_number(ms, "znear"@)
        &&& x.extensions == (if spec_ext_flag(ms, "extensions"@)->Some_0 {
            Some(PerspectiveExtensions {  })
        } else {
            None
        })
    }
}

impl Perspective {
    pub fn from_json(v: &Json) -> (r: Result<Perspective, SchemaError>)
        ensures
            r is Ok <==> perspective_ok(*v),
            r matches Ok(x) ==> perspective_decoded(*v, x),
    {
        let ms = match v {
            Json::Obj(ms) => ms,
            _ => {
                return Err(bad_value("a perspective camera must be an object"));
            },
        };
        let aspect_ratio = field_opt_number(ms, "aspectRatio")?;
        let yfov = field_number(ms, "yfov")?;
        let zfar = field_opt_number(ms, "zfar")?;
        let znear = field_number(ms, "znear")?;
        let extensions = if ext_flag(ms, "extensions")? {
            Some(PerspectiveExtensions {  })
        } else {
            None
        };
        Ok(Perspective { aspect_ratio, yfov, zfar, znear, extensions })
    }
}

/// A camera: its projection kind plus the matching parameter block, if given.
#[derive(Clone, Debug)]
pub struct Camera {
    pub name: Option<String>,
    pub orthographic: Option<Orthographic>,
    pub perspective: Option<Perspective>,
    pub type_: CameraType,
    pub extensions: Option<CameraExtensions>,
}

pub open spec fn camera_ok(v: Json) -> bool {
    &&& v is Obj
    &&& {
        let ms = v->Obj_0@;
        &&& spec_field_opt_text(ms, "name"@) is Some
        &&& match lookup_field(ms, "orthographic"@) {
            None => true,
            Some(Json::Null) => true,
            Some(w) => orthographic_ok(w),
        }
        &&& match lookup_field(ms, "perspective"@) {
            None => true,
            Some(Json::Null) => true,
            Some(w) => perspective_ok(w),
        }
        &&& spec_field_camera_type(ms) is Some
        &&& spec_ext_flag(ms, "extensions"@) is Some
    }
}

pub open spec fn camera_decoded(v: Json, x: Camera) -> bool {
    &&& camera_ok(v)
    &&& {
        let ms = v->Obj_0@;
        &&& opt_text_is(spec_field_opt_text(ms, "name"@)->Some_0, x.name)
        &&& match lookup_field(ms, "orthographic"@) {
            None => x.orthographic is None,
            Some(Json::Null) => x.orthographic is None,
            Some(w) => x.orthographic matches Some(o) && orthographic_decoded(w, o),
        }
        &&& match lookup_field(ms, "perspective"@) {
            None => x.perspective is None,
            Some(Json::Null) => x.perspective is None,
            Some(w) => x.perspective matches Some(p) && perspective_decoded(w, p),
        }
        &&& Some(x.type_) == spec_field_camera_type(ms)
        &&& x.extensions == (if spec_ext_flag(ms, "extensions"@)->Some_0 {
            Some(CameraExtensions {  })
        } else {
            None
        })
    }
}

impl Camera {
    pub fn from_json(v: &Json) -> (r: Result<Camera, SchemaError>)
        ensures
            r is Ok <==> camera_ok(*v),
            r matches Ok(x) ==> camera_decoded(*v, x),
    {
        let ms = match v {
            Json::Obj(ms) => ms,
            _ => {
                return Err(bad_value("a camera must be an object"));
            },
        };
        let name = field_opt_text(ms, "name")?;
        let orthographic = match get_field(ms, "orthographic") {
            None => None,
            Some(j) => match j {
                Json::Null => None,
                _ => Some(Orthographic::from_json(j)?),
            },
        };
        let perspective = match get_field(ms, "perspective") {
            None => None,
            Some(j) => match j {
                Json::Null => None,
                _ => Some(Perspective::from_json(j)?),
            },
        };
        let type_ = field_camera_type(ms)?;
        let extensions = if ext_flag(ms, "extensions")? {
            Some(CameraExtensions {  })
        } else {
            None
        };
        Ok(Camera { name, orthographic, perspective, type_, extensions })
    }
}

/// Reserved extension slot of a camera.
#[derive(Default, Clone, Debug)]
pub struct CameraExtensions {}

/// Reserved extension slot of an orthographic parameter block.
#[derive(Default, Clone, Debug)]
pub struct OrthographicExtensions {}

/// Reserved extension slot of a perspective parameter block.
#[derive(Default, Clone, Debug)]
pub struct PerspectiveExtensions {}

} // verus!
