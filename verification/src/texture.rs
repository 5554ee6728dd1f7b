//! Textures and samplers: filtering and wrapping modes, plus the texture
//! reference record shared by material fields.

use vstd::prelude::*;

use crate::json::{
    bad_field, bad_value, ext_flag, field_opt_number, field_opt_numbers_exact, field_opt_text,
    field_opt_usize, field_usize, field_usize_or, get_field, lookup_field,
    opt_text_is, spec_ext_flag, spec_field_opt_number, spec_field_opt_numbers_exact,
    spec_field_opt_text, spec_field_opt_usize, spec_field_usize, spec_field_usize_or, FloatBits,
    Json, JsonMember, SchemaError,
};

verus! {

/// Minification filter: one of the six numeric codes the format allows.
#[derive(Clone, Copy, Debug, PartialEq, Eq, Hash)]
pub enum MinFilter {
    Nearest,
    Linear,
    NearestMipmapNearest,
    LinearMipmapNearest,
    NearestMipmapLinear,
    LinearMipmapLinear,
}

/// The minification filter a numeric code names, if any: the closed
/// enumeration `{9728, 9729, 9984, 9985, 9986, 9987}`.
pub open spec fn min_filter_of(code: u64) -> Option<MinFilter> {
    if code == 9728 {
        Some(MinFilter::Nearest)
    } else if code == 9729 {
        Some(MinFilter::Linear)
    } else if code == 9984 {
        Some(MinFilter::NearestMipmapNearest)
    } else if code == 9985 {
        Some(MinFilter::LinearMipmapNearest)
    } else if code == 9986 {
        Some(MinFilter::NearestMipmapLinear)
    } else if code == 9987 {
        Some(MinFilter::LinearMipmapLinear)
    } else {
        None
    }
}

impl MinFilter {
    /// Resolves the closed `minFilter` enumeration: exactly the six legal
    /// codes succeed.
    pub fn from_code(code: u64) -> (r: Result<MinFilter, SchemaError>)
        ensures
            r matches Ok(t) ==> min_filter_of(code) == Some(t),
            r is Err <==> min_filter_of(code) is None,
    {
        if code == 9728 {
            Ok(MinFilter::Nearest)
        } else if code == 9729 {
            Ok(MinFilter::Linear)
        } else if code == 9984 {
            Ok(MinFilter::NearestMipmapNearest)
        } else if code == 9985 {
            Ok(MinFilter::LinearMipmapNearest)
        } else if code == 9986 {
            Ok(MinFilter::NearestMipmapLinear)
        } else if code == 9987 {
            Ok(MinFilter::LinearMipmapLinear)
        } else {
            Err(bad_value("a valid minFilter code"))
        }
    }
}

/// Magnification filter: one of the two numeric codes the format allows.
#[derive(Clone, Copy, Debug, PartialEq, Eq, Hash)]
pub enum MagFilter {
    Nearest,
    Linear,
}

/// The magnification filter a numeric code names, if any: the closed
/// enumeration `{9728, 9729}`.
pub open spec fn mag_filter_of(code: u64) -> Option<MagFilter> {
    if code == 9728 {
        Some(MagFilter::Nearest)
    } else if code == 9729 {
        Some(MagFilter::Linear)
    } else {
        None
    }
}

impl MagFilter {
    /// Resolves the closed `magFilter` enumeration: exactly the two legal
    /// codes succeed.
    pub fn from_code(code: u64) -> (r: Result<MagFilter, SchemaError>)
        ensures
            r matches Ok(t) ==> mag_filter_of(code) == Some(t),
            r is Err <==> mag_filter_of(code) is None,
    {
        if code == 9728 {
            Ok(MagFilter::Nearest)
        } else if code == 9729 {
            Ok(MagFilter::Linear)
        } else {
            Err(bad_value("a valid magFilter code"))
        }
    }
}

/// Texture coordinate wrapping: one of the three numeric codes the format
/// allows.
#[derive(Clone, Copy, Debug, PartialEq, Eq, Hash)]
pub enum WrappingMode {
    ClampToEdge,
    MirroredRepeat,
    Repeat,
}

/// The wrapping mode a numeric code names, if any: the closed enumeration
/// `{33071, 33648, 10497}`.
pub open spec fn wrapping_mode_of(code: u64) -> Option<WrappingMode> {
    if code == 33071 {
        Some(WrappingMode::ClampToEdge)
    } else if code == 33648 {
        Some(WrappingMode::MirroredRepeat)
    } else if code == 10497 {
        Some(WrappingMode::Repeat)
    } else {
        None
    }
}

impl WrappingMode {
    /// Resolves the closed wrapping-mode enumeration: exactly the three legal
    /// codes succeed.
    pub fn from_code(code: u64) -> (r: Result<WrappingMode, SchemaError>)
        ensures
            r matches Ok(t) ==> wrapping_mode_of(code) == Some(t),
            r is Err <==> wrapping_mode_of(code) is None,
    {
        if code == 33071 {
            Ok(WrappingMode::ClampToEdge)
        } else if code == 33648 {
            Ok(WrappingMode::MirroredRepeat)
        } else if code == 10497 {
            Ok(WrappingMode::Repeat)
        } else {
            Err(bad_value("a valid wrapping-mode code"))
        }
    }
}

impl Default for WrappingMode {
    /// The format's default wrapping mode.
    fn default() -> (r: WrappingMode)
        ensures
            r == WrappingMode::Repeat,
    {
        WrappingMode::Repeat
    }
}

/// An optional numeric-enumeration filter field: absent or null reads as
/// `None`.
pub open spec fn spec_field_opt_min_filter(ms: Seq<JsonMember>) -> Option<Option<MinFilter>> {
    match lookup_field(ms, "minFilter"@) {
        None => Some(None),
        Some(Json::Null) => Some(None),
        Some(Json::Num(n)) => match n.int {
            Some(u) => match min_filter_of(u) {
                Some(f) => Some(Some(f)),
                None => None,
            },
            None => None,
        },
        Some(_) => None,
    }
}

fn field_opt_min_filter(ms: &Vec<JsonMember>) -> (r: Result<Option<MinFilter>, SchemaError>)
    ensures
        r matches Ok(o) ==> spec_field_opt_min_filter(ms@) == Some(o),
        r is Err <==> spec_field_opt_min_filter(ms@) is None,
{
    match get_field(ms, "minFilter") {
        None => Ok(None),
        Some(j) => match j {
            Json::Null => Ok(None),
            Json::Num(n) => match n.int {
                Some(u) => match MinFilter::from_code(u) {
                    Ok(f) => Ok(Some(f)),
                    Err(e) => Err(e),
                },
                None => Err(bad_field("minFilter")),
            },
            _ => Err(bad_field("minFilter")),
        },
    }
}

pub open spec fn spec_field_opt_mag_filter(ms: Seq<JsonMember>) -> Option<Option<MagFilter>> {
    match lookup_field(ms, "magFilter"@) {
        None => Some(None),
        Some(Json::Null) => Some(None),
        Some(Json::Num(n)) => match n.int {
            Some(u) => match mag_filter_of(u) {
                Some(f) => Some(Some(f)),
                None => None,
            },
            None => None,
        },
        Some(_) => None,
    }
}

fn field_opt_mag_filter(ms: &Vec<JsonMember>) -> (r: Result<Option<MagFilter>, SchemaError>)
    ensures
        r matches Ok(o) ==> spec_field_opt_mag_filter(ms@) == Some(o),
        r is Err <==> spec_field_opt_mag_filter(ms@) is None,
{
    match get_field(ms, "magFilter") {
        None => Ok(None),
        Some(j) => match j {
            Json::Null => Ok(None),
            Json::Num(n) => match n.int {
                Some(u) => match MagFilter::from_code(u) {
                    Ok(f) => Ok(Some(f)),
                    Err(e) => Err(e),
                },
                None => Err(bad_field("magFilter")),
            },
            _ => Err(bad_field("magFilter")),
        },
    }
}

/// A defaulted wrapping-mode field: absent reads as `Repeat`.
pub open spec fn spec_field_wrap(ms: Seq<JsonMember>, key: Seq<char>) -> Option<WrappingMode> {
    match lookup_field(ms, key) {
        None => Some(WrappingMode::Repeat),
        Some(Json::Num(n)) => match n.int {
            Some(u) => wrapping_mode_of(u),
            None => None,
        },
        Some(_) => None,
    }
}

fn field_wrap(ms: &Vec<JsonMember>, key: &str) -> (r: Result<WrappingMode, SchemaError>)
    ensures
        r matches Ok(w) ==> spec_field_wrap(ms@, key@) == Some(w),
        r is Err <==> spec_field_wrap(ms@, key@) is None,
{
    match get_field(ms, key) {
        None => Ok(WrappingMode::Repeat),
        Some(j) => match j {
            Json::Num(n) => match n.int {
                Some(u) => WrappingMode::from_code(u),
                None => Err(bad_field(key)),
            },
            _ => Err(bad_field(key)),
        },
    }
}

/// A sampler: filtering and wrapping state for a texture.
#[derive(Clone, Debug)]
pub struct Sampler {
    pub mag_filter: Option<MagFilter>,
    pub min_filter: Option<MinFilter>,
    pub name: Option<String>,
    pub wrap_s: WrappingMode,
    pub wrap_t: WrappingMode,
    pub extensions: Option<SamplerExtensions>,
}

pub open spec fn sampler_ok(v: Json) -> bool {
    &&& v is Obj
    &&& {
        let ms = v->Obj_0@;
        &&& spec_field_opt_mag_filter(ms) is Some
        &&& spec_field_opt_min_filter(ms) is Some
        &&& spec_field_opt_text(ms, "name"@) is Some
        &&& spec_field_wrap(ms, "wrapS"@) is Some
        &&& spec_field_wrap(ms, "wrapT"@) is Some
        &&& spec_ext_flag(ms, "extensions"@) is Some
    }
}

pub open spec fn sampler_decoded(v: Json, x: Sampler) -> bool {
    &&& sampler_ok(v)
    &&& {
        let ms = v->Obj_0@;
        &&& Some(x.mag_filter) == spec_field_opt_mag_filter(ms)
        &&& Some(x.min_filter) == spec_field_opt_min_filter(ms)
        &&& opt_text_is(spec_field_opt_text(ms, "name"@)->Some_0, x.name)
        &&& Some(x.wrap_s) == spec_field_wrap(ms, "wrapS"@)
        &&& Some(x.wrap_t) == spec_field_wrap(ms, "wrapT"@)
        &&& x.extensions == (if spec_ext_flag(ms, "extensions"@)->Some_0 {
            Some(SamplerExtensions {  })
        } else {
            None
        })
    }
}

impl Sampler {
    pub fn from_json(v: &Json) -> (r: Result<Sampler, SchemaError>)
        ensures
            r is Ok <==> sampler_ok(*v),
            r matches Ok(x) ==> sampler_decoded(*v, x),
    {
        let ms = match v {
            Json::Obj(ms) => ms,
            _ => {
                return Err(bad_value("a sampler must be an object"));
            },
        };
        let mag_filter = field_opt_mag_filter(ms)?;
        let min_filter = field_opt_min_filter(ms)?;
        let name = field_opt_text(ms, "name")?;
        let wrap_s = field_wrap(ms, "wrapS")?;
        let wrap_t = field_wrap(ms, "wrapT")?;
        let extensions = if ext_flag(ms, "extensions")? {
            Some(SamplerExtensions {  })
        } else {
            None
        };
        Ok(Sampler { mag_filter, min_filter, name, wrap_s, wrap_t, extensions })
    }
}

impl Default for Sampler {
    /// The default sampler: no filters, both wraps `Repeat`.
    fn default() -> (r: Sampler)
        ensures
            r.mag_filter is None,
            r.min_filter is None,
            r.name is None,
            r.wrap_s == WrappingMode::Repeat,
            r.wrap_t == WrappingMode::Repeat,
            r.extensions is None,
    {
        Sampler {
            mag_filter: None,
            min_filter: None,
            name: None,
            wrap_s: WrappingMode::Repeat,
            wrap_t: WrappingMode::Repeat,
            extensions: None,
        }
    }
}

/// A texture: an optional sampler and an optional image source.
#[derive(Clone, Debug)]
pub struct Texture {
    pub name: Option<String>,
    pub sampler: Option<usize>,
    pub source: Option<usize>,
    pub extensions: Option<TextureExtensions>,
}

pub open spec fn texture_ok(v: Json) -> bool {
    &&& v is Obj
    &&& {
        let ms = v->Obj_0@;
        &&& spec_field_opt_text(ms, "name"@) is Some
        &&& spec_field_opt_usize(ms, "sampler"@) is Some
        &&& spec_field_opt_usize(ms, "source"@) is Some
        &&& spec_ext_flag(ms, "extensions"@) is Some
    }
}

pub open spec fn texture_decoded(v: Json, x: Texture) -> bool {
    &&& texture_ok(v)
    &&& {
        let ms = v->Obj_0@;
        &&& opt_text_is(spec_field_opt_text(ms, "name"@)->Some_0, x.name)
        &&& Some(x.sampler) == spec_field_opt_usize(ms, "sampler"@)
        &&& Some(x.source) == spec_field_opt_usize(ms, "source"@)
        &&& x.extensions == (if spec_ext_flag(ms, "extensions"@)->Some_0 {
            Some(TextureExtensions {  })
        } else {
            None
        })
    }
}

impl Texture {
    pub fn from_json(v: &Json) -> (r: Result<Texture, SchemaError>)
        ensures
            r is Ok <==> texture_ok(*v),
            r matches Ok(x) ==> texture_decoded(*v, x),
    {
        let ms = match v {
            Json::Obj(ms) => ms,
            _ => {
                return Err(bad_value("a texture must be an object"));
            },
        };
        let name = field_opt_text(ms, "name")?;
        let sampler = field_opt_usize(ms, "sampler")?;
        let source = field_opt_usize(ms, "source")?;
        let extensions = if ext_flag(ms, "extensions")? {
            Some(TextureExtensions {  })
        } else {
            None
        };
        Ok(Texture { name, sampler, source, extensions })
    }
}

/// The texture-transform extension payload: offset, scale and rotation applied
/// to texture coordinates.
#[derive(Default, Clone, Debug)]
pub struct KHR_Texture_Transform {
    pub offset: Option<[FloatBits; 2]>,
    pub scale: Option<[FloatBits; 2]>,
    pub rotation: Option<FloatBits>,
}

pub open spec fn texture_transform_ok(v: Json) -> bool {
    &&& v is Obj
    &&& {
        let ms = v->Obj_0@;
        &&& spec_field_opt_numbers_exact(ms, "offset"@, 2) is Some
        &&& spec_field_opt_numbers_exact(ms, "scale"@, 2) is Some
        &&& spec_field_opt_number(ms, "rotation"@) is Some
    }
}

pub open spec fn texture_transform_decoded(v: Json, x: KHR_Texture_Transform) -> bool {
    &&& texture_transform_ok(v)
    &&& {
        let ms = v->Obj_0@;
        &&& match spec_field_opt_numbers_exact(ms, "offset"@, 2)->Some_0 {
            None => x.offset is None,
            Some(s) => x.offset matches Some(a) && a@ == s,
        }
        &&& match spec_field_opt_numbers_exact(ms, "scale"@, 2)->Some_0 {
            None => x.scale is None,
            Some(s) => x.scale matches Some(a) && a@ == s,
        }
        &&& Some(x.rotation) == spec_field_opt_number(ms, "rotation"@)
    }
}

impl KHR_Texture_Transform {
    pub fn from_json(v: &Json) -> (r: Result<KHR_Texture_Transform, SchemaError>)
        ensures
            r is Ok <==> texture_transform_ok(*v),
            r matches Ok(x) ==> texture_transform_decoded(*v, x),
    {
        let ms = match v {
            Json::Obj(ms) => ms,
            _ => {
                return Err(bad_value("a texture transform must be an object"));
            },
        };
        let offset = field_opt_numbers_exact::<2>(ms, "offset")?;
        let scale = field_opt_numbers_exact::<2>(ms, "scale")?;
        let rotation = field_opt_number(ms, "rotation")?;
        Ok(KHR_Texture_Transform { offset, scale, rotation })
    }
}

/// Extension slot of a texture reference: the texture-transform payload is the
/// one extension recognized here.
#[derive(Default, Clone, Debug)]
pub struct InfoExtensions {
    pub khr_texture_transform: Option<KHR_Texture_Transform>,
}

pub open spec fn info_extensions_ok(v: Json) -> bool {
    &&& v is Obj
    &&& {
        let ms = v->Obj_0@;
        match lookup_field(ms, "KHR_texture_transform"@) {
            None => true,
            Some(Json::Null) => true,
            Some(w) => texture_transform_ok(w),
        }
    }
}

pub open spec fn info_extensions_decoded(v: Json, x: InfoExtensions) -> bool {
    &&& info_extensions_ok(v)
    &&& {
        let ms = v->Obj_0@;
        match lookup_field(ms, "KHR_texture_transform"@) {
            None => x.khr_texture_transform is None,
            Some(Json::Null) => x.khr_texture_transform is None,
            Some(w) => x.khr_texture_transform matches Some(t) && texture_transform_decoded(w, t),
        }
    }
}

impl InfoExtensions {
    pub fn from_json(v: &Json) -> (r: Result<InfoExtensions, SchemaError>)
        ensures
            r is Ok <==> info_extensions_ok(*v),
            r matches Ok(x) ==> info_extensions_decoded(*v, x),
    {
        let ms = match v {
            Json::Obj(ms) => ms,
            _ => {
                return Err(bad_value("a texture-reference extension slot must be an object"));
            },
        };
        let khr_texture_transform = match get_field(ms, "KHR_texture_transform") {
            None => None,
            Some(j) => match j {
                Json::Null => None,
                _ => Some(KHR_Texture_Transform::from_json(j)?),
            },
        };
        Ok(InfoExtensions { khr_texture_transform })
    }
}

/// A texture reference: the texture index and which texture-coordinate set to
/// sample it with.
#[derive(Clone, Debug)]
pub struct Info {
    pub index: usize,
    pub tex_coord: usize,
    pub extensions: Option<InfoExtensions>,
}

pub open spec fn info_ok(v: Json) -> bool {
    &&& v is Obj
    &&& {
        let ms = v->Obj_0@;
        &&& spec_field_usize(ms, "index"@) is Some
        &&& spec_field_usize_or(ms, "texCoord"@, 0) is Some
        &&& match lookup_field(ms, "extensions"@) {
            None => true,
            Some(Json::Null) => true,
            Some(w) => info_extensions_ok(w),
        }
    }
}

pub open spec fn info_decoded(v: Json, x: Info) -> bool {
    &&& info_ok(v)
    &&& {
        let ms = v->Obj_0@;
        &&& Some(x.index) == spec_field_usize(ms, "index"@)
        &&& Some(x.tex_coord) == spec_field_usize_or(ms, "texCoord"@, 0)
        &&& match lookup_field(ms, "extensions"@) {
            None => x.extensions is None,
            Some(Json::Null) => x.extensions is None,
            Some(w) => x.extensions matches Some(e) && info_extensions_decoded(w, e),
        }
    }
}

impl Info {
    pub fn from_json(v: &Json) -> (r: Result<Info, SchemaError>)
        ensures
            r is Ok <==> info_ok(*v),
            r matches Ok(x) ==> info_decoded(*v, x),
    {
        let ms = match v {
            Json::Obj(ms) => ms,
            _ => {
                return Err(bad_value("a texture reference must be an object"));
            },
        };
        let index = field_usize(ms, "index")?;
        let tex_coord = field_usize_or(ms, "texCoord", 0)?;
        let extensions = match get_field(ms, "extensions") {
            None => None,
            Some(j) => match j {
                Json::Null => None,
                _ => Some(InfoExtensions::from_json(j)?),
            },
        };
        Ok(Info { index, tex_coord, extensions })
    }
}

/// Reserved extension slot of a texture.
#[derive(Default, Clone, Debug)]
pub struct TextureExtensions {}

/// Reserved extension slot of a sampler.
#[derive(Default, Clone, Debug)]
pub struct SamplerExtensions {}

} // verus!
