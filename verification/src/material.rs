//! Materials: the PBR metallic-roughness parameter block, alpha handling, and
//! the legacy specular-glossiness extension payload.

use vstd::prelude::*;

use crate::json::{
    bad_field, bad_value, ext_flag, field_bool_or, field_number_or, field_numbers_exact_or,
    field_opt_text, get_field, lookup_field, opt_text_is, spec_ext_flag, spec_field_bool_or,
    spec_field_number_or, spec_field_numbers_exact_or, spec_field_opt_text, str_eq, FloatBits,
    Json, JsonMember, SchemaError, BITS_HALF, BITS_ONE, BITS_TENTH,
};
use crate::texture::{info_decoded, info_ok, Info};

verus! {

/// How a material's alpha channel is interpreted: one of the three string
/// tags the format allows.
#[derive(Clone, Copy, Eq, PartialEq, Debug, Hash)]
pub enum AlphaMode {
    Opaque,
    Mask,
    Blend,
}

/// The alpha mode a string tag names, if any: the closed enumeration
/// `{OPAQUE, MASK, BLEND}`.
pub open spec fn alpha_mode_of(s: Seq<char>) -> Option<AlphaMode> {
    if s == "OPAQUE"@ {
        Some(AlphaMode::Opaque)
    } else if s == "MASK"@ {
        Some(AlphaMode::Mask)
    } else if s == "BLEND"@ {
        Some(AlphaMode::Blend)
    } else {
        None
    }
}

impl AlphaMode {
    /// Resolves the closed `alphaMode` enumeration: exactly the three legal
    /// tags succeed.
    pub fn from_name(name: &str) -> (r: Result<AlphaMode, SchemaError>)
        ensures
            r matches Ok(m) ==> alpha_mode_of(name@) == Some(m),
            r is Err <==> alpha_mode_of(name@) is None,
    {
        if str_eq(name, "OPAQUE") {
            Ok(AlphaMode::Opaque)
        } else if str_eq(name, "MASK") {
            Ok(AlphaMode::Mask)
        } else if str_eq(name, "BLEND") {
            Ok(AlphaMode::Blend)
        } else {
            Err(bad_value("a valid alphaMode tag"))
        }
    }
}

impl Default for AlphaMode {
    /// The format's default alpha mode.
    fn default() -> (r: AlphaMode)
        ensures
            r == AlphaMode::Opaque,
    {
        AlphaMode::Opaque
    }
}

/// A defaulted `alphaMode` field: absent reads as `Opaque`.
pub open spec fn spec_field_alpha_mode(ms: Seq<JsonMember>) -> Option<AlphaMode> {
    match lookup_field(ms, "alphaMode"@) {
        None => Some(AlphaMode::Opaque),
        Some(Json::Text(s)) => alpha_mode_of(s@),
        Some(_) => None,
    }
}

fn field_alpha_mode(ms: &Vec<JsonMember>) -> (r: Result<AlphaMode, SchemaError>)
    ensures
        r matches Ok(m) ==> spec_field_alpha_mode(ms@) == Some(m),
        r is Err <==> spec_field_alpha_mode(ms@) is None,
{
    match get_field(ms, "alphaMode") {
        None => Ok(AlphaMode::Opaque),
        Some(j) => match j {
            Json::Text(s) => AlphaMode::from_name(s.as_str()),
            _ => Err(bad_field("alphaMode")),
        },
    }
}

/// The cutoff under which a `Mask` material discards a fragment.
#[derive(Clone, Copy, Debug)]
pub struct AlphaCutoff(pub FloatBits);

impl Default for AlphaCutoff {
    /// The format's default alpha cutoff: 0.5.
    fn default() -> (r: AlphaCutoff)
        ensures
            r == AlphaCutoff(FloatBits(BITS_HALF)),
    {
        AlphaCutoff(FloatBits(BITS_HALF))
    }
}

/// The emissive color factor of a material.
#[derive(Clone, Copy, Debug)]
pub struct EmissiveFactor(pub [FloatBits; 3]);

impl Default for EmissiveFactor {
    /// The format's default emissive factor: black.
    fn default() -> (r: EmissiveFactor)
        ensures
            r.0@ == seq![FloatBits(0), FloatBits(0), FloatBits(0)],
    {
        broadcast use vstd::array::group_array_axioms;

        let r = EmissiveFactor([FloatBits(0), FloatBits(0), FloatBits(0)]);
        proof {
            assert(r.0@ =~= seq![FloatBits(0), FloatBits(0), FloatBits(0)]);
        }
        r
    }
}

/// The base color factor of the metallic-roughness block.
#[derive(Clone, Copy, Debug)]
pub struct PbrBaseColorFactor(pub [FloatBits; 4]);

impl Default for PbrBaseColorFactor {
    /// The format's default base color: opaque white.
    fn default() -> (r: PbrBaseColorFactor)
        ensures
            r.0@ == seq![
                FloatBits(BITS_ONE),
                FloatBits(BITS_ONE),
                FloatBits(BITS_ONE),
                FloatBits(BITS_ONE),
            ],
    {
        broadcast use vstd::array::group_array_axioms;

        let r = PbrBaseColorFactor(
            [FloatBits(BITS_ONE), FloatBits(BITS_ONE), FloatBits(BITS_ONE), FloatBits(BITS_ONE)],
        );
        proof {
            assert(r.0@ =~= seq![
                FloatBits(BITS_ONE),
                FloatBits(BITS_ONE),
                FloatBits(BITS_ONE),
                FloatBits(BITS_ONE),
            ]);
        }
        r
    }
}

/// A scalar factor defaulting to one: normal scale, metallic and roughness
/// factors.
#[derive(Clone, Copy, Debug)]
pub struct NormalScaleFactor(pub FloatBits);

impl Default for NormalScaleFactor {
    fn default() -> (r: NormalScaleFactor)
        ensures
            r == NormalScaleFactor(FloatBits(BITS_ONE)),
    {
        NormalScaleFactor(FloatBits(BITS_ONE))
    }
}

/// The occlusion strength factor, defaulting to one.
#[derive(Clone, Copy, Debug)]
pub struct OcclusionStrengthFactor(pub FloatBits);

impl Default for OcclusionStrengthFactor {
    fn default() -> (r: OcclusionStrengthFactor)
        ensures
            r == OcclusionStrengthFactor(FloatBits(BITS_ONE)),
    {
        OcclusionStrengthFactor(FloatBits(BITS_ONE))
    }
}

/// A normal-map reference with its scale factor.
#[derive(Clone, Debug)]
pub struct NormalTexture {
    pub index: usize,
    pub scale: NormalScaleFactor,
    pub tex_coord: usize,
    pub extensions: Option<NormalTextureExtensions>,
}

pub open spec fn normal_texture_ok(v: Json) -> bool {
    &&& v is Obj
    &&& {
        let ms = v->Obj_0@;
        &&& crate::json::spec_field_usize(ms, "index"@) is Some
        &&& spec_field_number_or(ms, "scale"@, FloatBits(BITS_ONE)) is Some
        &&& crate::json::spec_field_usize_or(ms, "texCoord"@, 0) is Some
        &&& spec_ext_flag(ms, "extensions"@) is Some
    }
}

pub open spec fn normal_texture_decoded(v: Json, x: NormalTexture) -> bool {
    &&& normal_texture_ok(v)
    &&& {
        let ms = v->Obj_0@;
        &&& Some(x.index) == crate::json::spec_field_usize(ms, "index"@)
        &&& Some(x.scale.0) == spec_field_number_or(ms, "scale"@, FloatBits(BITS_ONE))
        &&& Some(x.tex_coord) == crate::json::spec_field_usize_or(ms, "texCoord"@, 0)
        &&& x.extensions == (if spec_ext_flag(ms, "extensions"@)->Some_0 {
            Some(NormalTextureExtensions {  })
        } else {
            None
        })
    }
}

impl NormalTexture {
    pub fn from_json(v: &Json) -> (r: Result<NormalTexture, SchemaError>)
        ensures
            r is Ok <==> normal_texture_ok(*v),
            r matches Ok(x) ==> normal_texture_decoded(*v, x),
    {
        let ms = match v {
            Json::Obj(ms) => ms,
            _ => {
                return Err(bad_value("a normal-texture reference must be an object"));
            },
        };
        let index = crate::json::field_usize(ms, "index")?;
        let scale = NormalScaleFactor(field_number_or(ms, "scale", FloatBits(BITS_ONE))?);
        let tex_coord = crate::json::field_usize_or(ms, "texCoord", 0)?;
        let extensions = if ext_flag(ms, "extensions")? {
            Some(NormalTextureExtensions {  })
        } else {
            None
        };
        Ok(NormalTexture { index, scale, tex_coord, extensions })
    }
}

/// An occlusion-map reference with its strength factor.
#[derive(Clone, Debug)]
pub struct OcclusionTexture {
    pub index: usize,
    pub strength: OcclusionStrengthFactor,
    pub tex_coord: usize,
    pub extensions: Option<OcclusionTextureExtensions>,
}

pub open spec fn occlusion_texture_ok(v: Json) -> bool {
    &&& v is Obj
    &&& {
        let ms = v->Obj_0@;
        &&& crate::json::spec_field_usize(ms, "index"@) is Some
        &&& spec_field_number_or(ms, "strength"@, FloatBits(BITS_ONE)) is Some
        &&& crate::json::spec_field_usize_or(ms, "texCoord"@, 0) is Some
        &&& spec_ext_flag(ms, "extensions"@) is Some
    }
}

pub open spec fn occlusion_texture_decoded(v: Json, x: OcclusionTexture) -> bool {
    &&& occlusion_texture_ok(v)
    &&& {
        let ms = v->Obj_0@;
        &&& Some(x.index) == crate::json::spec_field_usize(ms, "index"@)
        &&& Some(x.strength.0) == spec_field_number_or(ms, "strength"@, FloatBits(BITS_ONE))
        &&& Some(x.tex_coord) == crate::json::spec_field_usize_or(ms, "texCoord"@, 0)
        &&& x.extensions == (if spec_ext_flag(ms, "extensions"@)->Some_0 {
            Some(OcclusionTextureExtensions {  })
        } else {
            None
        })
    }
}

impl OcclusionTexture {
    pub fn from_json(v: &Json) -> (r: Result<OcclusionTexture, SchemaError>)
        ensures
            r is Ok <==> occlusion_texture_ok(*v),
            r matches Ok(x) ==> occlusion_texture_decoded(*v, x),
    {
        let ms = match v {
            Json::Obj(ms) => ms,
            _ => {
                return Err(bad_value("an occlusion-texture reference must be an object"));
            },
        };
        let index = crate::json::field_usize(ms, "index")?;
        let strength = OcclusionStrengthFactor(
            field_number_or(ms, "strength", FloatBits(BITS_ONE))?,
        );
        let tex_coord = crate::json::field_usize_or(ms, "texCoord", 0)?;
        let extensions = if ext_flag(ms, "extensions")? {
            Some(OcclusionTextureExtensions {  })
        } else {
            None
        };
        Ok(OcclusionTexture { index, strength, tex_coord, extensions })
    }
}

/// The default base-color factor as a sequence: opaque white.
pub open spec fn default_base_color() -> Seq<FloatBits> {
    seq![FloatBits(BITS_ONE), FloatBits(BITS_ONE), FloatBits(BITS_ONE), FloatBits(BITS_ONE)]
}

/// The metallic-roughness parameter block.
#[derive(Clone, Debug)]
pub struct PbrMetallicRoughness {
    pub base_color_factor: PbrBaseColorFactor,
    pub base_color_texture: Option<Info>,
    pub metallic_factor: NormalScaleFactor,
    pub roughness_factor: NormalScaleFactor,
    pub metallic_roughness_texture: Option<Info>,
    pub extensions: Option<PbrMetallicRoughnessExtensions>,
}

pub open spec fn pbr_ok(v: Json) -> bool {
    &&& v is Obj
    &&& {
        let ms = v->Obj_0@;
        &&& spec_field_numbers_exact_or(ms, "baseColorFactor"@, 4, default_base_color()) is Some
        &&& match lookup_field(ms, "baseColorTexture"@) {
            None => true,
            Some(Json::Null) => true,
            Some(w) => info_ok(w),
        }
        &&& spec_field_number_or(ms, "metallicFactor"@, FloatBits(BITS_ONE)) is Some
        &&& spec_field_number_or(ms, "roughnessFactor"@, FloatBits(BITS_ONE)) is Some
        &&& match lookup_field(ms, "metallicRoughnessTexture"@) {
            None => true,
            Some(Json::Null) => true,
            Some(w) => info_ok(w),
        }
        &&& spec_ext_flag(ms, "extensions"@) is Some
    }
}

pub open spec fn pbr_decoded(v: Json, x: PbrMetallicRoughness) -> bool {
    &&& pbr_ok(v)
    &&& {
        let ms = v->Obj_0@;
        &&& Some(x.base_color_factor.0@) == spec_field_numbers_exact_or(
            ms,
            "baseColorFactor"@,
            4,
            default_base_color(),
        )
        &&& match lookup_field(ms, "baseColorTexture"@) {
            None => x.base_color_texture is None,
            Some(Json::Null) => x.base_color_texture is None,
            Some(w) => x.base_color_texture matches Some(t) && info_decoded(w, t),
        }
        &&& Some(x.metallic_factor.0) == spec_field_number_or(
            ms,
            "metallicFactor"@,
            FloatBits(BITS_ONE),
        )
        &&& Some(x.roughness_factor.0) == spec_field_number_or(
            ms,
            "roughnessFactor"@,
            FloatBits(BITS_ONE),
        )
        &&& match lookup_field(ms, "metallicRoughnessTexture"@) {
            None => x.metallic_roughness_texture is None,
            Some(Json::Null) => x.metallic_roughness_texture is None,
            Some(w) => x.metallic_roughness_texture matches Some(t) && info_decoded(w, t),
        }
        &&& x.extensions == (if spec_ext_flag(ms, "extensions"@)->Some_0 {
            Some(PbrMetallicRoughnessExtensions {  })
        } else {
            None
        })
    }
}

/// Whether a metallic-roughness block holds exactly the format's defaults.
pub open spec fn pbr_is_default(x: PbrMetallicRoughness) -> bool {
    &&& x.base_color_factor.0@ == default_base_color()
    &&& x.base_color_texture is None
    &&& x.metallic_factor == NormalScaleFactor(FloatBits(BITS_ONE))
    &&& x.roughness_factor == NormalScaleFactor(FloatBits(BITS_ONE))
    &&& x.metallic_roughness_texture is None
    &&& x.extensions is None
}

impl PbrMetallicRoughness {
    pub fn from_json(v: &Json) -> (r: Result<PbrMetallicRoughness, SchemaError>)
        ensures
            r is Ok <==> pbr_ok(*v),
            r matches Ok(x) ==> pbr_decoded(*v, x),
    {
        let ms = match v {
            Json::Obj(ms) => ms,
            _ => {
                return Err(bad_value("a metallic-roughness block must be an object"));
            },
        };
        let base_color_factor = PbrBaseColorFactor(
            field_numbers_exact_or::<4>(
                ms,
                "baseColorFactor",
                [
                    FloatBits(BITS_ONE),
                    FloatBits(BITS_ONE),
                    FloatBits(BITS_ONE),
                    FloatBits(BITS_ONE),
                ],
            )?,
        );
        let base_color_texture = match get_field(ms, "baseColorTexture") {
            None => None,
            Some(j) => match j {
                Json::Null => None,
                _ => Some(Info::from_json(j)?),
            },
        };
        let metallic_factor = NormalScaleFactor(
            field_number_or(ms, "metallicFactor", FloatBits(BITS_ONE))?,
        );
        let roughness_factor = NormalScaleFactor(
            field_number_or(ms, "roughnessFactor", FloatBits(BITS_ONE))?,
        );
        let metallic_roughness_texture = match get_field(ms, "metallicRoughnessTexture") {
            None => None,
            Some(j) => match j {
                Json::Null => None,
                _ => Some(Info::from_json(j)?),
            },
        };
        let extensions = if ext_flag(ms, "extensions")? {
            Some(PbrMetallicRoughnessExtensions {  })
        } else {
            None
        };
        proof {
            assert(base_color_factor.0@ == spec_field_numbers_exact_or(
                ms@,
                "baseColorFactor"@,
                4,
                default_base_color(),
            )->Some_0);
        }
        Ok(
            PbrMetallicRoughness {
                base_color_factor,
                base_color_texture,
                metallic_factor,
                roughness_factor,
                metallic_roughness_texture,
                extensions,
            },
        )
    }
}

impl Default for PbrMetallicRoughness {
    /// The default metallic-roughness block: white base color, unit factors,
    /// no textures.
    fn default() -> (r: PbrMetallicRoughness)
        ensures
            pbr_is_default(r),
    {
        broadcast use vstd::array::group_array_axioms;

        let r = PbrMetallicRoughness {
            base_color_factor: PbrBaseColorFactor(
                [
                    FloatBits(BITS_ONE),
                    FloatBits(BITS_ONE),
                    FloatBits(BITS_ONE),
                    FloatBits(BITS_ONE),
                ],
            ),
            base_color_texture: None,
            metallic_factor: NormalScaleFactor(FloatBits(BITS_ONE)),
            roughness_factor: NormalScaleFactor(FloatBits(BITS_ONE)),
            metallic_roughness_texture: None,
            extensions: None,
        };
        proof {
            assert(r.base_color_factor.0@ =~= default_base_color());
        }
        r
    }
}

/// The glossiness factor of the legacy specular-glossiness payload.
#[derive(Clone, Copy, Debug)]
pub struct GlossinessStrengthFactor(pub FloatBits);

impl Default for GlossinessStrengthFactor {
    fn default() -> (r: GlossinessStrengthFactor)
        ensures
            r == GlossinessStrengthFactor(FloatBits(BITS_TENTH)),
    {
        GlossinessStrengthFactor(FloatBits(BITS_TENTH))
    }
}

/// The diffuse color factor of the legacy specular-glossiness payload.
#[derive(Clone, Copy, Debug)]
pub struct PbrDiffuseFactor(pub [FloatBits; 4]);

impl Default for PbrDiffuseFactor {
    /// The payload's default diffuse factor: opaque black.
    fn default() -> (r: PbrDiffuseFactor)
        ensures
            r.0@ == default_diffuse(),
    {
        broadcast use vstd::array::group_array_axioms;

        let r = PbrDiffuseFactor([FloatBits(0), FloatBits(0), FloatBits(0), FloatBits(BITS_ONE)]);
        proof {
            assert(r.0@ =~= default_diffuse());
        }
        r
    }
}

/// The specular color factor of the legacy specular-glossiness payload.
#[derive(Clone, Copy, Debug)]
pub struct PbrSpecularFactor(pub [FloatBits; 3]);

impl Default for PbrSpecularFactor {
    /// The payload's default specular factor: black.
    fn default() -> (r: PbrSpecularFactor)
        ensures
            r.0@ == default_specular(),
    {
        broadcast use vstd::array::group_array_axioms;

        let r = PbrSpecularFactor([FloatBits(0), FloatBits(0), FloatBits(0)]);
        proof {
            assert(r.0@ =~= default_specular());
        }
        r
    }
}

/// The default diffuse factor as a sequence: opaque black.
pub open spec fn default_diffuse() -> Seq<FloatBits> {
    seq![FloatBits(0), FloatBits(0), FloatBits(0), FloatBits(BITS_ONE)]
}

/// The default specular factor as a sequence: black.
pub open spec fn default_specular() -> Seq<FloatBits> {
    seq![FloatBits(0), FloatBits(0), FloatBits(0)]
}

/// The legacy specular-glossiness material payload.
#[derive(Clone, Debug)]
#[allow(non_camel_case_types)]
pub struct KHR_Materials_PbrSpecularGlossiness {
    pub diffuse_factor: PbrDiffuseFactor,
    pub diffuse_texture: Option<Info>,
    pub specular_factor: PbrSpecularFactor,
    pub glossiness_factor: GlossinessStrengthFactor,
    pub specular_glossiness_texture: Option<Info>,
}

pub open spec fn specular_glossiness_ok(v: Json) -> bool {
    &&& v is Obj
    &&& {
        let ms = v->Obj_0@;
        &&& spec_field_numbers_exact_or(ms, "diffuseFactor"@, 4, default_diffuse()) is Some
        &&& match lookup_field(ms, "diffuseTexture"@) {
            None => true,
            Some(Json::Null) => true,
            Some(w) => info_ok(w),
        }
        &&& spec_field_numbers_exact_or(ms, "specularFactor"@, 3, default_specular()) is Some
        &&& spec_field_number_or(ms, "glossinessFactor"@, FloatBits(BITS_TENTH)) is Some
        &&& match lookup_field(ms, "specularGlossinessTexture"@) {
            None => true,
            Some(Json::Null) => true,
            Some(w) => info_ok(w),
        }
    }
}

pub open spec fn specular_glossiness_decoded(
    v: Json,
    x: KHR_Materials_PbrSpecularGlossiness,
) -> bool {
    &&& specular_glossiness_ok(v)
    &&& {
        let ms = v->Obj_0@;
        &&& Some(x.diffuse_factor.0@) == spec_field_numbers_exact_or(
            ms,
            "diffuseFactor"@,
            4,
            default_diffuse(),
        )
        &&& match lookup_field(ms, "diffuseTexture"@) {
            None => x.diffuse_texture is None,
            Some(Json::Null) => x.diffuse_texture is None,
            Some(w) => x.diffuse_texture matches Some(t) && info_decoded(w, t),
        }
        &&& Some(x.specular_factor.0@) == spec_field_numbers_exact_or(
            ms,
            "specularFactor"@,
            3,
            default_specular(),
        )
        &&& Some(x.glossiness_factor.0) == spec_field_number_or(
            ms,
            "glossinessFactor"@,
            FloatBits(BITS_TENTH),
        )
        &&& match lookup_field(ms, "specularGlossinessTexture"@) {
            None => x.specular_glossiness_texture is None,
            Some(Json::Null) => x.specular_glossiness_texture is None,
            Some(w) => x.specular_glossiness_texture matches Some(t) && info_decoded(w, t),
        }
    }
}

impl KHR_Materials_PbrSpecularGlossiness {
    pub fn from_json(v: &Json) -> (r: Result<KHR_Materials_PbrSpecularGlossiness, SchemaError>)
        ensures
            r is Ok <==> specular_glossiness_ok(*v),
            r matches Ok(x) ==> specular_glossiness_decoded(*v, x),
    {
        let ms = match v {
            Json::Obj(ms) => ms,
            _ => {
                return Err(bad_value("a specular-glossiness payload must be an object"));
            },
        };
        let diffuse_factor = PbrDiffuseFactor(
            field_numbers_exact_or::<4>(
                ms,
                "diffuseFactor",
                [FloatBits(0), FloatBits(0), FloatBits(0), FloatBits(BITS_ONE)],
            )?,
        );
        let diffuse_texture = match get_field(ms, "diffuseTexture") {
            None => None,
            Some(j) => match j {
                Json::Null => None,
                _ => Some(Info::from_json(j)?),
            },
        };
        let specular_factor = PbrSpecularFactor(
            field_numbers_exact_or::<3>(
                ms,
                "specularFactor",
                [FloatBits(0), FloatBits(0), FloatBits(0)],
            )?,
        );
        let glossiness_factor = GlossinessStrengthFactor(
            field_number_or(ms, "glossinessFactor", FloatBits(BITS_TENTH))?,
        );
        let specular_glossiness_texture = match get_field(ms, "specularGlossinessTexture") {
            None => None,
            Some(j) => match j {
                Json::Null => None,
                _ => Some(Info::from_json(j)?),
            },
        };
        Ok(
            KHR_Materials_PbrSpecularGlossiness {
                diffuse_factor,
                diffuse_texture,
                specular_factor,
                glossiness_factor,
                specular_glossiness_texture,
            },
        )
    }
}

/// Extension slot of a material: the specular-glossiness payload is the one
/// extension recognized here.
#[derive(Default, Clone, Debug)]
pub struct MaterialExtensions {
    pub khr_materials_pbr_specular_glossiness: Option<KHR_Materials_PbrSpecularGlossiness>,
}

pub open spec fn material_extensions_ok(v: Json) -> bool {
    &&& v is Obj
    &&& {
        let ms = v->Obj_0@;
        match lookup_field(ms, "KHR_materials_pbrSpecularGlossiness"@) {
            None => true,
            Some(Json::Null) => true,
            Some(w) => specular_glossiness_ok(w),
        }
    }
}

pub open spec fn material_extensions_decoded(v: Json, x: MaterialExtensions) -> bool {
    &&& material_extensions_ok(v)
    &&& {
        let ms = v->Obj_0@;
        match lookup_field(ms, "KHR_materials_pbrSpecularGlossiness"@) {
            None => x.khr_materials_pbr_specular_glossiness is None,
            Some(Json::Null) => x.khr_materials_pbr_specular_glossiness is None,
            Some(w) => x.khr_materials_pbr_specular_glossiness matches Some(p)
                && specular_glossiness_decoded(w, p),
        }
    }
}

impl MaterialExtensions {
    pub fn from_json(v: &Json) -> (r: Result<MaterialExtensions, SchemaError>)
        ensures
            r is Ok <==> material_extensions_ok(*v),
            r matches Ok(x) ==> material_extensions_decoded(*v, x),
    {
        let ms = match v {
            Json::Obj(ms) => ms,
            _ => {
                return Err(bad_value("a material extension slot must be an object"));
            },
        };
        let khr_materials_pbr_specular_glossiness = match get_field(
            ms,
            "KHR_materials_pbrSpecularGlossiness",
        ) {
            None => None,
            Some(j) => match j {
                Json::Null => None,
                _ => Some(KHR_Materials_PbrSpecularGlossiness::from_json(j)?),
            },
        };
        Ok(MaterialExtensions { khr_materials_pbr_specular_glossiness })
    }
}

/// The default emissive factor as a sequence: black.
pub open spec fn default_emissive() -> Seq<FloatBits> {
    seq![FloatBits(0), FloatBits(0), FloatBits(0)]
}

/// A material: alpha handling, the metallic-roughness block, texture
/// references and factors.
#[derive(Clone, Debug)]
pub struct Material {
    pub alpha_cutoff: AlphaCutoff,
    pub alpha_mode: AlphaMode,
    pub double_sided: bool,
    pub name: Option<String>,
    pub pbr_metallic_roughness: PbrMetallicRoughness,
    pub normal_texture: Option<NormalTexture>,
    pub occlusion_texture: Option<OcclusionTexture>,
    pub emissive_texture: Option<Info>,
    pub emissive_factor: EmissiveFactor,
    pub extensions: Option<MaterialExtensions>,
}

pub open spec fn material_ok(v: Json) -> bool {
    &&& v is Obj
    &&& {
        let ms = v->Obj_0@;
        &&& spec_field_number_or(ms, "alphaCutoff"@, FloatBits(BITS_HALF)) is Some
        &&& spec_field_alpha_mode(ms) is Some
        &&& spec_field_bool_or(ms, "doubleSided"@, false) is Some
        &&& spec_field_opt_text(ms, "name"@) is Some
        &&& match lookup_field(ms, "pbrMetallicRoughness"@) {
            None => true,
            Some(w) => pbr_ok(w),
        }
        &&& match lookup_field(ms, "normalTexture"@) {
            None => true,
            Some(Json::Null) => true,
            Some(w) => normal_texture_ok(w),
        }
        &&& match lookup_field(ms, "occlusionTexture"@) {
            None => true,
            Some(Json::Null) => true,
            Some(w) => occlusion_texture_ok(w),
        }
        &&& match lookup_field(ms, "emissiveTexture"@) {
            None => true,
            Some(Json::Null) => true,
            Some(w) => info_ok(w),
        }
        &&& spec_field_numbers_exact_or(ms, "emissiveFactor"@, 3, default_emissive()) is Some
        &&& match lookup_field(ms, "extensions"@) {
            None => true,
            Some(Json::Null) => true,
            Some(w) => material_extensions_ok(w),
        }
    }
}

pub open spec fn material_decoded(v: Json, x: Material) -> bool {
    &&& material_ok(v)
    &&& {
        let ms = v->Obj_0@;
        &&& Some(x.alpha_cutoff.0) == spec_field_number_or(ms, "alphaCutoff"@, FloatBits(BITS_HALF))
        &&& Some(x.alpha_mode) == spec_field_alpha_mode(ms)
        &&& Some(x.double_sided) == spec_field_bool_or(ms, "doubleSided"@, false)
        &&& opt_text_is(spec_field_opt_text(ms, "name"@)->Some_0, x.name)
        &&& match lookup_field(ms, "pbrMetallicRoughness"@) {
            None => pbr_is_default(x.pbr_metallic_roughness),
            Some(w) => pbr_decoded(w, x.pbr_metallic_roughness),
        }
        &&& match lookup_field(ms, "normalTexture"@) {
            None => x.normal_texture is None,
            Some(Json::Null) => x.normal_texture is None,
            Some(w) => x.normal_texture matches Some(t) && normal_texture_decoded(w, t),
        }
        &&& match lookup_field(ms, "occlusionTexture"@) {
            None => x.occlusion_texture is None,
            Some(Json::Null) => x.occlusion_texture is None,
            Some(w) => x.occlusion_texture matches Some(t) && occlusion_texture_decoded(w, t),
        }
        &&& match lookup_field(ms, "emissiveTexture"@) {
            None => x.emissive_texture is None,
            Some(Json::Null) => x.emissive_texture is None,
            Some(w) => x.emissive_texture matches Some(t) && info_decoded(w, t),
        }
        &&& Some(x.emissive_factor.0@) == spec_field_numbers_exact_or(
            ms,
            "emissiveFactor"@,
            3,
            default_emissive(),
        )
        &&& match lookup_field(ms, "extensions"@) {
            None => x.extensions is None,
            Some(Json::Null) => x.extensions is None,
            Some(w) => x.extensions matches Some(e) && material_extensions_decoded(w, e),
        }
    }
}

impl Material {
    pub fn from_json(v: &Json) -> (r: Result<Material, SchemaError>)
        ensures
            r is Ok <==> material_ok(*v),
            r matches Ok(x) ==> material_decoded(*v, x),
    {
        let ms = match v {
            Json::Obj(ms) => ms,
            _ => {
                return Err(bad_value("a material must be an object"));
            },
        };
        let alpha_cutoff = AlphaCutoff(field_number_or(ms, "alphaCutoff", FloatBits(BITS_HALF))?);
        let alpha_mode = field_alpha_mode(ms)?;
        let double_sided = field_bool_or(ms, "doubleSided", false)?;
        let name = field_opt_text(ms, "name")?;
        let pbr_metallic_roughness = match get_field(ms, "pbrMetallicRoughness") {
            None => PbrMetallicRoughness::default(),
            Some(w) => PbrMetallicRoughness::from_json(w)?,
        };
        let normal_texture = match get_field(ms, "normalTexture") {
            None => None,
            Some(j) => match j {
                Json::Null => None,
                _ => Some(NormalTexture::from_json(j)?),
            },
        };
        let occlusion_texture = match get_field(ms, "occlusionTexture") {
            None => None,
            Some(j) => match j {
                Json::Null => None,
                _ => Some(OcclusionTexture::from_json(j)?),
            },
        };
        let emissive_texture = match get_field(ms, "emissiveTexture") {
            None => None,
            Some(j) => match j {
                Json::Null => None,
                _ => Some(Info::from_json(j)?),
            },
        };
        let emissive_factor = EmissiveFactor(
            field_numbers_exact_or::<3>(
                ms,
                "emissiveFactor",
                [FloatBits(0), FloatBits(0), FloatBits(0)],
            )?,
        );
        let extensions = match get_field(ms, "extensions") {
            None => None,
            Some(j) => match j {
                Json::Null => None,
                _ => Some(MaterialExtensions::from_json(j)?),
            },
        };
        Ok(
            Material {
                alpha_cutoff,
                alpha_mode,
                double_sided,
                name,
                pbr_metallic_roughness,
                normal_texture,
                occlusion_texture,
                emissive_texture,
                emissive_factor,
                extensions,
            },
        )
    }
}

impl Default for Material {
    /// The default material: opaque, single-sided, all factors at their
    /// documented defaults.
    fn default() -> (r: Material)
        ensures
            r.alpha_cutoff == AlphaCutoff(FloatBits(BITS_HALF)),
            r.alpha_mode == AlphaMode::Opaque,
            !r.double_sided,
            r.name is None,
            pbr_is_default(r.pbr_metallic_roughness),
            r.normal_texture is None,
            r.occlusion_texture is None,
            r.emissive_texture is None,
            r.emissive_factor.0@ == default_emissive(),
            r.extensions is None,
    {
        broadcast use vstd::array::group_array_axioms;

        let r = Material {
            alpha_cutoff: AlphaCutoff(FloatBits(BITS_HALF)),
            alpha_mode: AlphaMode::Opaque,
            double_sided: false,
            name: None,
            pbr_metallic_roughness: PbrMetallicRoughness::default(),
            normal_texture: None,
            occlusion_texture: None,
            emissive_texture: None,
            emissive_factor: EmissiveFactor([FloatBits(0), FloatBits(0), FloatBits(0)]),
            extensions: None,
        };
        proof {
            assert(r.emissive_factor.0@ =~= default_emissive());
        }
        r
    }
}

/// Reserved extension slot of a metallic-roughness block.
#[derive(Default, Clone, Copy, Debug)]
pub struct PbrMetallicRoughnessExtensions {}

/// Reserved extension slot of a normal-texture reference.
#[derive(Default, Clone, Copy, Debug)]
pub struct NormalTextureExtensions {}

/// Reserved extension slot of an occlusion-texture reference.
#[derive(Default, Clone, Copy, Debug)]
pub struct OcclusionTextureExtensions {}

} // verus!
