//! Scene-graph nodes: indices into the other entity arrays plus a transform,
//! given either as a matrix or as translation/rotation/scale with identity
//! defaults.

use vstd::prelude::*;

use crate::json::{
    bad_value, field_numbers_exact_or, field_opt_numbers, field_opt_numbers_exact, field_opt_text,
    field_opt_usize, field_opt_usizes, field_usize, get_field, lookup_field, opt_numbers_is,
    opt_text_is, opt_usizes_is, spec_field_numbers_exact_or, spec_field_opt_numbers,
    spec_field_opt_numbers_exact, spec_field_opt_text, spec_field_opt_usize,
    spec_field_opt_usizes, spec_field_usize, FloatBits, Json, SchemaError, BITS_ONE,
};

verus! {

/// A rotation as a quaternion `(x, y, z, w)`.
#[derive(Clone, Copy, Debug)]
pub struct UnitQuaternion(pub [FloatBits; 4]);

/// The identity quaternion `(0, 0, 0, 1)` as a sequence.
pub open spec fn identity_rotation() -> Seq<FloatBits> {
    seq![FloatBits(0), FloatBits(0), FloatBits(0), FloatBits(BITS_ONE)]
}

impl Default for UnitQuaternion {
    /// The identity rotation.
    fn default() -> (r: UnitQuaternion)
        ensures
            r.0@ == identity_rotation(),
    {
        broadcast use vstd::array::group_array_axioms;

        let r = UnitQuaternion([FloatBits(0), FloatBits(0), FloatBits(0), FloatBits(BITS_ONE)]);
        proof {
            assert(r.0@ =~= identity_rotation());
        }
        r
    }
}

/// The identity translation `(0, 0, 0)` as a sequence.
pub open spec fn identity_translation() -> Seq<FloatBits> {
    seq![FloatBits(0), FloatBits(0), FloatBits(0)]
}

/// The identity scale `(1, 1, 1)` as a sequence.
pub open spec fn identity_scale() -> Seq<FloatBits> {
    seq![FloatBits(BITS_ONE), FloatBits(BITS_ONE), FloatBits(BITS_ONE)]
}

/// What kind of punctual light an extension payload describes.
#[derive(Debug, Clone)]
#[allow(non_camel_case_types)]
pub enum KHR_lights_punctual_kind {
    Directional,
    Point,
    Spot { inner_cone_angle: Option<FloatBits>, outer_cone_angle: Option<FloatBits> },
}

/// A punctual light definition from the lights extension.
#[derive(Debug, Clone)]
#[allow(non_camel_case_types)]
pub struct KHR_lights_punctual_light {
    pub name: Option<String>,
    pub color: Option<[FloatBits; 3]>,
    pub intensity: Option<FloatBits>,
    pub range: Option<FloatBits>,
    pub kind: KHR_lights_punctual_kind,
}

/// A node's reference into the punctual-lights extension.
#[derive(Debug, Copy, Clone)]
#[allow(non_camel_case_types)]
pub struct KHR_lights_punctual {
    pub light: usize,
}

pub open spec fn lights_punctual_ok(v: Json) -> bool {
    &&& v is Obj
    &&& spec_field_usize(v->Obj_0@, "light"@) is Some
}

pub open spec fn lights_punctual_decoded(v: Json, x: KHR_lights_punctual) -> bool {
    &&& lights_punctual_ok(v)
    &&& Some(x.light) == spec_field_usize(v->Obj_0@, "light"@)
}

impl KHR_lights_punctual {
    pub fn from_json(v: &Json) -> (r: Result<KHR_lights_punctual, SchemaError>)
        ensures
            r is Ok <==> lights_punctual_ok(*v),
            r matches Ok(x) ==> lights_punctual_decoded(*v, x),
    {
        let ms = match v {
            Json::Obj(ms) => ms,
            _ => {
                return Err(bad_value("a punctual-light reference must be an object"));
            },
        };
        let light = field_usize(ms, "light")?;
        Ok(KHR_lights_punctual { light })
    }
}

/// Extension slot of a node: the punctual-light reference is the one
/// extension recognized here.
#[derive(Default, Debug, Copy, Clone)]
pub struct NodeExtensions {
    pub khr_lights_punctual: Option<KHR_lights_punctual>,
}

pub open spec fn node_extensions_ok(v: Json) -> bool {
    &&& v is Obj
    &&& {
        let ms = v->Obj_0@;
        match lookup_field(ms, "khr_lights_punctual"@) {
            None => true,
            Some(Json::Null) => true,
            Some(w) => lights_punctual_ok(w),
        }
    }
}

pub open spec fn node_extensions_decoded(v: Json, x: NodeExtensions) -> bool {
    &&& node_extensions_ok(v)
    &&& {
        let ms = v->Obj_0@;
        match lookup_field(ms, "khr_lights_punctual"@) {
            None => x.khr_lights_punctual is None,
            Some(Json::Null) => x.khr_lights_punctual is None,
            Some(w) => x.khr_lights_punctual matches Some(l) && lights_punctual_decoded(w, l),
        }
    }
}

impl NodeExtensions {
    pub fn from_json(v: &Json) -> (r: Result<NodeExtensions, SchemaError>)
        ensures
            r is Ok <==> node_extensions_ok(*v),
            r matches Ok(x) ==> node_extensions_decoded(*v, x),
    {
        let ms = match v {
            Json::Obj(ms) => ms,
            _ => {
                return Err(bad_value("a node extension slot must be an object"));
            },
        };
        let khr_lights_punctual = match get_field(ms, "khr_lights_punctual") {
            None => None,
            Some(j) => match j {
                Json::Null => None,
                _ => Some(KHR_lights_punctual::from_json(j)?),
            },
        };
        Ok(NodeExtensions { khr_lights_punctual })
    }
}

/// One scene-graph node.
#[derive(Clone, Debug)]
pub struct Node {
    pub camera: Option<usize>,
    pub children: Option<Vec<usize>>,
    pub matrix: Option<[FloatBits; 16]>,
    pub mesh: Option<usize>,
    pub name: Option<String>,
    pub scale: [FloatBits; 3],
    pub translation: [FloatBits; 3],
    pub rotation: UnitQuaternion,
    pub skin: Option<usize>,
    pub weights: Option<Vec<FloatBits>>,
    pub extensions: Option<NodeExtensions>,
}

pub open spec fn node_ok(v: Json) -> bool {
    &&& v is Obj
    &&& {
        let ms = v->Obj_0@;
        &&& spec_field_opt_usize(ms, "camera"@) is Some
        &&& spec_field_opt_usizes(ms, "children"@) is Some
        &&& spec_field_opt_numbers_exact(ms, "matrix"@, 16) is Some
        &&& spec_field_opt_usize(ms, "mesh"@) is Some
        &&& spec_field_opt_text(ms, "name"@) is Some
        &&& spec_field_numbers_exact_or(ms, "scale"@, 3, identity_scale()) is Some
        &&& spec_field_numbers_exact_or(ms, "translation"@, 3, identity_translation()) is Some
        &&& spec_field_numbers_exact_or(ms, "rotation"@, 4, identity_rotation()) is Some
        &&& spec_field_opt_usize(ms, "skin"@) is Some
        &&& spec_field_opt_numbers(ms, "weights"@) is Some
        &&& match lookup_field(ms, "extensions"@) {
            None => true,
            Some(Json::Null) => true,
            Some(w) => node_extensions_ok(w),
        }
    }
}

pub open spec fn node_decoded(v: Json, x: Node) -> bool {
    &&& node_ok(v)
    &&& {
        let ms = v->Obj_0@;
        &&& Some(x.camera) == spec_field_opt_usize(ms, "camera"@)
        &&& opt_usizes_is(spec_field_opt_usizes(ms, "children"@)->Some_0, x.children)
        &&& match spec_field_opt_numbers_exact(ms, "matrix"@, 16)->Some_0 {
            None => x.matrix is None,
            Some(s) => x.matrix matches Some(a) && a@ == s,
        }
        &&& Some(x.mesh) == spec_field_opt_usize(ms, "mesh"@)
        &&& opt_text_is(spec_field_opt_text(ms, "name"@)->Some_0, x.name)
        &&& Some(x.scale@) == spec_field_numbers_exact_or(ms, "scale"@, 3, identity_scale())
        &&& Some(x.translation@) == spec_field_numbers_exact_or(
            ms,
            "translation"@,
            3,
            identity_translation(),
        )
        &&& Some(x.rotation.0@) == spec_field_numbers_exact_or(
            ms,
            "rotation"@,
            4,
            identity_rotation(),
        )
        &&& Some(x.skin) == spec_field_opt_usize(ms, "skin"@)
        &&& opt_numbers_is(spec_field_opt_numbers(ms, "weights"@)->Some_0, x.weights)
        &&& match lookup_field(ms, "extensions"@) {
            None => x.extensions is None,
            Some(Json::Null) => x.extensions is None,
            Some(w) => x.extensions matches Some(e) && node_extensions_decoded(w, e),
        }
    }
}

impl Node {
    pub fn from_json(v: &Json) -> (r: Result<Node, SchemaError>)
        ensures
            r is Ok <==> node_ok(*v),
            r matches Ok(x) ==> node_decoded(*v, x),
    {
        broadcast use vstd::array::group_array_axioms;

        let ms = match v {
            Json::Obj(ms) => ms,
            _ => {
                return Err(bad_value("a node must be an object"));
            },
        };
        let camera = field_opt_usize(ms, "camera")?;
        let children = field_opt_usizes(ms, "children")?;
        let matrix = field_opt_numbers_exact::<16>(ms, "matrix")?;
        let mesh = field_opt_usize(ms, "mesh")?;
        let name = field_opt_text(ms, "name")?;
        let scale = field_numbers_exact_or::<3>(
            ms,
            "scale",
            [FloatBits(BITS_ONE), FloatBits(BITS_ONE), FloatBits(BITS_ONE)],
        )?;
        let translation = field_numbers_exact_or::<3>(
            ms,
            "translation",
            [FloatBits(0), FloatBits(0), FloatBits(0)],
        )?;
        let rotation = UnitQuaternion(
            field_numbers_exact_or::<4>(
                ms,
                "rotation",
                [FloatBits(0), FloatBits(0), FloatBits(0), FloatBits(BITS_ONE)],
            )?,
        );
        let skin = field_opt_usize(ms, "skin")?;
        let weights = field_opt_numbers(ms, "weights")?;
        let extensions = match get_field(ms, "extensions") {
            None => None,
            Some(j) => match j {
                Json::Null => None,
                _ => Some(NodeExtensions::from_json(j)?),
            },
        };
        Ok(
            Node {
                camera,
                children,
                matrix,
                mesh,
                name,
                scale,
                translation,
                rotation,
                skin,
                weights,
                extensions,
            },
        )
    }
}

} // verus!
