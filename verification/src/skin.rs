//! Skins: joint hierarchies with optional inverse bind matrices.

use vstd::prelude::*;

use crate::json::{
    bad_value, ext_flag, field_opt_text, field_opt_usize, field_usizes, opt_text_is, spec_ext_flag,
    spec_field_opt_text, spec_field_opt_usize, spec_field_usizes, Json, SchemaError,
};

verus! {

/// One skin: the nodes acting as joints, and where the inverse bind matrices
/// live.
#[derive(Clone, Debug)]
pub struct Skin {
    pub inverse_bind_matrices: Option<usize>,
    pub joints: Vec<usize>,
    pub name: Option<String>,
    pub skeleton: Option<usize>,
    pub extensions: Option<SkinExtensions>,
}

pub open spec fn skin_ok(v: Json) -> bool {
    &&& v is Obj
    &&& {
        let ms = v->Obj_0@;
        &&& spec_field_opt_usize(ms, "inverseBindMatrices"@) is Some
        &&& spec_field_usizes(ms, "joints"@) is Some
        &&& spec_field_opt_text(ms, "name"@) is Some
        &&& spec_field_opt_usize(ms, "skeleton"@) is Some
        &&& spec_ext_flag(ms, "extensions"@) is Some
    }
}

pub open spec fn skin_decoded(v: Json, x: Skin) -> bool {
    &&& skin_ok(v)
    &&& {
        let ms = v->Obj_0@;
        &&& Some(x.inverse_bind_matrices) == spec_field_opt_usize(ms, "inverseBindMatrices"@)
        &&& Some(x.joints@) == spec_field_usizes(ms, "joints"@)
        &&& opt_text_is(spec_field_opt_text(ms, "name"@)->Some_0, x.name)
        &&& Some(x.skeleton) == spec_field_opt_usize(ms, "skeleton"@)
        &&& x.extensions == (if spec_ext_flag(ms, "extensions"@)->Some_0 {
            Some(SkinExtensions {  })
        } else {
            None
        })
    }
}

impl Skin {
    pub fn from_json(v: &Json) -> (r: Result<Skin, SchemaError>)
        ensures
            r is Ok <==> skin_ok(*v),
            r matches Ok(x) ==> skin_decoded(*v, x),
    {
        let ms = match v {
            Json::Obj(ms) => ms,
            _ => {
                return Err(bad_value("a skin must be an object"));
            },
        };
        let inverse_bind_matrices = field_opt_usize(ms, "inverseBindMatrices")?;
        let joints = field_usizes(ms, "joints")?;
        let name = field_opt_text(ms, "name")?;
        let skeleton = field_opt_usize(ms, "skeleton")?;
        let extensions = if ext_flag(ms, "extensions")? {
            Some(SkinExtensions {  })
        } else {
            None
        };
        Ok(Skin { inverse_bind_matrices, joints, name, skeleton, extensions })
    }
}

/// Reserved extension slot of a skin.
#[derive(Clone, Copy, Debug, Default)]
pub struct SkinExtensions {}

} // verus!
