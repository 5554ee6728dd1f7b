//! Scenes: named lists of root node indices.

use vstd::prelude::*;

use crate::json::{
    bad_value, ext_flag, field_opt_text, field_usizes, opt_text_is, spec_ext_flag,
    spec_field_opt_text, spec_field_usizes, Json, SchemaError,
};

verus! {

/// One scene: the indices of its root nodes.
#[derive(Clone, Debug)]
pub struct Scene {
    pub name: Option<String>,
    pub nodes: Vec<usize>,
    pub extensions: Option<SceneExtensions>,
}

pub open spec fn scene_ok(v: Json) -> bool {
    &&& v is Obj
    &&& {
        let ms = v->Obj_0@;
        &&& spec_field_opt_text(ms, "name"@) is Some
        &&& spec_field_usizes(ms, "nodes"@) is Some
        &&& spec_ext_flag(ms, "extensions"@) is Some
    }
}

pub open spec fn scene_decoded(v: Json, x: Scene) -> bool {
    &&& scene_ok(v)
    &&& {
        let ms = v->Obj_0@;
        &&& opt_text_is(spec_field_opt_text(ms, "name"@)->Some_0, x.name)
        &&& Some(x.nodes@) == spec_field_usizes(ms, "nodes"@)
        &&& x.extensions == (if spec_ext_flag(ms, "extensions"@)->Some_0 {
            Some(SceneExtensions {  })
        } else {
            None
        })
    }
}

impl Scene {
    pub fn from_json(v: &Json) -> (r: Result<Scene, SchemaError>)
        ensures
            r is Ok <==> scene_ok(*v),
            r matches Ok(x) ==> scene_decoded(*v, x),
    {
        let ms = match v {
            Json::Obj(ms) => ms,
            _ => {
                return Err(bad_value("a scene must be an object"));
            },
        };
        let name = field_opt_text(ms, "name")?;
        let nodes = field_usizes(ms, "nodes")?;
        let extensions = if ext_flag(ms, "extensions")? {
            Some(SceneExtensions {  })
        } else {
            None
        };
        Ok(Scene { name, nodes, extensions })
    }
}

/// Reserved extension slot of a scene.
#[derive(Clone, Copy, Debug, Default)]
pub struct SceneExtensions {}

} // verus!
