//! The mandatory asset record: provenance and format version of a document.

use vstd::prelude::*;
use vstd::string::StringExecFns;

use crate::json::{
    bad_value, ext_flag, field_opt_text, field_text_or, opt_text_is, spec_ext_flag,
    spec_field_opt_text, spec_field_text_or, Json, SchemaError,
};

verus! {

/// Provenance and format version of a document.
#[derive(Clone, Debug)]
pub struct Asset {
    pub copyright: Option<String>,
    pub generator: Option<String>,
    pub min_version: Option<String>,
    pub version: String,
    pub extensions: Option<AssetExtensions>,
}

pub open spec fn asset_ok(v: Json) -> bool {
    &&& v is Obj
    &&& {
        let ms = v->Obj_0@;
        &&& spec_field_opt_text(ms, "copyright"@) is Some
        &&& spec_field_opt_text(ms, "generator"@) is Some
        &&& spec_field_opt_text(ms, "minVersion"@) is Some
        &&& spec_field_text_or(ms, "version"@, "2.0"@) is Some
        &&& spec_ext_flag(ms, "extensions"@) is Some
    }
}

pub open spec fn asset_decoded(v: Json, x: Asset) -> bool {
    &&& asset_ok(v)
    &&& {
        let ms = v->Obj_0@;
        &&& opt_text_is(spec_field_opt_text(ms, "copyright"@)->Some_0, x.copyright)
        &&& opt_text_is(spec_field_opt_text(ms, "generator"@)->Some_0, x.generator)
        &&& opt_text_is(spec_field_opt_text(ms, "minVersion"@)->Some_0, x.min_version)
        &&& Some(x.version@) == spec_field_text_or(ms, "version"@, "2.0"@)
        &&& x.extensions == (if spec_ext_flag(ms, "extensions"@)->Some_0 {
            Some(AssetExtensions {  })
        } else {
            None
        })
    }
}

impl Asset {
    pub fn from_json(v: &Json) -> (r: Result<Asset, SchemaError>)
        ensures
            r is Ok <==> asset_ok(*v),
            r matches Ok(x) ==> asset_decoded(*v, x),
    {
        let ms = match v {
            Json::Obj(ms) => ms,
            _ => {
                return Err(bad_value("the asset record must be an object"));
            },
        };
        let copyright = field_opt_text(ms, "copyright")?;
        let generator = field_opt_text(ms, "generator")?;
        let min_version = field_opt_text(ms, "minVersion")?;
        let version = field_text_or(ms, "version", "2.0")?;
        let extensions = if ext_flag(ms, "extensions")? {
            Some(AssetExtensions {  })
        } else {
            None
        };
        Ok(Asset { copyright, generator, min_version, version, extensions })
    }
}

impl Default for Asset {
    /// The default asset: no provenance, format version "2.0".
    fn default() -> (r: Asset)
        ensures
            r.copyright is None,
            r.generator is None,
            r.min_version is None,
            r.version@ == "2.0"@,
            r.extensions is None,
    {
        Asset {
            copyright: None,
            generator: None,
            min_version: None,
            version: String::from_str("2.0"),
            extensions: None,
        }
    }
}

/// Reserved extension slot of the asset record.
#[derive(Clone, Debug, Default)]
pub struct AssetExtensions {}

} // verus!
