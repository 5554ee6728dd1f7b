//! Images: picture sources referenced by textures, with an open-ended MIME
//! type tag.

use vstd::prelude::*;

use crate::json::{
    bad_field, bad_value, ext_flag, field_opt_text, field_opt_usize, get_field,
    opt_text_is, spec_ext_flag, spec_field_opt_text, spec_field_opt_usize, str_eq, Json, SchemaError,
};

verus! {

/// An image's MIME type: the two core subtypes, a recognized extension
/// subtype, or the verbatim unknown tag. Open-ended: resolution never fails.
#[derive(Clone, Debug, PartialEq, Eq, Hash)]
pub enum ImageMimeType {
    Jpeg,
    Png,
    Extension(ImageMimeTypeExtensions),
    Unknown(String),
}

/// MIME subtypes recognized from the extension tag table.
#[derive(Clone, Debug, PartialEq, Eq, Hash)]
pub enum ImageMimeTypeExtensions {
    Ktx2,
}

/// Open-tag resolution of an image MIME type: the core table first, then the
/// extension table, and finally the verbatim unknown carrier.
pub open spec fn image_mime_type_decoded(s: Seq<char>, m: ImageMimeType) -> bool {
    if s == "image/jpeg"@ {
        m == ImageMimeType::Jpeg
    } else if s == "image/png"@ {
        m == ImageMimeType::Png
    } else if s == "image/ktx2"@ {
        m == ImageMimeType::Extension(ImageMimeTypeExtensions::Ktx2)
    } else {
        m matches ImageMimeType::Unknown(u) && u@ == s
    }
}

impl ImageMimeType {
    /// Resolves an image MIME type tag; an unrecognized tag is preserved
    /// verbatim, never rejected.
    pub fn from_name(name: &str) -> (r: ImageMimeType)
        ensures
            image_mime_type_decoded(name@, r),
    {
        if str_eq(name, "image/jpeg") {
            ImageMimeType::Jpeg
        } else if str_eq(name, "image/png") {
            ImageMimeType::Png
        } else if str_eq(name, "image/ktx2") {
            ImageMimeType::Extension(ImageMimeTypeExtensions::Ktx2)
        } else {
            ImageMimeType::Unknown(name.to_owned())
        }
    }
}

/// An image: a URI or buffer view, with an optional MIME type tag.
#[derive(Clone, Debug)]
pub struct Image {
    pub buffer_view: Option<usize>,
    pub mime_type: Option<ImageMimeType>,
    pub name: Option<String>,
    pub uri: Option<String>,
    pub extensions: Option<ImageExtensions>,
}

pub open spec fn image_ok(v: Json) -> bool {
    &&& v is Obj
    &&& {
        let ms = v->Obj_0@;
        &&& spec_field_opt_usize(ms, "bufferView"@) is Some
        &&& spec_field_opt_text(ms, "mimeType"@) is Some
        &&& spec_field_opt_text(ms, "name"@) is Some
        &&& spec_field_opt_text(ms, "uri"@) is Some
        &&& spec_ext_flag(ms, "extensions"@) is Some
    }
}

pub open spec fn image_decoded(v: Json, x: Image) -> bool {
    &&& image_ok(v)
    &&& {
        let ms = v->Obj_0@;
        &&& Some(x.buffer_view) == spec_field_opt_usize(ms, "bufferView"@)
        &&& match spec_field_opt_text(ms, "mimeType"@)->Some_0 {
            None => x.mime_type is None,
            Some(t) => x.mime_type matches Some(m) && image_mime_type_decoded(t, m),
        }
        &&& opt_text_is(spec_field_opt_text(ms, "name"@)->Some_0, x.name)
        &&& opt_text_is(spec_field_opt_text(ms, "uri"@)->Some_0, x.uri)
        &&& x.extensions == (if spec_ext_flag(ms, "extensions"@)->Some_0 {
            Some(ImageExtensions {  })
        } else {
            None
        })
    }
}

impl Image {
    pub fn from_json(v: &Json) -> (r: Result<Image, SchemaError>)
        ensures
            r is Ok <==> image_ok(*v),
            r matches Ok(x) ==> image_decoded(*v, x),
    {
        let ms = match v {
            Json::Obj(ms) => ms,
            _ => {
                return Err(bad_value("an image must be an object"));
            },
        };
        let buffer_view = field_opt_usize(ms, "bufferView")?;
        let mime_type = match get_field(ms, "mimeType") {
            None => None,
            Some(j) => match j {
                Json::Null => None,
                Json::Text(s) => Some(ImageMimeType::from_name(s.as_str())),
                _ => {
                    return Err(bad_field("mimeType"));
                },
            },
        };
        let name = field_opt_text(ms, "name")?;
        let uri = field_opt_text(ms, "uri")?;
        let extensions = if ext_flag(ms, "extensions")? {
            Some(ImageExtensions {  })
        } else {
            None
        };
        Ok(Image { buffer_view, mime_type, name, uri, extensions })
    }
}

/// Reserved extension slot of an image.
#[derive(Default, Clone, Debug)]
pub struct ImageExtensions {}

} // verus!
