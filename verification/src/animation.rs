//! Animations: channels binding sampled curves to node properties.

use vstd::prelude::*;

use crate::json::{
    bad_field, bad_value, ext_flag, field_opt_text, field_usize, get_field, lookup_field,
    missing_field, opt_text_is, spec_ext_flag, spec_field_opt_text, spec_field_usize, str_eq, Json,
    JsonMember, SchemaError,
};

verus! {

/// How sampled keyframes are interpolated: one of the three string tags the
/// format allows.
#[derive(Clone, Copy, Debug, Eq, PartialEq, Hash)]
pub enum Interpolation {
    Linear,
    Step,
    CubicSpline,
}

/// The interpolation a string tag names, if any: the closed enumeration
/// `{LINEAR, STEP, CUBICSPLINE}`.
pub open spec fn interpolation_of(s: Seq<char>) -> Option<Interpolation> {
    if s == "LINEAR"@ {
        Some(Interpolation::Linear)
    } else if s == "STEP"@ {
        Some(Interpolation::Step)
    } else if s == "CUBICSPLINE"@ {
        Some(Interpolation::CubicSpline)
    } else {
        None
    }
}

impl Interpolation {
    /// Resolves the closed `interpolation` enumeration: exactly the three
    /// legal tags succeed.
    pub fn from_name(name: &str) -> (r: Result<Interpolation, SchemaError>)
        ensures
            r matches Ok(t) ==> interpolation_of(name@) == Some(t),
            r is Err <==> interpolation_of(name@) is None,
    {
        if str_eq(name, "LINEAR") {
            Ok(Interpolation::Linear)
        } else if str_eq(name, "STEP") {
            Ok(Interpolation::Step)
        } else if str_eq(name, "CUBICSPLINE") {
            Ok(Interpolation::CubicSpline)
        } else {
            Err(bad_value("a valid interpolation tag"))
        }
    }
}

impl Default for Interpolation {
    /// The format's default interpolation.
    fn default() -> (r: Interpolation)
        ensures
            r == Interpolation::Linear,
    {
        Interpolation::Linear
    }
}

/// Which node property an animation channel drives: one of the four string
/// tags the format allows.
#[derive(Clone, Copy, Debug, Eq, PartialEq, Hash)]
pub enum Property {
    Translation,
    Rotation,
    Scale,
    MorphTargetWeights,
}

/// The target property a string tag names, if any: the closed enumeration
/// `{translation, rotation, scale, weights}`.
pub open spec fn property_of(s: Seq<char>) -> Option<Property> {
    if s == "translation"@ {
        Some(Property::Translation)
    } else if s == "rotation"@ {
        Some(Property::Rotation)
    } else if s == "scale"@ {
        Some(Property::Scale)
    } else if s == "weights"@ {
        Some(Property::MorphTargetWeights)
    } else {
        None
    }
}

impl Property {
    /// Resolves the closed target `path` enumeration: exactly the four legal
    /// tags succeed.
    pub fn from_name(name: &str) -> (r: Result<Property, SchemaError>)
        ensures
            r matches Ok(t) ==> property_of(name@) == Some(t),
            r is Err <==> property_of(name@) is None,
    {
        if str_eq(name, "translation") {
            Ok(Property::Translation)
        } else if str_eq(name, "rotation") {
            Ok(Property::Rotation)
        } else if str_eq(name, "scale") {
            Ok(Property::Scale)
        } else if str_eq(name, "weights") {
            Ok(Property::MorphTargetWeights)
        } else {
            Err(bad_value("a valid target path tag"))
        }
    }
}

/// A required target `path` field.
pub open spec fn spec_field_property(ms: Seq<JsonMember>) -> Option<Property> {
    match lookup_field(ms, "path"@) {
        Some(Json::Text(s)) => property_of(s@),
        _ => None,
    }
}

fn field_property(ms: &Vec<JsonMember>) -> (r: Result<Property, SchemaError>)
    ensures
        r matches Ok(t) ==> spec_field_property(ms@) == Some(t),
        r is Err <==> spec_field_property(ms@) is None,
{
    match get_field(ms, "path") {
        Some(j) => match j {
            Json::Text(s) => Property::from_name(s.as_str()),
            _ => Err(bad_field("path")),
        },
        None => Err(missing_field("path")),
    }
}

/// A defaulted `interpolation` field: absent reads as `Linear`.
pub open spec fn spec_field_interpolation(ms: Seq<JsonMember>) -> Option<Interpolation> {
    match lookup_field(ms, "interpolation"@) {
        None => Some(Interpolation::Linear),
        Some(Json::Text(s)) => interpolation_of(s@),
        Some(_) => None,
    }
}

fn field_interpolation(ms: &Vec<JsonMember>) -> (r: Result<Interpolation, SchemaError>)
    ensures
        r matches Ok(t) ==> spec_field_interpolation(ms@) == Some(t),
        r is Err <==> spec_field_interpolation(ms@) is None,
{
    match get_field(ms, "interpolation") {
        None => Ok(Interpolation::Linear),
        Some(j) => match j {
            Json::Text(s) => Interpolation::from_name(s.as_str()),
            _ => Err(bad_field("interpolation")),
        },
    }
}

/// What an animation channel drives: a node and one of its properties.
#[derive(Clone, Debug)]
pub struct Target {
    pub extensions: Option<TargetExtension>,
    pub node: usize,
    pub path: Property,
}

pub open spec fn target_ok(v: Json) -> bool {
    &&& v is Obj
    &&& {
        let ms = v->Obj_0@;
        &&& spec_ext_flag(ms, "extensions"@) is Some
        &&& spec_field_usize(ms, "node"@) is Some
        &&& spec_field_property(ms) is Some
    }
}

pub open spec fn target_decoded(v: Json, x: Target) -> bool {
    &&& target_ok(v)
    &&& {
        let ms = v->Obj_0@;
        &&& x.extensions == (if spec_ext_flag(ms, "extensions"@)->Some_0 {
            Some(TargetExtension {  })
        } else {
            None
        })
        &&& Some(x.node) == spec_field_usize(ms, "node"@)
        &&& Some(x.path) == spec_field_property(ms)
    }
}

impl Target {
    pub fn from_json(v: &Json) -> (r: Result<Target, SchemaError>)
        ensures
            r is Ok <==> target_ok(*v),
            r matches Ok(x) ==> target_decoded(*v, x),
    {
        let ms = match v {
            Json::Obj(ms) => ms,
            _ => {
                return Err(bad_value("an animation target must be an object"));
            },
        };
        let extensions = if ext_flag(ms, "extensions")? {
            Some(TargetExtension {  })
        } else {
            None
        };
        let node = field_usize(ms, "node")?;
        let path = field_property(ms)?;
        Ok(Target { extensions, node, path })
    }
}

/// One animation channel: a sampler index and the target it drives.
#[derive(Clone, Debug)]
pub struct Channel {
    pub sampler: usize,
    pub target: Target,
    pub extensions: Option<ChannelExtension>,
}

pub open spec fn channel_ok(v: Json) -> bool {
    &&& v is Obj
    &&& {
        let ms = v->Obj_0@;
        &&& spec_field_usize(ms, "sampler"@) is Some
        &&& match lookup_field(ms, "target"@) {
            Some(w) => target_ok(w),
            None => false,
        }
        &&& spec_ext_flag(ms, "extensions"@) is Some
    }
}

pub open spec fn channel_decoded(v: Json, x: Channel) -> bool {
    &&& channel_ok(v)
    &&& {
        let ms = v->Obj_0@;
        &&& Some(x.sampler) == spec_field_usize(ms, "sampler"@)
        &&& target_decoded(lookup_field(ms, "target"@)->Some_0, x.target)
        &&& x.extensions == (if spec_ext_flag(ms, "extensions"@)->Some_0 {
            Some(ChannelExtension {  })
        } else {
            None
        })
    }
}

impl Channel {
    pub fn from_json(v: &Json) -> (r: Result<Channel, SchemaError>)
        ensures
            r is Ok <==> channel_ok(*v),
            r matches Ok(x) ==> channel_decoded(*v, x),
    {
        let ms = match v {
            Json::Obj(ms) => ms,
            _ => {
                return Err(bad_value("an animation channel must be an object"));
            },
        };
        let sampler = field_usize(ms, "sampler")?;
        let target = match get_field(ms, "target") {
            Some(w) => Target::from_json(w)?,
            None => {
                return Err(missing_field("target"));
            },
        };
        let extensions = if ext_flag(ms, "extensions")? {
            Some(ChannelExtension {  })
        } else {
            None
        };
        Ok(Channel { sampler, target, extensions })
    }
}

/// One animation sampler: input and output accessors plus the interpolation
/// between keyframes.
#[derive(Clone, Debug)]
pub struct Sampler {
    pub extensions: Option<SamplerExtension>,
    pub input: usize,
    pub interpolation: Interpolation,
    pub output: usize,
}

pub open spec fn sampler_ok(v: Json) -> bool {
    &&& v is Obj
    &&& {
        let ms = v->Obj_0@;
        &&& spec_ext_flag(ms, "extensions"@) is Some
        &&& spec_field_usize(ms, "input"@) is Some
        &&& spec_field_interpolation(ms) is Some
        &&& spec_field_usize(ms, "output"@) is Some
    }
}

pub open spec fn sampler_decoded(v: Json, x: Sampler) -> bool {
    &&& sampler_ok(v)
    &&& {
        let ms = v->Obj_0@;
        &&& x.extensions == (if spec_ext_flag(ms, "extensions"@)->Some_0 {
            Some(SamplerExtension {  })
        } else {
            None
        })
        &&& Some(x.input) == spec_field_usize(ms, "input"@)
        &&& Some(x.interpolation) == spec_field_interpolation(ms)
        &&& Some(x.output) == spec_field_usize(ms, "output"@)
    }
}

impl Sampler {
    pub fn from_json(v: &Json) -> (r: Result<Sampler, SchemaError>)
        ensures
            r is Ok <==> sampler_ok(*v),
            r matches Ok(x) ==> sampler_decoded(*v, x),
    {
        let ms = match v {
            Json::Obj(ms) => ms,
            _ => {
                return Err(bad_value("an animation sampler must be an object"));
            },
        };
        let extensions = if ext_flag(ms, "extensions")? {
            Some(SamplerExtension {  })
        } else {
            None
        };
        let input = field_usize(ms, "input")?;
        let interpolation = field_interpolation(ms)?;
        let output = field_usize(ms, "output")?;
        Ok(Sampler { extensions, input, interpolation, output })
    }
}

pub open spec fn channel_items_ok(items: Seq<Json>) -> bool {
    forall|i: int| 0 <= i < items.len() ==> channel_ok(#[trigger] items[i])
}

pub open spec fn channel_items_decoded(items: Seq<Json>, out: Seq<Channel>) -> bool {
    &&& out.len() == items.len()
    &&& forall|i: int| 0 <= i < items.len() ==> channel_decoded(#[trigger] items[i], out[i])
}

#[verifier::loop_isolation(false)]
fn channels_from_json(items: &Vec<Json>) -> (r: Result<Vec<Channel>, SchemaError>)
    ensures
        r is Ok <==> channel_items_ok(items@),
        r matches Ok(out) ==> channel_items_decoded(items@, out@),
{
    let n = items.len();
    let mut out: Vec<Channel> = Vec::new();
    let mut i: usize = 0;
    while i < n
        invariant
            i <= n,
            out@.len() == i,
            forall|k: int| 0 <= k < i ==> channel_decoded(#[trigger] items@[k], out@[k]),
        decreases n - i,
    {
        match Channel::from_json(&items[i]) {
            Ok(x) => {
                out.push(x);
            },
            Err(e) => {
                proof {
                    assert(!channel_ok(items@[i as int]));
                }
                return Err(e);
            },
        }
        i += 1;
    }
    Ok(out)
}

pub open spec fn sampler_items_ok(items: Seq<Json>) -> bool {
    forall|i: int| 0 <= i < items.len() ==> sampler_ok(#[trigger] items[i])
}

pub open spec fn sampler_items_decoded(items: Seq<Json>, out: Seq<Sampler>) -> bool {
    &&& out.len() == items.len()
    &&& forall|i: int| 0 <= i < items.len() ==> sampler_decoded(#[trigger] items[i], out[i])
}

#[verifier::loop_isolation(false)]
fn samplers_from_json(items: &Vec<Json>) -> (r: Result<Vec<Sampler>, SchemaError>)
    ensures
        r is Ok <==> sampler_items_ok(items@),
        r matches Ok(out) ==> sampler_items_decoded(items@, out@),
{
    let n = items.len();
    let mut out: Vec<Sampler> = Vec::new();
    let mut i: usize = 0;
    while i < n
        invariant
            i <= n,
            out@.len() == i,
            forall|k: int| 0 <= k < i ==> sampler_decoded(#[trigger] items@[k], out@[k]),
        decreases n - i,
    {
        match Sampler::from_json(&items[i]) {
            Ok(x) => {
                out.push(x);
            },
            Err(e) => {
                proof {
                    assert(!sampler_ok(items@[i as int]));
                }
                return Err(e);
            },
        }
        i += 1;
    }
    Ok(out)
}

/// One animation: its channels and the samplers they index into.
#[derive(Clone, Debug)]
pub struct Animation {
    pub extensions: Option<AnimationExtension>,
    pub channels: Vec<Channel>,
    pub name: Option<String>,
    pub samplers: Vec<Sampler>,
}

pub open spec fn animation_ok(v: Json) -> bool {
    &&& v is Obj
    &&& {
        let ms = v->Obj_0@;
        &&& spec_ext_flag(ms, "extensions"@) is Some
        &&& match lookup_field(ms, "channels"@) {
            Some(Json::Arr(items)) => channel_items_ok(items@),
            _ => false,
        }
        &&& spec_field_opt_text(ms, "name"@) is Some
        &&& match lookup_field(ms, "samplers"@) {
            Some(Json::Arr(items)) => sampler_items_ok(items@),
            _ => false,
        }
    }
}

pub open spec fn animation_decoded(v: Json, x: Animation) -> bool {
    &&& animation_ok(v)
    &&& {
        let ms = v->Obj_0@;
        &&& x.extensions == (if spec_ext_flag(ms, "extensions"@)->Some_0 {
            Some(AnimationExtension {  })
        } else {
            None
        })
        &&& match lookup_field(ms, "channels"@) {
            Some(Json::Arr(items)) => channel_items_decoded(items@, x.channels@),
            _ => false,
        }
        &&& opt_text_is(spec_field_opt_text(ms, "name"@)->Some_0, x.name)
        &&& match lookup_field(ms, "samplers"@) {
            Some(Json::Arr(items)) => sampler_items_decoded(items@, x.samplers@),
            _ => false,
        }
    }
}

impl Animation {
    pub fn from_json(v: &Json) -> (r: Result<Animation, SchemaError>)
        ensures
            r is Ok <==> animation_ok(*v),
            r matches Ok(x) ==> animation_decoded(*v, x),
    {
        let ms = match v {
            Json::Obj(ms) => ms,
            _ => {
                return Err(bad_value("an animation must be an object"));
            },
        };
        let extensions = if ext_flag(ms, "extensions")? {
            Some(AnimationExtension {  })
        } else {
            None
        };
        let channels = match get_field(ms, "channels") {
            Some(j) => match j {
                Json::Arr(items) => channels_from_json(items)?,
                _ => {
                    return Err(bad_field("channels"));
                },
            },
            None => {
                return Err(missing_field("channels"));
            },
        };
        let name = field_opt_text(ms, "name")?;
        let samplers = match get_field(ms, "samplers") {
            Some(j) => match j {
                Json::Arr(items) => samplers_from_json(items)?,
                _ => {
                    return Err(bad_field("samplers"));
                },
            },
            None => {
                return Err(missing_field("samplers"));
            },
        };
        Ok(Animation { extensions, channels, name, samplers })
    }
}

/// Reserved extension slot of an animation.
#[derive(Clone, Debug, Default)]
pub struct AnimationExtension {}

/// Reserved extension slot of an animation channel.
#[derive(Clone, Debug, Default)]
pub struct ChannelExtension {}

/// Reserved extension slot of an animation target.
#[derive(Clone, Debug, Default)]
pub struct TargetExtension {}

/// Reserved extension slot of an animation sampler.
#[derive(Clone, Debug, Default)]
pub struct SamplerExtension {}

} // verus!
