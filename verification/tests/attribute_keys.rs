//! The attribute-key grammar: indexed semantics split at the rightmost
//! underscore, fixed whole-key semantics, and the verbatim unknown carrier.

use gltf_json::mesh::Attribute;

#[test]
fn indexed_semantics_resolve() {
    assert_eq!(Attribute::from_key("COLOR_3").unwrap(), Attribute::Colors(3));
    assert_eq!(
        Attribute::from_key("TEXCOORD_12").unwrap(),
        Attribute::TexCoords(12)
    );
    assert_eq!(Attribute::from_key("JOINTS_0").unwrap(), Attribute::Joints(0));
    assert_eq!(
        Attribute::from_key("WEIGHTS_1").unwrap(),
        Attribute::Weights(1)
    );
}

#[test]
fn whole_key_semantics_resolve() {
    assert_eq!(Attribute::from_key("POSITION").unwrap(), Attribute::Positions);
    assert_eq!(Attribute::from_key("NORMAL").unwrap(), Attribute::Normals);
    assert_eq!(Attribute::from_key("TANGENT").unwrap(), Attribute::Tangents);
}

#[test]
fn non_numeric_suffix_fails() {
    assert!(Attribute::from_key("COLOR_x").is_err());
    assert!(Attribute::from_key("TEXCOORD_").is_err());
    assert!(Attribute::from_key("JOINTS_1a").is_err());
    assert!(Attribute::from_key("WEIGHTS_-1").is_err());
}

#[test]
fn unknown_keys_are_preserved() {
    assert_eq!(
        Attribute::from_key("COLOR").unwrap(),
        Attribute::Unknown("COLOR".to_string())
    );
    assert_eq!(
        Attribute::from_key("_3").unwrap(),
        Attribute::Unknown("_3".to_string())
    );
    assert_eq!(
        Attribute::from_key("_CUSTOM_STREAM").unwrap(),
        Attribute::Unknown("_CUSTOM_STREAM".to_string())
    );
    assert_eq!(
        Attribute::from_key("position").unwrap(),
        Attribute::Unknown("position".to_string())
    );
    assert_eq!(
        Attribute::from_key("").unwrap(),
        Attribute::Unknown(String::new())
    );
}

#[test]
fn split_is_at_the_rightmost_underscore() {
    // "COLOR_EXTRA_2" splits into "COLOR_EXTRA" and "2": not a known indexed
    // prefix, so it is preserved verbatim
    assert_eq!(
        Attribute::from_key("COLOR_EXTRA_2").unwrap(),
        Attribute::Unknown("COLOR_EXTRA_2".to_string())
    );
}

#[test]
fn index_suffix_follows_the_standard_integer_grammar() {
    // leading zeros and a leading plus sign are accepted
    assert_eq!(
        Attribute::from_key("TEXCOORD_007").unwrap(),
        Attribute::TexCoords(7)
    );
    assert_eq!(Attribute::from_key("COLOR_+3").unwrap(), Attribute::Colors(3));
    // an index too large for the index type is rejected
    assert!(Attribute::from_key("COLOR_99999999999999999999").is_err());
    // the largest representable index is accepted
    let key = format!("COLOR_{}", usize::MAX);
    assert_eq!(
        Attribute::from_key(&key).unwrap(),
        Attribute::Colors(usize::MAX)
    );
}
