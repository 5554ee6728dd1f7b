//! Whole-document decoding: the assembler, the default-value table, null
//! handling, and fail-fast error behavior.

use gltf_json::asset::Asset;
use gltf_json::json::FloatBits;
use gltf_json::material::{
    AlphaCutoff, AlphaMode, EmissiveFactor, GlossinessStrengthFactor, Material,
    NormalScaleFactor, OcclusionStrengthFactor, PbrBaseColorFactor, PbrDiffuseFactor,
    PbrSpecularFactor,
};
use gltf_json::mesh::{Attribute, PrimitiveMode};
use gltf_json::node::UnitQuaternion;
use gltf_json::texture::{Sampler, WrappingMode};
use gltf_json::{Extension, Gltf, GltfError};

fn bits(x: f64) -> FloatBits {
    FloatBits(x.to_bits())
}

#[test]
fn minimal_document_decodes() {
    let g = Gltf::from_gltf_str(r#"{"asset":{"version":"2.0"}}"#).unwrap();
    assert_eq!(g.asset.version, "2.0");
    assert!(g.accessors.is_empty());
    assert!(g.animations.is_empty());
    assert!(g.buffers.is_empty());
    assert!(g.buffer_views.is_empty());
    assert!(g.cameras.is_empty());
    assert!(g.images.is_empty());
    assert!(g.materials.is_empty());
    assert!(g.meshes.is_empty());
    assert!(g.nodes.is_empty());
    assert!(g.samplers.is_empty());
    assert!(g.scenes.is_empty());
    assert!(g.skins.is_empty());
    assert!(g.textures.is_empty());
    assert!(g.scene.is_none());
    assert!(g.extensions_used.is_empty());
    assert!(g.extensions_required.is_empty());
    assert!(g.extensions.is_none());
}

#[test]
fn missing_asset_fails() {
    let r = Gltf::from_gltf_str(r#"{}"#);
    assert!(matches!(r, Err(GltfError::JsonParseError(_))));
}

#[test]
fn asset_version_defaults_when_absent() {
    let g = Gltf::from_gltf_str(r#"{"asset":{"generator":"x"}}"#).unwrap();
    assert_eq!(g.asset.version, "2.0");
    assert_eq!(g.asset.generator.as_deref(), Some("x"));
    assert!(g.asset.copyright.is_none());
    assert!(g.asset.min_version.is_none());
}

#[test]
fn malformed_json_fails() {
    let r = Gltf::from_gltf_str(r#"{"asset":"#);
    assert!(matches!(r, Err(GltfError::JsonParseError(_))));
}

#[test]
fn unrecognized_top_level_keys_are_ignored() {
    let g = Gltf::from_gltf_str(
        r#"{"asset":{"version":"2.0"},"somethingVendorSpecific":{"a":[1,2]}}"#,
    )
    .unwrap();
    assert!(g.accessors.is_empty());
}

#[test]
fn accessors_decode() {
    let g = Gltf::from_gltf_str(
        r#"{
            "asset":{"version":"2.0"},
            "accessors":[
                {"bufferView":0,"byteOffset":8,"count":12,"componentType":5126,"type":"VEC3","name":"pts"},
                {"count":3,"componentType":5123,"type":"SCALAR","normalized":true,
                 "sparse":{"count":1,
                           "indices":{"bufferView":1,"componentType":5121},
                           "values":{"bufferView":2,"byteOffset":4}}}
            ]
        }"#,
    )
    .unwrap();
    assert_eq!(g.accessors.len(), 2);
    let a = &g.accessors[0];
    assert_eq!(a.buffer_view, Some(0));
    assert_eq!(a.byte_offset, 8);
    assert_eq!(a.count, 12);
    assert_eq!(a.component_type.size(), 4);
    assert_eq!(a.accessor_type.multiplicity(), 3);
    assert_eq!(a.name.as_deref(), Some("pts"));
    assert!(!a.normalized);
    assert!(a.sparse.is_none());

    let b = &g.accessors[1];
    assert!(b.buffer_view.is_none());
    assert_eq!(b.byte_offset, 0);
    assert!(b.normalized);
    let sp = b.sparse.as_ref().unwrap();
    assert_eq!(sp.count, 1);
    assert_eq!(sp.indices.buffer_view, 1);
    assert_eq!(sp.indices.byte_offset, 0);
    assert_eq!(sp.indices.component_type.size(), 1);
    assert_eq!(sp.values.buffer_view, 2);
    assert_eq!(sp.values.byte_offset, 4);
}

#[test]
fn sparse_without_indices_fails() {
    let r = Gltf::from_gltf_str(
        r#"{"asset":{"version":"2.0"},
            "accessors":[{"count":3,"componentType":5123,"type":"SCALAR",
                          "sparse":{"count":1,"values":{"bufferView":2}}}]}"#,
    );
    assert!(matches!(r, Err(GltfError::JsonParseError(_))));
}

#[test]
fn bad_component_type_fails() {
    let r = Gltf::from_gltf_str(
        r#"{"asset":{"version":"2.0"},
            "accessors":[{"count":3,"componentType":5124,"type":"SCALAR"}]}"#,
    );
    assert!(matches!(r, Err(GltfError::JsonParseError(_))));
}

#[test]
fn material_alpha_mode_defaults_and_decodes() {
    let g = Gltf::from_gltf_str(
        r#"{"asset":{"version":"2.0"},
            "materials":[{},{"alphaMode":"BLEND"},{"alphaMode":"MASK","alphaCutoff":0.25}]}"#,
    )
    .unwrap();
    assert_eq!(g.materials[0].alpha_mode, AlphaMode::Opaque);
    assert_eq!(g.materials[1].alpha_mode, AlphaMode::Blend);
    assert_eq!(g.materials[2].alpha_mode, AlphaMode::Mask);
    assert_eq!(f64::from_bits(g.materials[2].alpha_cutoff.0 .0), 0.25);
}

#[test]
fn bad_alpha_mode_fails() {
    let r = Gltf::from_gltf_str(
        r#"{"asset":{"version":"2.0"},"materials":[{"alphaMode":"XYZ"}]}"#,
    );
    assert!(matches!(r, Err(GltfError::JsonParseError(_))));
}

#[test]
fn material_defaults_follow_the_table() {
    let g = Gltf::from_gltf_str(r#"{"asset":{"version":"2.0"},"materials":[{}]}"#).unwrap();
    let m = &g.materials[0];
    assert_eq!(f64::from_bits(m.alpha_cutoff.0 .0), 0.5);
    assert!(!m.double_sided);
    let pbr = &m.pbr_metallic_roughness;
    assert_eq!(pbr.base_color_factor.0, [bits(1.0); 4]);
    assert_eq!(f64::from_bits(pbr.metallic_factor.0 .0), 1.0);
    assert_eq!(f64::from_bits(pbr.roughness_factor.0 .0), 1.0);
    assert!(pbr.base_color_texture.is_none());
    assert!(pbr.metallic_roughness_texture.is_none());
    assert_eq!(m.emissive_factor.0, [bits(0.0); 3]);
    assert!(m.normal_texture.is_none());
    assert!(m.occlusion_texture.is_none());
    assert!(m.emissive_texture.is_none());
    assert!(m.extensions.is_none());
}

#[test]
fn material_textures_and_extensions_decode() {
    let g = Gltf::from_gltf_str(
        r#"{"asset":{"version":"2.0"},
            "materials":[{
                "pbrMetallicRoughness":{"baseColorFactor":[0.5,0.25,1,1],
                                        "baseColorTexture":{"index":2,"texCoord":1},
                                        "metallicFactor":0},
                "normalTexture":{"index":0,"scale":2.0},
                "occlusionTexture":{"index":1},
                "emissiveTexture":{"index":3,
                    "extensions":{"KHR_texture_transform":{"offset":[1,2],"rotation":0.5}}},
                "emissiveFactor":[0.1,0.2,0.3],
                "extensions":{"KHR_materials_pbrSpecularGlossiness":{
                    "glossinessFactor":0.7,
                    "specularFactor":[0.5,0.5,0.5]}}
            }]}"#,
    )
    .unwrap();
    let m = &g.materials[0];
    let pbr = &m.pbr_metallic_roughness;
    assert_eq!(pbr.base_color_factor.0, [bits(0.5), bits(0.25), bits(1.0), bits(1.0)]);
    let bct = pbr.base_color_texture.as_ref().unwrap();
    assert_eq!(bct.index, 2);
    assert_eq!(bct.tex_coord, 1);
    assert_eq!(f64::from_bits(pbr.metallic_factor.0 .0), 0.0);
    let nt = m.normal_texture.as_ref().unwrap();
    assert_eq!(nt.index, 0);
    assert_eq!(f64::from_bits(nt.scale.0 .0), 2.0);
    assert_eq!(nt.tex_coord, 0);
    let ot = m.occlusion_texture.as_ref().unwrap();
    assert_eq!(f64::from_bits(ot.strength.0 .0), 1.0);
    let et = m.emissive_texture.as_ref().unwrap();
    let tt = et
        .extensions
        .as_ref()
        .unwrap()
        .khr_texture_transform
        .as_ref()
        .unwrap();
    assert_eq!(tt.offset.unwrap(), [bits(1.0), bits(2.0)]);
    assert!(tt.scale.is_none());
    assert_eq!(f64::from_bits(tt.rotation.unwrap().0), 0.5);
    assert_eq!(m.emissive_factor.0, [bits(0.1), bits(0.2), bits(0.3)]);
    let sg = m
        .extensions
        .as_ref()
        .unwrap()
        .khr_materials_pbr_specular_glossiness
        .as_ref()
        .unwrap();
    assert_eq!(f64::from_bits(sg.glossiness_factor.0 .0), 0.7);
    assert_eq!(sg.specular_factor.0, [bits(0.5); 3]);
    // defaults of the untouched payload fields
    assert_eq!(sg.diffuse_factor.0, [bits(0.0), bits(0.0), bits(0.0), bits(1.0)]);
    assert!(sg.diffuse_texture.is_none());
}

#[test]
fn node_without_transform_fields_is_identity() {
    let g = Gltf::from_gltf_str(r#"{"asset":{"version":"2.0"},"nodes":[{}]}"#).unwrap();
    let n = &g.nodes[0];
    assert_eq!(n.translation, [bits(0.0); 3]);
    assert_eq!(n.rotation.0, [bits(0.0), bits(0.0), bits(0.0), bits(1.0)]);
    assert_eq!(n.scale, [bits(1.0); 3]);
    assert!(n.matrix.is_none());
    assert!(n.camera.is_none());
    assert!(n.children.is_none());
    assert!(n.mesh.is_none());
    assert!(n.skin.is_none());
    assert!(n.weights.is_none());
    assert!(n.extensions.is_none());
}

#[test]
fn node_transforms_decode() {
    let g = Gltf::from_gltf_str(
        r#"{"asset":{"version":"2.0"},
            "nodes":[{"translation":[1,2,3],
                      "rotation":[0,0.5,0,0.5],
                      "scale":[2,2,2],
                      "children":[1,2],
                      "mesh":0,
                      "extensions":{"khr_lights_punctual":{"light":4}}},
                     {"matrix":[1,0,0,0, 0,1,0,0, 0,0,1,0, 0,0,0,1]},
                     {}]}"#,
    )
    .unwrap();
    let n = &g.nodes[0];
    assert_eq!(n.translation, [bits(1.0), bits(2.0), bits(3.0)]);
    assert_eq!(n.rotation.0, [bits(0.0), bits(0.5), bits(0.0), bits(0.5)]);
    assert_eq!(n.scale, [bits(2.0); 3]);
    assert_eq!(n.children.as_deref(), Some(&[1usize, 2][..]));
    assert_eq!(n.mesh, Some(0));
    assert_eq!(
        n.extensions.as_ref().unwrap().khr_lights_punctual.unwrap().light,
        4
    );
    let m = g.nodes[1].matrix.unwrap();
    assert_eq!(m[0], bits(1.0));
    assert_eq!(m[1], bits(0.0));
    assert_eq!(m[5], bits(1.0));
    assert_eq!(m[15], bits(1.0));
}

#[test]
fn node_matrix_of_wrong_length_fails() {
    let r = Gltf::from_gltf_str(
        r#"{"asset":{"version":"2.0"},"nodes":[{"matrix":[1,0,0]}]}"#,
    );
    assert!(matches!(r, Err(GltfError::JsonParseError(_))));
}

#[test]
fn meshes_and_attributes_decode() {
    let g = Gltf::from_gltf_str(
        r#"{"asset":{"version":"2.0"},
            "meshes":[{"name":"quad",
                       "primitives":[{"attributes":{"POSITION":0,"COLOR_3":1,"NORMAL":2},
                                      "indices":3,"material":0,"mode":1,
                                      "targets":[{"POSITION":4,"NORMAL":5}]}],
                       "weights":[0.5,0.5]}]}"#,
    )
    .unwrap();
    let mesh = &g.meshes[0];
    assert_eq!(mesh.name.as_deref(), Some("quad"));
    let p = &mesh.primitives[0];
    // the attribute map preserves the tree's member order (sorted by key)
    assert_eq!(p.attributes.len(), 3);
    assert!(p.attributes.contains(&(Attribute::Positions, 0)));
    assert!(p.attributes.contains(&(Attribute::Colors(3), 1)));
    assert!(p.attributes.contains(&(Attribute::Normals, 2)));
    assert_eq!(p.indices, Some(3));
    assert_eq!(p.material, Some(0));
    assert_eq!(p.mode, PrimitiveMode::Lines);
    let t = &p.targets.as_ref().unwrap()[0];
    assert_eq!(t.positions, Some(4));
    assert_eq!(t.normals, Some(5));
    assert!(t.tangents.is_none());
    assert_eq!(mesh.weights.as_deref(), Some(&[bits(0.5), bits(0.5)][..]));
}

#[test]
fn primitive_mode_defaults_to_triangles() {
    let g = Gltf::from_gltf_str(
        r#"{"asset":{"version":"2.0"},
            "meshes":[{"primitives":[{"attributes":{"POSITION":0}}]}]}"#,
    )
    .unwrap();
    assert_eq!(g.meshes[0].primitives[0].mode, PrimitiveMode::Triangles);
}

#[test]
fn bad_attribute_key_fails_document_decode() {
    let r = Gltf::from_gltf_str(
        r#"{"asset":{"version":"2.0"},
            "meshes":[{"primitives":[{"attributes":{"COLOR_x":0}}]}]}"#,
    );
    assert!(matches!(r, Err(GltfError::JsonParseError(_))));
}

#[test]
fn extension_tag_lists_decode() {
    let g = Gltf::from_gltf_str(
        r#"{"asset":{"version":"2.0"},
            "extensionsUsed":["KHR_lights_punctual","FOO_bar_vendor"],
            "extensionsRequired":["KHR_mesh_quantization"]}"#,
    )
    .unwrap();
    assert_eq!(
        g.extensions_used,
        [
            Extension::KHR_lights_punctual,
            Extension::Unknown("FOO_bar_vendor".to_string())
        ]
    );
    assert_eq!(g.extensions_required, [Extension::KHR_mesh_quantization]);
}

#[test]
fn non_string_extension_tag_fails() {
    let r = Gltf::from_gltf_str(
        r#"{"asset":{"version":"2.0"},"extensionsUsed":[17]}"#,
    );
    assert!(matches!(r, Err(GltfError::JsonParseError(_))));
}

#[test]
fn samplers_and_textures_decode() {
    let g = Gltf::from_gltf_str(
        r#"{"asset":{"version":"2.0"},
            "samplers":[{},{"magFilter":9728,"minFilter":9987,"wrapS":33071}],
            "textures":[{"sampler":1,"source":0,"name":"t"}],
            "images":[{"uri":"a.png","mimeType":"image/png"}]}"#,
    )
    .unwrap();
    let s0 = &g.samplers[0];
    assert!(s0.mag_filter.is_none());
    assert!(s0.min_filter.is_none());
    assert_eq!(s0.wrap_s, WrappingMode::Repeat);
    assert_eq!(s0.wrap_t, WrappingMode::Repeat);
    let s1 = &g.samplers[1];
    assert!(s1.mag_filter.is_some());
    assert!(s1.min_filter.is_some());
    assert_eq!(s1.wrap_s, WrappingMode::ClampToEdge);
    assert_eq!(s1.wrap_t, WrappingMode::Repeat);
    let t = &g.textures[0];
    assert_eq!(t.sampler, Some(1));
    assert_eq!(t.source, Some(0));
    assert_eq!(t.name.as_deref(), Some("t"));
    let img = &g.images[0];
    assert_eq!(img.uri.as_deref(), Some("a.png"));
    assert!(img.mime_type.is_some());
}

#[test]
fn cameras_decode() {
    let g = Gltf::from_gltf_str(
        r#"{"asset":{"version":"2.0"},
            "cameras":[{"type":"perspective","perspective":{"yfov":0.7,"znear":0.01}},
                       {"type":"orthographic",
                        "orthographic":{"xmag":1,"ymag":1,"zfar":100,"znear":0.1}}]}"#,
    )
    .unwrap();
    let p = g.cameras[0].perspective.as_ref().unwrap();
    assert_eq!(f64::from_bits(p.yfov.0), 0.7);
    assert!(p.aspect_ratio.is_none());
    assert!(p.zfar.is_none());
    let o = g.cameras[1].orthographic.as_ref().unwrap();
    assert_eq!(f64::from_bits(o.zfar.0), 100.0);
}

#[test]
fn camera_without_type_fails() {
    let r = Gltf::from_gltf_str(
        r#"{"asset":{"version":"2.0"},"cameras":[{"perspective":{"yfov":0.7,"znear":0.01}}]}"#,
    );
    assert!(matches!(r, Err(GltfError::JsonParseError(_))));
}

#[test]
fn scenes_skins_buffers_decode() {
    let g = Gltf::from_gltf_str(
        r#"{"asset":{"version":"2.0"},
            "scene":0,
            "scenes":[{"name":"root","nodes":[0,1]}],
            "skins":[{"joints":[0],"skeleton":0,"inverseBindMatrices":2}],
            "buffers":[{"byteLength":128,"uri":"data.bin"}],
            "bufferViews":[{"buffer":0,"byteLength":64,"byteStride":12,"target":34962}]}"#,
    )
    .unwrap();
    assert_eq!(g.scene, Some(0));
    assert_eq!(g.scenes[0].nodes, [0, 1]);
    assert_eq!(g.skins[0].joints, [0]);
    assert_eq!(g.skins[0].skeleton, Some(0));
    assert_eq!(g.buffers[0].byte_length, 128);
    let bv = &g.buffer_views[0];
    assert_eq!(bv.buffer, 0);
    assert_eq!(bv.byte_length, 64);
    assert_eq!(bv.byte_offset, 0);
    assert_eq!(bv.byte_stride, Some(12));
    assert!(bv.target.is_some());
}

#[test]
fn scene_without_nodes_fails() {
    let r = Gltf::from_gltf_str(r#"{"asset":{"version":"2.0"},"scenes":[{}]}"#);
    assert!(matches!(r, Err(GltfError::JsonParseError(_))));
}

#[test]
fn animations_decode() {
    let g = Gltf::from_gltf_str(
        r#"{"asset":{"version":"2.0"},
            "animations":[{"channels":[{"sampler":0,"target":{"node":1,"path":"rotation"}}],
                           "samplers":[{"input":0,"output":1,"interpolation":"STEP"},
                                       {"input":2,"output":3}]}]}"#,
    )
    .unwrap();
    let a = &g.animations[0];
    assert_eq!(a.channels[0].sampler, 0);
    assert_eq!(a.channels[0].target.node, 1);
    assert_eq!(a.samplers.len(), 2);
}

#[test]
fn bad_animation_path_fails() {
    let r = Gltf::from_gltf_str(
        r#"{"asset":{"version":"2.0"},
            "animations":[{"channels":[{"sampler":0,"target":{"node":1,"path":"color"}}],
                           "samplers":[]}]}"#,
    );
    assert!(matches!(r, Err(GltfError::JsonParseError(_))));
}

#[test]
fn null_optional_fields_read_as_absent_options() {
    let g = Gltf::from_gltf_str(
        r#"{"asset":{"version":"2.0"},
            "accessors":[{"bufferView":null,"count":1,"componentType":5120,"type":"SCALAR",
                          "name":null,"sparse":null}]}"#,
    )
    .unwrap();
    let a = &g.accessors[0];
    assert!(a.buffer_view.is_none());
    assert!(a.name.is_none());
    assert!(a.sparse.is_none());
}

#[test]
fn null_defaulted_field_fails() {
    // null is a value, not an absence: it must not trigger the default
    let r = Gltf::from_gltf_str(
        r#"{"asset":{"version":"2.0"},
            "accessors":[{"count":1,"componentType":5120,"type":"SCALAR","byteOffset":null}]}"#,
    );
    assert!(matches!(r, Err(GltfError::JsonParseError(_))));
}

#[test]
fn negative_or_fractional_index_fails() {
    let r = Gltf::from_gltf_str(
        r#"{"asset":{"version":"2.0"},
            "accessors":[{"count":-1,"componentType":5120,"type":"SCALAR"}]}"#,
    );
    assert!(matches!(r, Err(GltfError::JsonParseError(_))));
    let r2 = Gltf::from_gltf_str(
        r#"{"asset":{"version":"2.0"},
            "accessors":[{"count":1.5,"componentType":5120,"type":"SCALAR"}]}"#,
    );
    assert!(matches!(r2, Err(GltfError::JsonParseError(_))));
}

#[test]
fn root_extensions_slot_is_recognized_structurally() {
    let g = Gltf::from_gltf_str(
        r#"{"asset":{"version":"2.0"},"extensions":{"anything":{"inside":1}}}"#,
    )
    .unwrap();
    assert!(g.extensions.is_some());
}

#[test]
fn decoding_from_bytes_matches_text() {
    let text = r#"{"asset":{"version":"2.0"},"scene":3}"#;
    let from_bytes = Gltf::from_gltf_bytes(text.as_bytes()).unwrap();
    let from_text = Gltf::from_gltf_str(text).unwrap();
    assert_eq!(from_bytes.scene, Some(3));
    assert_eq!(from_text.scene, Some(3));
    assert!(Gltf::from_gltf_bytes(&[0xff, 0xfe]).is_err());
}

#[test]
fn default_document_is_empty() {
    let g = Gltf::default();
    assert!(g.accessors.is_empty());
    assert!(g.scene.is_none());
    assert_eq!(g.asset.version, "2.0");
}

#[test]
fn default_impls_follow_the_table() {
    assert_eq!(Asset::default().version, "2.0");
    assert_eq!(f64::from_bits(AlphaCutoff::default().0 .0), 0.5);
    assert_eq!(EmissiveFactor::default().0, [bits(0.0); 3]);
    assert_eq!(PbrBaseColorFactor::default().0, [bits(1.0); 4]);
    assert_eq!(f64::from_bits(NormalScaleFactor::default().0 .0), 1.0);
    assert_eq!(f64::from_bits(OcclusionStrengthFactor::default().0 .0), 1.0);
    assert_eq!(f64::from_bits(GlossinessStrengthFactor::default().0 .0), 0.1);
    assert_eq!(
        PbrDiffuseFactor::default().0,
        [bits(0.0), bits(0.0), bits(0.0), bits(1.0)]
    );
    assert_eq!(PbrSpecularFactor::default().0, [bits(0.0); 3]);
    assert_eq!(
        UnitQuaternion::default().0,
        [bits(0.0), bits(0.0), bits(0.0), bits(1.0)]
    );
    let s = Sampler::default();
    assert_eq!(s.wrap_s, WrappingMode::Repeat);
    assert_eq!(s.wrap_t, WrappingMode::Repeat);
    let m = Material::default();
    assert_eq!(m.alpha_mode, AlphaMode::Opaque);
    assert_eq!(f64::from_bits(m.pbr_metallic_roughness.roughness_factor.0 .0), 1.0);
}
