use render_core::model::{
    load, vertex_buffer_bytes, LoadError, ModelVertex, RawMaterial, RawMesh, RawModel, Vertex,
};
use render_core::pipeline::{texture_bind_group_layout, BindingType};
use render_core::texture::{upload_layout, RgbaPixels, Texture, TextureError, TextureFormat};
use image::ImageEncoder;
use image::codecs::png::PngEncoder;

fn png_bytes(width: u32, height: u32, rgba: &[u8]) -> Vec<u8> {
    let mut out: Vec<u8> = Vec::new();
    let enc = PngEncoder::new(&mut out);
    enc.write_image(rgba, width, height, image::ColorType::Rgba8).unwrap();
    out
}

fn mv(p: [f32; 3], t: [f32; 2], n: [f32; 3]) -> ModelVertex {
    ModelVertex {
        position: [p[0].to_bits(), p[1].to_bits(), p[2].to_bits()],
        tex_coords: [t[0].to_bits(), t[1].to_bits()],
        normal: [n[0].to_bits(), n[1].to_bits(), n[2].to_bits()],
    }
}

fn triangle_mesh(material: usize) -> RawMesh {
    RawMesh {
        name: String::from("tri"),
        vertices: vec![
            mv([0.0, 0.0, 0.0], [0.0, 0.0], [0.0, 0.0, 1.0]),
            mv([1.0, 0.0, 0.0], [1.0, 0.0], [0.0, 0.0, 1.0]),
            mv([0.0, 1.0, 0.0], [0.0, 1.0], [0.0, 0.0, 1.0]),
        ],
        indices: vec![0, 1, 2],
        material,
    }
}

fn good_material() -> RawMaterial {
    let rgba: [u8; 8] = [255, 0, 0, 255, 0, 255, 0, 128];
    RawMaterial {
        name: String::from("mat"),
        diffuse_bytes: Some(png_bytes(2, 1, &rgba)),
    }
}

#[test]
fn decode_roundtrip_preserves_pixels() {
    let rgba: [u8; 8] = [255, 0, 0, 255, 0, 255, 0, 128];
    let bytes = png_bytes(2, 1, &rgba);
    let (texture, pixels) = Texture::from_bytes(&bytes).unwrap();
    assert_eq!(pixels.width, 2);
    assert_eq!(pixels.height, 1);
    assert_eq!(pixels.data, rgba.to_vec());
    assert_eq!(texture.width, 2);
    assert_eq!(texture.height, 1);
    assert_eq!(texture.format, TextureFormat::Rgba8UnormSrgb);
}

#[test]
fn undecodable_bytes_fail() {
    let bytes = vec![1u8, 2, 3, 4, 5];
    assert_eq!(Texture::from_bytes(&bytes).unwrap_err(), TextureError::DecodeFailed);
}

#[test]
fn upload_layout_is_tightly_packed() {
    let img = RgbaPixels { width: 7, height: 3, data: vec![0; 84] };
    let l = upload_layout(&img);
    assert_eq!(l.offset, 0);
    assert_eq!(l.bytes_per_row, 28);
    assert_eq!(l.rows_per_image, 3);
}

#[test]
fn load_rejects_out_of_range_index() {
    let mut mesh = triangle_mesh(0);
    mesh.indices = vec![0, 1, 5];
    let source = RawModel { meshes: vec![mesh], materials: vec![good_material()] };
    let layout = texture_bind_group_layout();
    assert_eq!(load(source, &layout).unwrap_err(), LoadError::MalformedGeometry);
}

#[test]
fn load_rejects_bad_material_index() {
    let source = RawModel { meshes: vec![triangle_mesh(1)], materials: vec![good_material()] };
    let layout = texture_bind_group_layout();
    assert_eq!(load(source, &layout).unwrap_err(), LoadError::MalformedGeometry);
}

#[test]
fn load_rejects_missing_diffuse() {
    let source = RawModel {
        meshes: vec![triangle_mesh(0)],
        materials: vec![RawMaterial { name: String::from("bare"), diffuse_bytes: None }],
    };
    let layout = texture_bind_group_layout();
    assert_eq!(load(source, &layout).unwrap_err(), LoadError::UnsupportedMaterial);
}

#[test]
fn load_rejects_undecodable_diffuse() {
    let source = RawModel {
        meshes: vec![triangle_mesh(0)],
        materials: vec![RawMaterial {
            name: String::from("junk"),
            diffuse_bytes: Some(vec![9u8; 16]),
        }],
    };
    let layout = texture_bind_group_layout();
    assert_eq!(load(source, &layout).unwrap_err(), LoadError::UnsupportedMaterial);
}

#[test]
fn load_builds_model_with_invariant() {
    let source = RawModel {
        meshes: vec![triangle_mesh(0), triangle_mesh(0)],
        materials: vec![good_material()],
    };
    let layout = texture_bind_group_layout();
    let model = load(source, &layout).unwrap();
    assert_eq!(model.meshes.len(), 2);
    assert_eq!(model.materials.len(), 1);
    for mesh in model.meshes.iter() {
        assert!(mesh.material < model.materials.len());
        assert_eq!(mesh.num_elements, 3);
        assert_eq!(mesh.indices, vec![0, 1, 2]);
        assert_eq!(mesh.name, "tri");
        for &ix in mesh.indices.iter() {
            assert!((ix as usize) < mesh.vertices.len());
        }
    }
    let material = &model.materials[0];
    assert_eq!(material.name, "mat");
    assert_eq!(material.diffuse_pixels.width, 2);
    assert_eq!(material.diffuse_pixels.height, 1);
    assert_eq!(material.diffuse_pixels.data, vec![255, 0, 0, 255, 0, 255, 0, 128]);
    // The bind group matches the supplied layout exactly.
    assert_eq!(material.bind_group.layout.entries.len(), layout.entries.len());
    for (a, b) in material.bind_group.layout.entries.iter().zip(layout.entries.iter()) {
        assert_eq!(a, b);
    }
    assert_eq!(material.bind_group.layout.entries[0].ty, BindingType::Texture2d);
    assert_eq!(material.bind_group.layout.entries[1].ty, BindingType::SamplerFiltering);
}

#[test]
fn model_vertex_serialization_matches_declared_layout() {
    let v = mv([1.0, 2.0, 3.0], [0.25, 0.75], [-1.0, 0.5, -0.5]);
    let bytes = vertex_buffer_bytes(&vec![v]);
    let desc = ModelVertex::desc();
    assert_eq!(desc.array_stride, 32);
    assert_eq!(bytes.len(), 32);
    // Position at declared offset 0.
    assert_eq!(&bytes[0..4], &(1.0f32).to_bits().to_le_bytes());
    // Texture coordinates at declared offset 12.
    assert_eq!(desc.attributes[1].offset, 12);
    assert_eq!(&bytes[12..16], &(0.25f32).to_bits().to_le_bytes());
    // Normal at declared offset 20.
    assert_eq!(desc.attributes[2].offset, 20);
    assert_eq!(&bytes[20..24], &(-1.0f32).to_bits().to_le_bytes());
}
