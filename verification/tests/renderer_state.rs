use render_core::events::{Key, WindowEvent};
use render_core::model::{ModelVertex, RawMaterial, RawMesh, RawModel};
use render_core::state::{FrameStep, GroupRef, InitError, RenderCommand, State};
use render_core::surface::{AcquireOutcome, SurfaceFormat};
use render_core::texture::TextureFormat;

use cgmath::{perspective, Deg, EuclideanSpace, InnerSpace, Matrix4, Point3, Vector3};
use image::ImageEncoder;
use image::codecs::png::PngEncoder;

fn png_bytes(width: u32, height: u32, rgba: &[u8]) -> Vec<u8> {
    let mut out: Vec<u8> = Vec::new();
    let enc = PngEncoder::new(&mut out);
    enc.write_image(rgba, width, height, image::ColorType::Rgba8).unwrap();
    out
}

fn mv(p: [f32; 3]) -> ModelVertex {
    ModelVertex {
        position: [p[0].to_bits(), p[1].to_bits(), p[2].to_bits()],
        tex_coords: [0, 0],
        normal: [0, 0, (1.0f32).to_bits()],
    }
}

fn valid_source(num_meshes: usize) -> RawModel {
    let mut meshes = Vec::new();
    for _ in 0..num_meshes {
        meshes.push(RawMesh {
            name: String::from("quad"),
            vertices: vec![
                mv([0.0, 0.0, 0.0]),
                mv([1.0, 0.0, 0.0]),
                mv([1.0, 1.0, 0.0]),
                mv([0.0, 1.0, 0.0]),
            ],
            indices: vec![0, 1, 2, 0, 2, 3],
            material: 0,
        });
    }
    RawModel {
        meshes,
        materials: vec![RawMaterial {
            name: String::from("mat"),
            diffuse_bytes: Some(png_bytes(1, 1, &[200, 100, 50, 255])),
        }],
    }
}

fn fresh_state() -> State {
    State::new(
        800,
        600,
        SurfaceFormat::Bgra8UnormSrgb,
        &png_bytes(1, 1, &[1, 2, 3, 255]),
        valid_source(2),
    )
    .unwrap()
}

#[test]
fn new_builds_expected_state() {
    let s = fresh_state();
    assert_eq!(s.config.width, 800);
    assert_eq!(s.config.height, 600);
    assert_eq!(s.config.format, SurfaceFormat::Bgra8UnormSrgb);
    assert_eq!(s.size.width, 800);
    assert_eq!(s.size.height, 600);
    assert_eq!(s.camera.eye, [0, (1.0f32).to_bits(), (2.0f32).to_bits()]);
    assert_eq!(s.camera.target, [0, 0, 0]);
    assert_eq!(s.camera.up, [0, (1.0f32).to_bits(), 0]);
    assert_eq!(s.camera.fovy, (45.0f32).to_bits());
    assert_eq!(s.camera.znear, (0.1f32).to_bits());
    assert_eq!(s.camera.zfar, (100.0f32).to_bits());
    assert_eq!(s.camera_controller.speed, (0.1f32).to_bits());
    assert_eq!(s.instances.instances.len(), 100);
    assert_eq!(s.depth_texture.width, 800);
    assert_eq!(s.depth_texture.height, 600);
    assert_eq!(s.depth_texture.format, TextureFormat::Depth32Float);
    assert_eq!(s.obj_model.meshes.len(), 2);
    assert_eq!(s.render_pipeline.vertex_layouts.len(), 2);
    assert_eq!(s.render_pipeline.vertex_layouts[0].array_stride, 32);
    assert_eq!(s.render_pipeline.vertex_layouts[1].array_stride, 64);
    assert_eq!(s.lost_streak, 0);
}

#[test]
fn new_rejects_bad_diffuse_image() {
    let r = State::new(
        640,
        480,
        SurfaceFormat::Bgra8UnormSrgb,
        &vec![0u8, 1, 2],
        valid_source(1),
    );
    assert!(matches!(r, Err(InitError::DiffuseImage(_))));
}

#[test]
fn new_rejects_bad_model() {
    let mut source = valid_source(1);
    source.meshes[0].indices.push(99);
    let r = State::new(
        640,
        480,
        SurfaceFormat::Bgra8UnormSrgb,
        &png_bytes(1, 1, &[0, 0, 0, 255]),
        source,
    );
    assert!(matches!(
        r,
        Err(InitError::ModelLoad(render_core::model::LoadError::MalformedGeometry))
    ));
}

#[test]
fn resize_updates_config_depth_and_camera() {
    let mut s = fresh_state();
    s.resize(1024, 768);
    assert_eq!(s.config.width, 1024);
    assert_eq!(s.config.height, 768);
    assert_eq!(s.size.width, 1024);
    assert_eq!(s.size.height, 768);
    assert_eq!(s.depth_texture.width, 1024);
    assert_eq!(s.depth_texture.height, 768);
    assert_eq!(s.camera.width, 1024);
    assert_eq!(s.camera.height, 768);
}

#[test]
fn zero_resize_is_a_no_op() {
    let mut s = fresh_state();
    s.resize(0, 500);
    assert_eq!(s.config.width, 800);
    assert_eq!(s.config.height, 600);
    assert_eq!(s.depth_texture.width, 800);
    assert_eq!(s.depth_texture.height, 600);
    s.resize(500, 0);
    assert_eq!(s.config.width, 800);
    assert_eq!(s.depth_texture.height, 600);
}

#[test]
fn forward_tick_moves_eye_strictly_closer_keeps_target() {
    let mut s = fresh_state();
    assert!(s.input(&WindowEvent::KeyInput { key: Key::W, pressed: true }));
    let m = s.camera_controller.movement();
    assert_eq!(m.advance, 1);
    assert_eq!(m.strafe, 0);

    // The caller's floating-point step: move along the normalised
    // eye->target direction by the speed constant.
    let eye = Point3::new(
        f32::from_bits(s.camera.eye[0]),
        f32::from_bits(s.camera.eye[1]),
        f32::from_bits(s.camera.eye[2]),
    );
    let target = Point3::new(0.0f32, 0.0, 0.0);
    let speed = f32::from_bits(s.camera_controller.speed);
    let forward: Vector3<f32> = target - eye;
    let dist_before = forward.magnitude();
    let new_eye = eye + forward.normalize() * speed * (m.advance as f32);
    let old_target = s.camera.target;
    s.update(
        [new_eye.x.to_bits(), new_eye.y.to_bits(), new_eye.z.to_bits()],
        [0u32; 16],
    );
    assert_eq!(s.camera.target, old_target);
    let eye_after = Point3::new(
        f32::from_bits(s.camera.eye[0]),
        f32::from_bits(s.camera.eye[1]),
        f32::from_bits(s.camera.eye[2]),
    );
    let dist_after = (target - eye_after).magnitude();
    assert!(dist_after < dist_before);
    assert!((dist_before - dist_after - speed).abs() < 1e-5);
}

#[test]
fn outdated_surface_reconfigures_and_completes_frame() {
    let mut s = fresh_state();
    s.begin_frame();
    assert_eq!(s.render(AcquireOutcome::Outdated), FrameStep::RetryAfterReconfigure);
    assert_eq!(s.render(AcquireOutcome::Success), FrameStep::Render);
    assert_eq!(s.lost_streak, 0);
}

#[test]
fn three_consecutive_lost_surfaces_are_fatal() {
    let mut s = fresh_state();
    s.begin_frame();
    assert_eq!(s.render(AcquireOutcome::Lost), FrameStep::RetryAfterReconfigure);
    assert_eq!(s.render(AcquireOutcome::Lost), FrameStep::SkipFrame);
    s.begin_frame();
    assert_eq!(s.render(AcquireOutcome::Lost), FrameStep::Fatal);
}

#[test]
fn success_resets_the_lost_streak() {
    let mut s = fresh_state();
    s.begin_frame();
    assert_eq!(s.render(AcquireOutcome::Lost), FrameStep::RetryAfterReconfigure);
    assert_eq!(s.render(AcquireOutcome::Success), FrameStep::Render);
    s.begin_frame();
    assert_eq!(s.render(AcquireOutcome::Lost), FrameStep::RetryAfterReconfigure);
    assert_eq!(s.render(AcquireOutcome::Lost), FrameStep::SkipFrame);
    s.begin_frame();
    assert_eq!(s.render(AcquireOutcome::Timeout), FrameStep::SkipFrame);
    s.begin_frame();
    assert_eq!(s.render(AcquireOutcome::Lost), FrameStep::RetryAfterReconfigure);
}

#[test]
fn out_of_memory_is_fatal() {
    let mut s = fresh_state();
    s.begin_frame();
    assert_eq!(s.render(AcquireOutcome::OutOfMemory), FrameStep::Fatal);
}

#[test]
fn recorded_frame_draws_each_mesh_in_order() {
    let s = fresh_state();
    let plan = s.record_frame();
    assert_eq!(plan.clear_color[0], (0.1f64).to_bits());
    assert_eq!(plan.clear_color[1], (0.2f64).to_bits());
    assert_eq!(plan.clear_color[2], (0.3f64).to_bits());
    assert_eq!(plan.clear_color[3], (1.0f64).to_bits());
    assert_eq!(plan.clear_depth, (1.0f32).to_bits());
    // One SetPipeline, then six commands per mesh.
    assert_eq!(plan.commands.len(), 1 + 6 * 2);
    assert_eq!(plan.commands[0], RenderCommand::SetPipeline);
    for mesh in 0..2usize {
        let base = 1 + 6 * mesh;
        assert_eq!(
            plan.commands[base],
            RenderCommand::SetBindGroup { slot: 0, group: GroupRef::Material { index: 0 } }
        );
        assert_eq!(
            plan.commands[base + 1],
            RenderCommand::SetBindGroup { slot: 1, group: GroupRef::CameraGroup }
        );
        match plan.commands[base + 5] {
            RenderCommand::DrawIndexed {
                index_count,
                base_vertex,
                first_instance,
                instance_count,
            } => {
                assert_eq!(index_count, 6);
                assert_eq!(base_vertex, 0);
                assert_eq!(first_instance, 0);
                assert_eq!(instance_count, 100);
            },
            _ => panic!("expected a draw"),
        }
    }
}

#[test]
fn golden_view_proj_is_framed_byte_exactly() {
    // The fixed camera: eye (0,1,2), target the origin, up +y, fovy 45
    // degrees, aspect 1, znear 0.1, zfar 100.
    let mut s = State::new(
        512,
        512,
        SurfaceFormat::Bgra8UnormSrgb,
        &png_bytes(1, 1, &[9, 9, 9, 255]),
        valid_source(1),
    )
    .unwrap();
    let eye = Point3::new(0.0f32, 1.0, 2.0);
    let target = Point3::origin();
    let up = Vector3::unit_y();
    let aspect = s.camera.width as f32 / s.camera.height as f32;
    let view = Matrix4::look_at_rh(eye, target, up);
    let proj = perspective(Deg(45.0f32), aspect, 0.1, 100.0);
    let view_proj = proj * view;
    let cols: [[f32; 4]; 4] = view_proj.into();
    let mut words = [0u32; 16];
    for c in 0..4 {
        for r in 0..4 {
            words[4 * c + r] = cols[c][r].to_bits();
        }
    }
    s.update(s.camera.eye, words);
    let bytes = s.camera_uniform.bytes();
    assert_eq!(bytes.len(), 64);
    for i in 0..16 {
        assert_eq!(&bytes[4 * i..4 * i + 4], &words[i].to_le_bytes(), "word {}", i);
    }
}

#[test]
fn empty_model_renders_only_the_pipeline_bind() {
    let s = State::new(
        100,
        100,
        SurfaceFormat::Other,
        &png_bytes(1, 1, &[0, 0, 0, 255]),
        RawModel { meshes: Vec::new(), materials: Vec::new() },
    )
    .unwrap();
    let plan = s.record_frame();
    assert_eq!(plan.commands.len(), 1);
    assert_eq!(plan.commands[0], RenderCommand::SetPipeline);
}

#[test]
fn resize_to_the_largest_size_is_applied() {
    let mut s = fresh_state();
    s.resize(u32::MAX, u32::MAX);
    assert_eq!(s.config.width, u32::MAX);
    assert_eq!(s.config.height, u32::MAX);
    assert_eq!(s.depth_texture.width, u32::MAX);
}
