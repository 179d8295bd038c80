//! The renderer's orchestration state: surface configuration, camera,
//! instances, assets, pipeline, and the per-frame decision machine.
//!
//! The GPU device, queue and window are the caller's; the caller drives
//! the loop (acquire a frame, perform the returned step, execute the
//! recorded commands, submit, present) while every decision — what a
//! resize changes, which acquire failures retry and which are fatal, and
//! the exact command sequence of a frame — is made and proved here.

use crate::camera::{
    controller_after, event_consumed, Camera, CameraController, CameraUniform,
};
use crate::events::WindowEvent;
use crate::instances::{grid, InstanceRaw, InstanceSet};
use crate::mat::identity4_words;
use crate::model::{
    geometry_ok, load, material_from_source, materials_ok, mesh_from_source, mesh_wf, model_wf,
    LoadError, Model, ModelVertex, RawModel, Vertex,
};
use crate::pipeline::{
    attr_fits, attrs_adjacent_ok, bind_group_wf, build_pipeline, camera_bind_group_layout,
    camera_layout_entries, create_camera_bind_group, create_texture_bind_group, layout_wf,
    texture_bind_group_layout, texture_layout_entries, BindGroup, BindGroupLayout, RenderPipeline,
    VertexBufferLayout,
};
use crate::surface::{AcquireOutcome, PresentMode, SurfaceConfig, SurfaceFormat, SurfaceUsage};
use crate::texture::{
    color_texture_for, decoded_rgba, depth_texture_for, RgbaPixels, Texture, TextureError,
};
use vstd::prelude::*;

verus! {

/// Instances per grid row.
pub const NUM_INSTANCES_PER_ROW: u32 = 10;

/// Grid spacing, in world units.
pub const SPACE_BETWEEN: u32 = 3;

/// IEEE-754 bit pattern of the camera controller's per-tick speed.
pub const CAMERA_SPEED_BITS: u32 = 0x3DCC_CCCD;

/// A window-size value in pixels.
#[derive(Clone, Copy, Debug, PartialEq, Eq, Structural)]
pub struct PhysicalSize {
    pub width: u32,
    pub height: u32,
}

/// Which bind group a command binds.
#[derive(Clone, Copy, Debug, PartialEq, Eq, Structural)]
pub enum GroupRef {
    /// The bind group of the model's material with this index.
    Material { index: usize },
    /// The camera uniform's bind group.
    CameraGroup,
}

/// Which vertex buffer a command binds.
#[derive(Clone, Copy, Debug, PartialEq, Eq, Structural)]
pub enum BufferRef {
    /// The vertex buffer of the model's mesh with this index.
    MeshVertices { mesh: usize },
    /// The shared per-instance matrix buffer.
    InstanceBuffer,
}

/// Which index buffer a command binds.
#[derive(Clone, Copy, Debug, PartialEq, Eq, Structural)]
pub enum IndexBufferRef {
    /// The index buffer of the model's mesh with this index.
    MeshIndices { mesh: usize },
}

/// The element type of a bound index buffer.
#[derive(Clone, Copy, Debug, PartialEq, Eq, Structural)]
pub enum IndexFormat {
    Uint16,
    Uint32,
}

/// One recorded command of the render pass.
#[derive(Clone, Copy, Debug, PartialEq, Eq, Structural)]
pub enum RenderCommand {
    SetPipeline,
    SetBindGroup { slot: u32, group: GroupRef },
    SetVertexBuffer { slot: u32, buffer: BufferRef },
    SetIndexBuffer { buffer: IndexBufferRef, format: IndexFormat },
    DrawIndexed { index_count: u32, base_vertex: i32, first_instance: u32, instance_count: u32 },
}

/// One frame's render pass: the fixed clear values (as IEEE-754 bit
/// patterns; the colour channels are double precision) and the command
/// sequence.
#[derive(Debug)]
pub struct FramePlan {
    pub clear_color: [u64; 4],
    pub clear_depth: u32,
    pub commands: Vec<RenderCommand>,
}

/// The six commands that draw mesh `i` across all instances.
pub open spec fn mesh_commands(m: Model, i: int, instance_count: u32) -> Seq<RenderCommand> {
    seq![
        RenderCommand::SetBindGroup {
            slot: 0,
            group: GroupRef::Material { index: m.meshes@[i].material },
        },
        RenderCommand::SetBindGroup { slot: 1, group: GroupRef::CameraGroup },
        RenderCommand::SetVertexBuffer {
            slot: 0,
            buffer: BufferRef::MeshVertices { mesh: i as usize },
        },
        RenderCommand::SetVertexBuffer { slot: 1, buffer: BufferRef::InstanceBuffer },
        RenderCommand::SetIndexBuffer {
            buffer: IndexBufferRef::MeshIndices { mesh: i as usize },
            format: IndexFormat::Uint32,
        },
        RenderCommand::DrawIndexed {
            index_count: m.meshes@[i].num_elements,
            base_vertex: 0,
            first_instance: 0,
            instance_count,
        },
    ]
}

/// The commands of the first `k` meshes, in model order.
pub open spec fn meshes_commands(m: Model, k: int, instance_count: u32) -> Seq<RenderCommand>
    decreases k,
{
    if k <= 0 {
        Seq::empty()
    } else {
        meshes_commands(m, k - 1, instance_count) + mesh_commands(m, k - 1, instance_count)
    }
}

/// The whole frame: bind the pipeline, then draw each mesh in model
/// order, each as one indexed draw over the instance range.
pub open spec fn frame_commands(m: Model, instance_count: u32) -> Seq<RenderCommand> {
    seq![RenderCommand::SetPipeline] + meshes_commands(
        m,
        m.meshes@.len() as int,
        instance_count,
    )
}

/// What the caller must do after one acquire attempt.
#[derive(Clone, Copy, Debug, PartialEq, Eq, Structural)]
pub enum FrameStep {
    /// Record and submit the frame.
    Render,
    /// Reconfigure the surface with the current configuration, then
    /// acquire again this frame.
    RetryAfterReconfigure,
    /// Skip this frame; try again next frame.
    SkipFrame,
    /// Give up: the failure is not recoverable.
    Fatal,
}

/// The consecutive-`Lost` count after an acquire outcome (saturating at
/// three, where the run is already fatal).
pub open spec fn next_lost_streak(streak: u32, outcome: AcquireOutcome) -> u32 {
    match outcome {
        AcquireOutcome::Lost => if streak < 3 {
            (streak + 1) as u32
        } else {
            streak
        },
        AcquireOutcome::Success | AcquireOutcome::Outdated | AcquireOutcome::Timeout => 0,
        AcquireOutcome::OutOfMemory => streak,
    }
}

/// Whether a reconfigure-and-retry has been spent this frame after an
/// acquire outcome.
pub open spec fn next_retried(retried: bool, outcome: AcquireOutcome) -> bool {
    match outcome {
        AcquireOutcome::Lost | AcquireOutcome::Outdated => true,
        _ => retried,
    }
}

/// The step decided by an acquire outcome: success renders; lost and
/// outdated surfaces reconfigure and retry once per frame, then skip;
/// a timeout skips; out-of-memory is fatal, and so is the third
/// consecutive lost surface.
pub open spec fn acquire_action(streak: u32, retried: bool, outcome: AcquireOutcome) -> FrameStep {
    match outcome {
        AcquireOutcome::Success => FrameStep::Render,
        AcquireOutcome::OutOfMemory => FrameStep::Fatal,
        AcquireOutcome::Lost => if streak + 1 >= 3 {
            FrameStep::Fatal
        } else if !retried {
            FrameStep::RetryAfterReconfigure
        } else {
            FrameStep::SkipFrame
        },
        AcquireOutcome::Outdated => if !retried {
            FrameStep::RetryAfterReconfigure
        } else {
            FrameStep::SkipFrame
        },
        AcquireOutcome::Timeout => FrameStep::SkipFrame,
    }
}

/// Why startup failed.
#[derive(Clone, Copy, Debug, PartialEq, Eq, Structural)]
pub enum InitError {
    /// The diffuse image bytes could not be decoded.
    DiffuseImage(TextureError),
    /// The model source was rejected.
    ModelLoad(LoadError),
}

/// The renderer state.
#[derive(Debug)]
pub struct State {
    pub config: SurfaceConfig,
    pub size: PhysicalSize,
    pub render_pipeline: RenderPipeline,
    pub diffuse_texture: Texture,
    pub diffuse_pixels: RgbaPixels,
    pub diffuse_bind_group: BindGroup,
    pub camera: Camera,
    pub camera_uniform: CameraUniform,
    pub camera_bind_group: BindGroup,
    pub camera_controller: CameraController,
    pub instances: InstanceSet,
    pub depth_texture: Texture,
    pub obj_model: Model,
    pub lost_streak: u32,
    pub retried_this_frame: bool,
}

/// The state invariant: every dimension-dependent resource agrees with
/// the surface configuration, the model invariant holds, the bind
/// groups match their layouts, and the instance set is encodable.
pub open spec fn state_wf(s: State) -> bool {
    &&& s.depth_texture == depth_texture_for(s.config)
    &&& s.size.width == s.config.width
    &&& s.size.height == s.config.height
    &&& s.camera.width == s.config.width
    &&& s.camera.height == s.config.height
    &&& model_wf(s.obj_model)
    &&& s.diffuse_bind_group.layout.entries@ == texture_layout_entries()
    &&& bind_group_wf(s.diffuse_bind_group)
    &&& s.camera_bind_group.layout.entries@ == camera_layout_entries()
    &&& bind_group_wf(s.camera_bind_group)
    &&& s.instances.wf()
    &&& s.instances.instances@.len() <= 0xFFFF_FFFF
    &&& s.lost_streak <= 3
    &&& forall|i: int|
        0 <= i < s.render_pipeline.vertex_layouts@.len() ==> layout_wf(
            #[trigger] s.render_pipeline.vertex_layouts@[i],
        )
}

impl State {
    /// Builds the renderer: applies the initial surface configuration,
    /// decodes the diffuse texture, fixes the camera and its controller,
    /// creates the bind groups and the pipeline, builds the instance
    /// grid, the depth texture, and loads the model.  Fails exactly
    /// where the diffuse image or the model source is rejected; the
    /// camera uniform starts as the identity until the first update.
    pub fn new(
        width: u32,
        height: u32,
        format: SurfaceFormat,
        diffuse_bytes: &Vec<u8>,
        source: RawModel,
    ) -> (r: Result<State, InitError>)
        requires
            width > 0,
            height > 0,
        ensures
            match r {
                Ok(s) => {
                    &&& state_wf(s)
                    &&& s.config == (SurfaceConfig {
                        usage: SurfaceUsage::RenderAttachment,
                        format,
                        width,
                        height,
                        present_mode: PresentMode::Vsync,
                    })
                    &&& s.size == (PhysicalSize { width, height })
                    &&& s.camera.eye@ == seq![0u32, 0x3F80_0000u32, 0x4000_0000u32]
                    &&& s.camera.target@ == seq![0u32, 0u32, 0u32]
                    &&& s.camera.up@ == seq![0u32, 0x3F80_0000u32, 0u32]
                    &&& s.camera.fovy == 0x4234_0000u32
                    &&& s.camera.znear == 0x3DCC_CCCDu32
                    &&& s.camera.zfar == 0x42C8_0000u32
                    &&& s.camera_uniform.view_proj@ == identity4_words()
                    &&& s.camera_controller == (CameraController {
                        speed: CAMERA_SPEED_BITS,
                        forward: false,
                        backward: false,
                        left: false,
                        right: false,
                    })
                    &&& s.instances.rows == NUM_INSTANCES_PER_ROW
                    &&& s.instances.spacing == SPACE_BETWEEN
                    &&& s.instances.instances@ == grid(
                        NUM_INSTANCES_PER_ROW as int,
                        SPACE_BETWEEN as int,
                    )
                    &&& decoded_rgba(diffuse_bytes@) == Some(
                        (
                            s.diffuse_pixels.width,
                            s.diffuse_pixels.height,
                            s.diffuse_pixels.data@,
                        ),
                    )
                    &&& s.diffuse_texture == color_texture_for(
                        s.diffuse_pixels.width,
                        s.diffuse_pixels.height,
                    )
                    &&& geometry_ok(source)
                    &&& materials_ok(source)
                    &&& s.obj_model.meshes@.len() == source.meshes@.len()
                    &&& s.obj_model.materials@.len() == source.materials@.len()
                    &&& forall|i: int|
                        0 <= i < s.obj_model.meshes@.len() ==> mesh_from_source(
                            #[trigger] s.obj_model.meshes@[i],
                            source.meshes@[i],
                        )
                    &&& forall|i: int|
                        0 <= i < s.obj_model.materials@.len() ==> material_from_source(
                            #[trigger] s.obj_model.materials@[i],
                            source.materials@[i],
                        )
                    &&& s.render_pipeline.vertex_layouts@.len() == 2
                    &&& s.render_pipeline.vertex_layouts@[0].array_stride
                        == ModelVertex::spec_stride()
                    &&& s.render_pipeline.vertex_layouts@[0].attributes@
                        == ModelVertex::spec_attributes()
                    &&& s.render_pipeline.vertex_layouts@[1].array_stride == 64
                    &&& s.render_pipeline.vertex_layouts@[1].attributes@
                        == crate::instances::instance_raw_attributes()
                    &&& s.render_pipeline.target.format == format
                    &&& s.render_pipeline.bind_group_layouts@.len() == 2
                    &&& s.render_pipeline.bind_group_layouts@[0].entries@
                        == texture_layout_entries()
                    &&& s.render_pipeline.bind_group_layouts@[1].entries@
                        == camera_layout_entries()
                    &&& s.lost_streak == 0
                    &&& !s.retried_this_frame
                },
                Err(InitError::DiffuseImage(e)) => {
                    &&& e == TextureError::DecodeFailed
                    &&& decoded_rgba(diffuse_bytes@) is None
                },
                Err(InitError::ModelLoad(e)) => {
                    &&& decoded_rgba(diffuse_bytes@) is Some
                    &&& match e {
                        LoadError::MalformedGeometry => !geometry_ok(source),
                        LoadError::UnsupportedMaterial => geometry_ok(source) && !materials_ok(
                            source,
                        ),
                        LoadError::AssetNotFound => false,
                    }
                },
            },
    {
        let config = SurfaceConfig::configure(format, width, height);
        let (diffuse_texture, diffuse_pixels) = match Texture::from_bytes(diffuse_bytes) {
            Ok(tp) => tp,
            Err(e) => {
                return Err(InitError::DiffuseImage(e));
            },
        };
        let texture_layout = texture_bind_group_layout();
        let diffuse_bind_group = create_texture_bind_group();
        let camera = Camera {
            eye: [0, 0x3F80_0000, 0x4000_0000],
            target: [0, 0, 0],
            up: [0, 0x3F80_0000, 0],
            width,
            height,
            fovy: 0x4234_0000,
            znear: 0x3DCC_CCCD,
            zfar: 0x42C8_0000,
        };
        let camera_uniform = CameraUniform::new();
        let camera_bind_group = create_camera_bind_group();
        let camera_controller = CameraController::new(CAMERA_SPEED_BITS);
        let depth_texture = Texture::create_depth_texture(&config);
        let mut vertex_layouts: Vec<VertexBufferLayout> = Vec::new();
        vertex_layouts.push(ModelVertex::desc());
        vertex_layouts.push(InstanceRaw::desc());
        let mut bind_group_layouts: Vec<BindGroupLayout> = Vec::new();
        bind_group_layouts.push(texture_bind_group_layout());
        bind_group_layouts.push(camera_bind_group_layout());
        proof {
            let l0 = vertex_layouts@[0];
            let l1 = vertex_layouts@[1];
            assert forall|j: int| 0 <= j < l0.attributes@.len() implies #[trigger] attr_fits(
                l0,
                j,
            ) by {
                assert(0 <= j < 3);
            }
            assert forall|j: int|
                0 <= j && j + 1 < l0.attributes@.len() implies #[trigger] attrs_adjacent_ok(
                l0,
                j,
            ) by {
                assert(0 <= j < 2);
            }
            assert forall|j: int| 0 <= j < l1.attributes@.len() implies #[trigger] attr_fits(
                l1,
                j,
            ) by {
                assert(0 <= j < 4);
            }
            assert forall|j: int|
                0 <= j && j + 1 < l1.attributes@.len() implies #[trigger] attrs_adjacent_ok(
                l1,
                j,
            ) by {
                assert(0 <= j < 3);
            }
            assert(layout_wf(l0));
            assert(layout_wf(l1));
        }
        let render_pipeline = match build_pipeline(format, vertex_layouts, bind_group_layouts) {
            Ok(p) => p,
            Err(_) => {
                return vstd::pervasive::unreached();
            },
        };
        let obj_model = match load(source, &texture_layout) {
            Ok(m) => m,
            Err(e) => {
                return Err(InitError::ModelLoad(e));
            },
        };
        let instances = InstanceSet::build(NUM_INSTANCES_PER_ROW, SPACE_BETWEEN);
        Ok(
            State {
                config,
                size: PhysicalSize { width, height },
                render_pipeline,
                diffuse_texture,
                diffuse_pixels,
                diffuse_bind_group,
                camera,
                camera_uniform,
                camera_bind_group,
                camera_controller,
                instances,
                depth_texture,
                obj_model,
                lost_streak: 0,
                retried_this_frame: false,
            },
        )
    }

    /// Applies a resize: with both dimensions positive, the surface
    /// configuration, the reported size, the depth texture and the
    /// camera's aspect inputs all take the new dimensions; a zero
    /// dimension leaves everything unchanged.
    pub fn resize(&mut self, new_width: u32, new_height: u32)
        ensures
            new_width > 0 && new_height > 0 ==> *final(self) == (State {
                config: SurfaceConfig {
                    width: new_width,
                    height: new_height,
                    ..old(self).config
                },
                size: PhysicalSize { width: new_width, height: new_height },
                depth_texture: depth_texture_for(
                    SurfaceConfig { width: new_width, height: new_height, ..old(self).config },
                ),
                camera: Camera { width: new_width, height: new_height, ..old(self).camera },
                ..*old(self)
            }),
            !(new_width > 0 && new_height > 0) ==> *final(self) == *old(self),
            state_wf(*old(self)) ==> state_wf(*final(self)),
    {
        if new_width > 0 && new_height > 0 {
            self.size = PhysicalSize { width: new_width, height: new_height };
            self.config.width = new_width;
            self.config.height = new_height;
            self.depth_texture = Texture::create_depth_texture(&self.config);
            self.camera.width = new_width;
            self.camera.height = new_height;
        }
    }

    /// Feeds one window event to the camera controller; returns whether
    /// it was consumed.  Nothing but the controller changes.
    pub fn input(&mut self, event: &WindowEvent) -> (consumed: bool)
        ensures
            *final(self) == (State {
                camera_controller: controller_after(old(self).camera_controller, *event),
                ..*old(self)
            }),
            consumed == event_consumed(*event),
            state_wf(*old(self)) ==> state_wf(*final(self)),
    {
        self.camera_controller.process_events(event)
    }

    /// Applies the per-tick camera update.  The caller derives the moved
    /// eye and the new view-projection matrix (floating-point work) from
    /// the controller's movement decision; this records them.  Only the
    /// eye and the uniform change — in particular the target, up vector
    /// and projection parameters stay untouched.
    pub fn update(&mut self, new_eye: [u32; 3], view_proj: [u32; 16])
        ensures
            *final(self) == (State {
                camera: Camera { eye: new_eye, ..old(self).camera },
                camera_uniform: CameraUniform { view_proj },
                ..*old(self)
            }),
            state_wf(*old(self)) ==> state_wf(*final(self)),
    {
        self.camera.eye = new_eye;
        self.camera_uniform.update_view_proj(view_proj);
    }

    /// Starts a frame: the reconfigure-and-retry budget is fresh.
    pub fn begin_frame(&mut self)
        ensures
            *final(self) == (State { retried_this_frame: false, ..*old(self) }),
            state_wf(*old(self)) ==> state_wf(*final(self)),
    {
        self.retried_this_frame = false;
    }

    /// Decides the frame from one acquire outcome and updates the
    /// failure-tracking state; the caller performs the returned step.
    pub fn render(&mut self, outcome: AcquireOutcome) -> (step: FrameStep)
        ensures
            *final(self) == (State {
                lost_streak: next_lost_streak(old(self).lost_streak, outcome),
                retried_this_frame: next_retried(old(self).retried_this_frame, outcome),
                ..*old(self)
            }),
            step == acquire_action(old(self).lost_streak, old(self).retried_this_frame, outcome),
            state_wf(*old(self)) ==> state_wf(*final(self)),
    {
        match outcome {
            AcquireOutcome::Success => {
                self.lost_streak = 0;
                FrameStep::Render
            },
            AcquireOutcome::OutOfMemory => FrameStep::Fatal,
            AcquireOutcome::Lost => {
                if self.lost_streak < 3 {
                    self.lost_streak = self.lost_streak + 1;
                }
                let step = if self.lost_streak >= 3 {
                    FrameStep::Fatal
                } else if !self.retried_this_frame {
                    FrameStep::RetryAfterReconfigure
                } else {
                    FrameStep::SkipFrame
                };
                self.retried_this_frame = true;
                step
            },
            AcquireOutcome::Outdated => {
                self.lost_streak = 0;
                let step = if !self.retried_this_frame {
                    FrameStep::RetryAfterReconfigure
                } else {
                    FrameStep::SkipFrame
                };
                self.retried_this_frame = true;
                step
            },
            AcquireOutcome::Timeout => {
                self.lost_streak = 0;
                FrameStep::SkipFrame
            },
        }
    }

    /// Records one frame: the fixed clear values and the command
    /// sequence that draws every mesh of the model across the whole
    /// instance range.
    pub fn record_frame(&self) -> (plan: FramePlan)
        requires
            state_wf(*self),
        ensures
            plan.clear_color@ == seq![
                0x3FB9_9999_9999_999Au64,
                0x3FC9_9999_9999_999Au64,
                0x3FD3_3333_3333_3333u64,
                0x3FF0_0000_0000_0000u64,
            ],
            plan.clear_depth == 0x3F80_0000u32,
            plan.commands@ == frame_commands(
                self.obj_model,
                self.instances.instances@.len() as u32,
            ),
    {
        let instance_count = self.instances.instances.len() as u32;
        let mut commands: Vec<RenderCommand> = Vec::new();
        commands.push(RenderCommand::SetPipeline);
        proof {
            assert(commands@ =~= seq![RenderCommand::SetPipeline] + meshes_commands(
                self.obj_model,
                0,
                instance_count,
            ));
        }
        let mut i: usize = 0;
        while i < self.obj_model.meshes.len()
            invariant
                state_wf(*self),
                0 <= i <= self.obj_model.meshes@.len(),
                instance_count == self.instances.instances@.len(),
                commands@ == seq![RenderCommand::SetPipeline] + meshes_commands(
                    self.obj_model,
                    i as int,
                    instance_count,
                ),
            decreases self.obj_model.meshes@.len() - i,
        {
            let mesh = &self.obj_model.meshes[i];
            commands.push(
                RenderCommand::SetBindGroup {
                    slot: 0,
                    group: GroupRef::Material { index: mesh.material },
                },
            );
            commands.push(RenderCommand::SetBindGroup { slot: 1, group: GroupRef::CameraGroup });
            commands.push(
                RenderCommand::SetVertexBuffer {
                    slot: 0,
                    buffer: BufferRef::MeshVertices { mesh: i },
                },
            );
            commands.push(
                RenderCommand::SetVertexBuffer { slot: 1, buffer: BufferRef::InstanceBuffer },
            );
            commands.push(
                RenderCommand::SetIndexBuffer {
                    buffer: IndexBufferRef::MeshIndices { mesh: i },
                    format: IndexFormat::Uint32,
                },
            );
            commands.push(
                RenderCommand::DrawIndexed {
                    index_count: mesh.num_elements,
                    base_vertex: 0,
                    first_instance: 0,
                    instance_count,
                },
            );
            proof {
                assert(commands@ =~= seq![RenderCommand::SetPipeline] + meshes_commands(
                    self.obj_model,
                    i as int,
                    instance_count,
                ) + mesh_commands(self.obj_model, i as int, instance_count));
            }
            i = i + 1;
        }
        FramePlan {
            clear_color: [
                0x3FB9_9999_9999_999A,
                0x3FC9_9999_9999_999A,
                0x3FD3_3333_3333_3333,
                0x3FF0_0000_0000_0000,
            ],
            clear_depth: 0x3F80_0000,
            commands,
        }
    }
}

/// A command is valid for a model: every bind-group, vertex-buffer and
/// index-buffer reference names an existing material or mesh, and every
/// draw covers exactly the instance range.
pub open spec fn command_valid(c: RenderCommand, m: Model, instance_count: u32) -> bool {
    match c {
        RenderCommand::SetBindGroup { slot: _, group } => match group {
            GroupRef::Material { index } => index < m.materials@.len(),
            GroupRef::CameraGroup => true,
        },
        RenderCommand::SetVertexBuffer { slot: _, buffer } => match buffer {
            BufferRef::MeshVertices { mesh } => mesh < m.meshes@.len(),
            BufferRef::InstanceBuffer => true,
        },
        RenderCommand::SetIndexBuffer { buffer, format: _ } => match buffer {
            IndexBufferRef::MeshIndices { mesh } => mesh < m.meshes@.len(),
        },
        RenderCommand::DrawIndexed { index_count: _, base_vertex, first_instance, instance_count: n } => {
            base_vertex == 0 && first_instance == 0 && n == instance_count
        },
        RenderCommand::SetPipeline => true,
    }
}

/// The first `k` meshes record six commands each, all valid.
pub proof fn lemma_meshes_commands_valid(m: Model, k: int, instance_count: u32)
    requires
        model_wf(m),
        0 <= k <= m.meshes@.len(),
    ensures
        meshes_commands(m, k, instance_count).len() == 6 * k,
        forall|j: int|
            0 <= j < meshes_commands(m, k, instance_count).len() ==> command_valid(
                #[trigger] meshes_commands(m, k, instance_count)[j],
                m,
                instance_count,
            ),
    decreases k,
{
    if k > 0 {
        lemma_meshes_commands_valid(m, k - 1, instance_count);
        assert(mesh_wf(m.meshes@[k - 1], m.materials@.len() as int));
        assert forall|j: int|
            0 <= j < meshes_commands(m, k, instance_count).len() implies command_valid(
            #[trigger] meshes_commands(m, k, instance_count)[j],
            m,
            instance_count,
        ) by {
            if j < 6 * (k - 1) {
                assert(meshes_commands(m, k, instance_count)[j] == meshes_commands(
                    m,
                    k - 1,
                    instance_count,
                )[j]);
            } else {
                assert(meshes_commands(m, k, instance_count)[j] == mesh_commands(
                    m,
                    k - 1,
                    instance_count,
                )[j - 6 * (k - 1)]);
            }
        }
    }
}

/// Every command of a frame references an existing mesh or material of
/// the model, and every draw covers exactly the instance range: a
/// recorded frame can never name a missing buffer or bind group.
pub proof fn lemma_frame_commands_valid(m: Model, instance_count: u32)
    requires
        model_wf(m),
    ensures
        frame_commands(m, instance_count).len() == 1 + 6 * m.meshes@.len(),
        forall|j: int|
            0 <= j < frame_commands(m, instance_count).len() ==> command_valid(
                #[trigger] frame_commands(m, instance_count)[j],
                m,
                instance_count,
            ),
{
    lemma_meshes_commands_valid(m, m.meshes@.len() as int, instance_count);
    assert forall|j: int|
        0 <= j < frame_commands(m, instance_count).len() implies command_valid(
        #[trigger] frame_commands(m, instance_count)[j],
        m,
        instance_count,
    ) by {
        if j >= 1 {
            assert(frame_commands(m, instance_count)[j] == meshes_commands(
                m,
                m.meshes@.len() as int,
                instance_count,
            )[j - 1]);
        }
    }
}

/// An `Outdated` acquire with the frame's retry budget fresh asks for a
/// reconfigure-and-retry, and the retried acquire's success renders the
/// frame: the outdated surface never surfaces an error.
pub proof fn lemma_outdated_surface_recovers(streak: u32)
    ensures
        acquire_action(streak, false, AcquireOutcome::Outdated)
            == FrameStep::RetryAfterReconfigure,
        acquire_action(
            next_lost_streak(streak, AcquireOutcome::Outdated),
            next_retried(false, AcquireOutcome::Outdated),
            AcquireOutcome::Success,
        ) == FrameStep::Render,
{
}

/// Three consecutive `Lost` acquires are fatal: the first asks for a
/// retry, the second (same frame) skips the frame, and the third (the
/// next frame, retry budget fresh) gives up.
pub proof fn lemma_three_consecutive_lost_fatal()
    ensures
        acquire_action(0, false, AcquireOutcome::Lost) == FrameStep::RetryAfterReconfigure,
        acquire_action(
            next_lost_streak(0, AcquireOutcome::Lost),
            next_retried(false, AcquireOutcome::Lost),
            AcquireOutcome::Lost,
        ) == FrameStep::SkipFrame,
        acquire_action(
            next_lost_streak(next_lost_streak(0, AcquireOutcome::Lost), AcquireOutcome::Lost),
            false,
            AcquireOutcome::Lost,
        ) == FrameStep::Fatal,
{
}

} // verus!
