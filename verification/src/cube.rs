//! The cube renderer: what it keeps on the GPU, how far the animation has
//! come, and the commands that draw one frame of it.
use vstd::prelude::*;
use crate::command::{Color, Command, Encoder, IndexFormat, LoadOp, Size, UniformInputs};
use crate::geometry::{
    create_vertices, cube_vertices, index_bytes, stored, Vertex, VertexBufferLayout, StepMode,
    VertexAttribute, CUBE_COLORS, CUBE_INDICES, CUBE_NORMALS, CUBE_VERTICES,
};
use crate::recording::{Phase, Recording, lemma_after_push};

verus! {

/// The bytes of the uniform buffer: three matrices of four by four 32-bit
/// floating-point numbers.
pub const UNIFORM_BYTES: u64 = 192;

/// How the vertices that reach the rasteriser are joined.
#[derive(Clone, Copy, Debug, PartialEq, Eq, Structural)]
pub enum PrimitiveTopology {
    PointList,
    LineList,
    LineStrip,
    TriangleList,
    TriangleStrip,
}

/// The winding of a triangle that shows its front.
#[derive(Clone, Copy, Debug, PartialEq, Eq, Structural)]
pub enum FrontFace {
    Ccw,
    Cw,
}

/// A side of a triangle.
#[derive(Clone, Copy, Debug, PartialEq, Eq, Structural)]
pub enum Face {
    Front,
    Back,
}

/// The fixed pipeline of the cube: one vertex stage fed from one vertex
/// buffer, one fragment stage that writes one colour target.
#[derive(Debug, PartialEq, Eq)]
pub struct Pipeline {
    pub vertex_layout: VertexBufferLayout,
    pub topology: PrimitiveTopology,
    pub front_face: FrontFace,
    /// The side of a triangle that is not drawn.
    pub cull_mode: Option<Face>,
    /// Whether the pipeline tests against a depth buffer.
    pub depth_stencil: bool,
    pub target_format: wgpu::TextureFormat,
}

impl Pipeline {
    /// The cube's pipeline for a target of the given format: a list of
    /// triangles that show their front when they wind counter-clockwise,
    /// drawn without their backs and without a depth buffer.
    pub open spec fn draws_cube(self, format: wgpu::TextureFormat) -> bool {
        &&& self.vertex_layout.step_mode == StepMode::Vertex
        &&& self.vertex_layout.array_stride == 36
        &&& self.vertex_layout.attributes@.len() == 3
        &&& forall|i: int|
            0 <= i < 3 ==> #[trigger] self.vertex_layout.attributes@[i] == (VertexAttribute {
                shader_location: i as u32,
                offset: (12 * i) as u64,
                components: 3,
            })
        &&& self.vertex_layout.packed()
        &&& self.topology == PrimitiveTopology::TriangleList
        &&& self.front_face == FrontFace::Ccw
        &&& self.cull_mode == Some(Face::Back)
        &&& !self.depth_stencil
        &&& self.target_format == format
    }
}

/// The one binding of the cube's bind group: a uniform buffer that the vertex
/// stage reads, at least `min_binding_size` bytes long.
#[derive(Clone, Copy, Debug, PartialEq, Eq, Structural)]
pub struct BindGroup {
    pub binding: u32,
    pub min_binding_size: u64,
}

/// The grey that the cube is drawn on.
pub open spec fn clear_color() -> Color {
    Color { r: 1, g: 1, b: 1, a: 2 }
}

/// The commands that draw the cube once: the uniforms are written first, then
/// one encoder records one pass, which clears the target, binds what the draw
/// needs and draws all 36 indices as one instance; the pass ends before the
/// encoder is submitted.
pub open spec fn cube_pass(uniforms: UniformInputs) -> Seq<Command> {
    seq![
        Command::WriteUniforms(uniforms),
        Command::CreateEncoder(Encoder::Cube),
        Command::BeginPass { encoder: Encoder::Cube, load: LoadOp::Clear(clear_color()) },
        Command::SetPipeline,
        Command::SetBindGroup(0),
        Command::SetVertexBuffer(0),
        Command::SetIndexBuffer(IndexFormat::Uint16),
        Command::DrawIndexed { indices: 36, instances: 1 },
        Command::EndPass(Encoder::Cube),
        Command::Submit(Encoder::Cube),
    ]
}

/// The one draw of the cube's commands covers the whole triangle list, once.
pub proof fn lemma_draw_covers_mesh(uniforms: UniformInputs)
    ensures
        cube_pass(uniforms)[7] == (Command::DrawIndexed {
            indices: CUBE_INDICES@.len() as u32,
            instances: 1,
        }),
        forall|i: int|
            0 <= i < cube_pass(uniforms).len() && i != 7 ==> !(#[trigger] cube_pass(
                uniforms,
            )[i] is DrawIndexed),
{
}

/// What a cube renderer is, apart from the buffers and the pipeline that
/// never change.
pub struct CubeView {
    /// The frames rendered so far.
    pub step: u64,
    /// The surface whose width over height is the aspect ratio.
    pub aspect_ratio: Size,
    /// What the matrices in the uniform buffer were computed from.
    pub uniform_buffer: UniformInputs,
    /// The format of the target that the pipeline writes.
    pub target_format: wgpu::TextureFormat,
}

impl CubeView {
    /// The aspect ratio is a positive number, in the renderer and in the
    /// uniform buffer.
    pub open spec fn well_formed(self) -> bool {
        self.aspect_ratio.presentable() && self.uniform_buffer.surface.presentable()
    }

    /// A new renderer: no frame rendered, a square surface.
    pub open spec fn initial(format: wgpu::TextureFormat) -> CubeView {
        CubeView {
            step: 0,
            aspect_ratio: Size { width: 1, height: 1 },
            uniform_buffer: UniformInputs { step: 0, surface: Size { width: 1, height: 1 } },
            target_format: format,
        }
    }

    /// The renderer after a resize. A size without pixels has no aspect
    /// ratio and changes nothing; any other becomes the aspect ratio and is
    /// written to the uniform buffer with the current step.
    pub open spec fn resized(self, size: Size) -> CubeView {
        if size.presentable() {
            CubeView {
                aspect_ratio: size,
                uniform_buffer: UniformInputs { step: self.step, surface: size },
                ..self
            }
        } else {
            self
        }
    }

    /// The renderer after one frame: the uniform buffer holds the step that
    /// the frame was drawn with, and the step has moved on by one.
    pub open spec fn rendered(self) -> CubeView {
        CubeView {
            step: (self.step + 1) as u64,
            uniform_buffer: UniformInputs { step: self.step, surface: self.aspect_ratio },
            ..self
        }
    }

    /// The renderer after `frames` frames.
    pub open spec fn rendered_times(self, frames: nat) -> CubeView
        decreases frames,
    {
        if frames == 0 {
            self
        } else {
            self.rendered_times((frames - 1) as nat).rendered()
        }
    }
}

/// The cube renderer.
#[derive(Debug, PartialEq, Eq)]
pub struct Cube {
    vertex_buffer: Vec<Vertex>,
    index_buffer: Vec<u8>,
    uniform_buffer: UniformInputs,
    pipeline: Pipeline,
    bind_group: BindGroup,
    aspect_ratio: Size,
    step: u64,
}

impl View for Cube {
    type V = CubeView;

    closed spec fn view(&self) -> CubeView {
        CubeView {
            step: self.step,
            aspect_ratio: self.aspect_ratio,
            uniform_buffer: self.uniform_buffer,
            target_format: self.pipeline.target_format,
        }
    }
}

impl Cube {
    #[verifier::type_invariant]
    spec fn inv(self) -> bool {
        &&& self.aspect_ratio.presentable()
        &&& self.uniform_buffer.surface.presentable()
        &&& self.vertex_buffer@ == cube_vertices()
        &&& stored(CUBE_INDICES@, self.index_buffer@)
        &&& self.pipeline.draws_cube(self.pipeline.target_format)
        &&& self.bind_group == (BindGroup { binding: 0, min_binding_size: 192 })
    }

    /// A renderer that draws to targets of the given format. Nothing is
    /// rendered yet, and the aspect ratio is that of a square.
    pub fn new(texture_format: wgpu::TextureFormat) -> (cube: Cube)
        ensures
            cube@ == CubeView::initial(texture_format),
            cube@.well_formed(),
    {
        let vertex_buffer = create_vertices(&CUBE_VERTICES, &CUBE_COLORS, &CUBE_NORMALS);
        assert(vertex_buffer@ =~= cube_vertices());
        let index_buffer = index_bytes(&CUBE_INDICES);
        let step: u64 = 0;
        let aspect_ratio = Size { width: 1, height: 1 };
        let pipeline = Pipeline {
            vertex_layout: Vertex::buffer_layout(),
            topology: PrimitiveTopology::TriangleList,
            front_face: FrontFace::Ccw,
            cull_mode: Some(Face::Back),
            depth_stencil: false,
            target_format: texture_format,
        };
        Cube {
            vertex_buffer,
            index_buffer,
            uniform_buffer: UniformInputs { step, surface: aspect_ratio },
            pipeline,
            bind_group: BindGroup { binding: 0, min_binding_size: UNIFORM_BYTES },
            aspect_ratio,
            step,
        }
    }

    /// Takes the new size of the surface. Where the size has pixels, it
    /// becomes the aspect ratio, and the command returned writes the uniforms
    /// anew; the step stays. Where it has none, nothing changes and there is
    /// nothing to write.
    pub fn resize(&mut self, new_size: Size) -> (write: Option<Command>)
        ensures
            final(self)@ == old(self)@.resized(new_size),
            final(self)@.well_formed(),
            write == (if new_size.presentable() {
                Some(Command::WriteUniforms(final(self)@.uniform_buffer))
            } else {
                None
            }),
        no_unwind
    {
        proof {
            use_type_invariant(&*self);
        }
        if new_size.is_presentable() {
            self.aspect_ratio = new_size;
            self.uniform_buffer = UniformInputs { step: self.step, surface: new_size };
            Some(Command::WriteUniforms(self.uniform_buffer))
        } else {
            None
        }
    }

    /// Begins a frame: stores the inputs of its uniforms, which are those of
    /// the step so far, and moves the step on by one.
    pub(crate) fn advance(&mut self) -> (uniforms: UniformInputs)
        requires
            old(self)@.step < u64::MAX,
        ensures
            final(self)@ == old(self)@.rendered(),
            final(self)@.well_formed(),
            uniforms == final(self)@.uniform_buffer,
        no_unwind
    {
        proof {
            use_type_invariant(&*self);
        }
        self.uniform_buffer = UniformInputs { step: self.step, surface: self.aspect_ratio };
        self.step += 1;
        self.uniform_buffer
    }

    /// The commands that draw the cube with the given uniforms.
    pub(crate) fn pass(uniforms: UniformInputs) -> (commands: Vec<Command>)
        ensures
            commands@ == cube_pass(uniforms),
    {
        vec![
            Command::WriteUniforms(uniforms),
            Command::CreateEncoder(Encoder::Cube),
            Command::BeginPass {
                encoder: Encoder::Cube,
                load: LoadOp::Clear(Color { r: 1, g: 1, b: 1, a: 2 }),
            },
            Command::SetPipeline,
            Command::SetBindGroup(0),
            Command::SetVertexBuffer(0),
            Command::SetIndexBuffer(IndexFormat::Uint16),
            Command::DrawIndexed { indices: 36, instances: 1 },
            Command::EndPass(Encoder::Cube),
            Command::Submit(Encoder::Cube),
        ]
    }

    /// Draws one frame: returns its commands and moves the step on by one.
    /// The uniforms of the frame are those of the step before the move.
    pub fn render(&mut self) -> (commands: Vec<Command>)
        requires
            old(self)@.step < u64::MAX,
        ensures
            final(self)@ == old(self)@.rendered(),
            final(self)@.well_formed(),
            commands@ == cube_pass(final(self)@.uniform_buffer),
    {
        let uniforms = self.advance();
        Cube::pass(uniforms)
    }

    /// The frames rendered so far.
    pub fn step(&self) -> (step: u64)
        ensures
            step == self@.step,
    {
        self.step
    }

    /// The surface whose width over height is the aspect ratio. It has
    /// pixels, so the ratio is a positive number.
    pub fn aspect_ratio(&self) -> (surface: Size)
        ensures
            surface == self@.aspect_ratio,
            surface.presentable(),
    {
        proof {
            use_type_invariant(self);
        }
        self.aspect_ratio
    }

    /// What the matrices in the uniform buffer were computed from.
    pub fn uniform_buffer(&self) -> (uniforms: UniformInputs)
        ensures
            uniforms == self@.uniform_buffer,
            uniforms.surface.presentable(),
    {
        proof {
            use_type_invariant(self);
        }
        self.uniform_buffer
    }

    /// The content of the vertex buffer: the cube's 24 vertices.
    pub fn vertex_buffer(&self) -> (vertices: &Vec<Vertex>)
        ensures
            vertices@ == cube_vertices(),
    {
        proof {
            use_type_invariant(self);
        }
        &self.vertex_buffer
    }

    /// The content of the index buffer: the cube's 36 indices as this
    /// machine's memory holds them, two bytes each.
    pub fn index_buffer(&self) -> (bytes: &Vec<u8>)
        ensures
            stored(CUBE_INDICES@, bytes@),
            bytes@.len() == 72,
    {
        proof {
            use_type_invariant(self);
        }
        &self.index_buffer
    }

    /// The pipeline that draws the cube.
    pub fn pipeline(&self) -> (pipeline: &Pipeline)
        ensures
            pipeline.draws_cube(self@.target_format),
    {
        proof {
            use_type_invariant(self);
        }
        &self.pipeline
    }

    /// The binding of the uniform buffer: binding 0, and room for the three
    /// matrices.
    pub fn bind_group(&self) -> (bind_group: BindGroup)
        ensures
            bind_group == (BindGroup { binding: 0, min_binding_size: 192 }),
    {
        proof {
            use_type_invariant(self);
        }
        self.bind_group
    }
}

/// After any number of frames the step has moved on by that number, and
/// nothing else of the renderer has changed but the uniform buffer.
pub proof fn lemma_render_counts_frames(cube: CubeView, frames: nat)
    requires
        cube.step + frames <= u64::MAX,
    ensures
        cube.rendered_times(frames).step == cube.step + frames,
        cube.rendered_times(frames).aspect_ratio == cube.aspect_ratio,
        cube.rendered_times(frames).target_format == cube.target_format,
    decreases frames,
{
    if frames > 0 {
        lemma_render_counts_frames(cube, (frames - 1) as nat);
    }
}

/// A frame is drawn with the step that the renderer had before it.
pub proof fn lemma_frame_uses_step_before(cube: CubeView)
    ensures
        cube.rendered().uniform_buffer == (UniformInputs {
            step: cube.step,
            surface: cube.aspect_ratio,
        }),
{
}

/// Resizing twice to one size is resizing once: the aspect ratio and the
/// uniform buffer are the same after the second call as after the first.
pub proof fn lemma_resize_idempotent(cube: CubeView, size: Size)
    ensures
        cube.resized(size).resized(size) == cube.resized(size),
{
}

/// Resizing leaves the step alone, and a well-formed renderer well formed.
pub proof fn lemma_resize_keeps_step(cube: CubeView, size: Size)
    ensures
        cube.resized(size).step == cube.step,
        cube.well_formed() ==> cube.resized(size).well_formed(),
{
}

/// The cube's commands are in order wherever a target exists, no pass is open
/// and the cube's encoder is not open: the uniforms are written before the
/// draw that reads them, the draw lies inside the pass with all it needs
/// bound, and the pass has ended when the encoder is submitted.
pub proof fn lemma_cube_pass_in_order(start: Recording, uniforms: UniformInputs)
    requires
        start.viewed,
        !start.pass_open(),
        start.cube != Phase::Recording,
    ensures
        start.after(cube_pass(uniforms)) == Some(
            Recording { uniforms: true, cube: Phase::Submitted, ..start.unbound() },
        ),
{
    let c0 = Seq::<Command>::empty();
    let c1 = c0.push(Command::WriteUniforms(uniforms));
    let c2 = c1.push(Command::CreateEncoder(Encoder::Cube));
    let c3 = c2.push(
        Command::BeginPass { encoder: Encoder::Cube, load: LoadOp::Clear(clear_color()) },
    );
    let c4 = c3.push(Command::SetPipeline);
    let c5 = c4.push(Command::SetBindGroup(0));
    let c6 = c5.push(Command::SetVertexBuffer(0));
    let c7 = c6.push(Command::SetIndexBuffer(IndexFormat::Uint16));
    let c8 = c7.push(Command::DrawIndexed { indices: 36, instances: 1 });
    let c9 = c8.push(Command::EndPass(Encoder::Cube));
    let c10 = c9.push(Command::Submit(Encoder::Cube));
    assert(start.after(c0) == Some(start));
    lemma_after_push(start, c0, Command::WriteUniforms(uniforms));
    lemma_after_push(start, c1, Command::CreateEncoder(Encoder::Cube));
    lemma_after_push(
        start,
        c2,
        Command::BeginPass { encoder: Encoder::Cube, load: LoadOp::Clear(clear_color()) },
    );
    lemma_after_push(start, c3, Command::SetPipeline);
    lemma_after_push(start, c4, Command::SetBindGroup(0));
    lemma_after_push(start, c5, Command::SetVertexBuffer(0));
    lemma_after_push(start, c6, Command::SetIndexBuffer(IndexFormat::Uint16));
    lemma_after_push(start, c7, Command::DrawIndexed { indices: 36, instances: 1 });
    lemma_after_push(start, c8, Command::EndPass(Encoder::Cube));
    lemma_after_push(start, c9, Command::Submit(Encoder::Cube));
    assert(c10 =~= cube_pass(uniforms));
}

} // verus!
