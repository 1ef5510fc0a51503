//! The vocabulary in which the library tells its host what to do: sizes,
//! surface configurations, and the commands of a frame.
//!
//! The library owns no GPU object and no window. It decides, and hands the
//! decision back as plain values; the host carries each command out in the
//! order given.
use vstd::prelude::*;

verus! {

/// The format of a texture. The library picks one and hands it on; it never
/// looks inside.
#[verifier::external_type_specification]
#[verifier::external_body]
pub struct ExTextureFormat(wgpu::TextureFormat);

/// The size of a drawable surface in physical pixels.
#[derive(Clone, Copy, Debug, PartialEq, Eq, Structural)]
pub struct Size {
    pub width: u32,
    pub height: u32,
}

impl Size {
    /// A surface of this size has pixels to show.
    pub open spec fn presentable(self) -> bool {
        self.width > 0 && self.height > 0
    }

    pub fn new(width: u32, height: u32) -> (size: Size)
        ensures
            size == (Size { width, height }),
    {
        Size { width, height }
    }

    pub fn is_presentable(&self) -> (yes: bool)
        ensures
            yes == self.presentable(),
        no_unwind
    {
        self.width > 0 && self.height > 0
    }
}

/// What the matrices of a frame are computed from: the animation step, and
/// the surface whose width over height is the aspect ratio.
#[derive(Clone, Copy, Debug, PartialEq, Eq, Structural)]
pub struct UniformInputs {
    pub step: u64,
    pub surface: Size,
}

/// A colour with its channels counted in halves: 0 is none of a channel, 1 is
/// half of it, 2 is all of it.
#[derive(Clone, Copy, Debug, PartialEq, Eq, Structural)]
pub struct Color {
    pub r: u8,
    pub g: u8,
    pub b: u8,
    pub a: u8,
}

/// What a render pass does to its target before the first draw.
#[derive(Clone, Copy, Debug, PartialEq, Eq, Structural)]
pub enum LoadOp {
    /// Fill it with one colour.
    Clear(Color),
    /// Keep what earlier passes drew.
    Load,
}

/// The command encoders of a frame.
#[derive(Clone, Copy, Debug, PartialEq, Eq, Structural)]
pub enum Encoder {
    /// The cube renderer's own.
    Cube,
    /// The one that the render context opens for the whole frame.
    Frame,
}

/// The width of an entry of an index buffer.
#[derive(Clone, Copy, Debug, PartialEq, Eq, Structural)]
pub enum IndexFormat {
    Uint16,
    Uint32,
}

/// When a finished frame reaches the display.
#[derive(Clone, Copy, Debug, PartialEq, Eq, Structural)]
pub enum PresentMode {
    /// Wait for the display, in the way the platform does best.
    AutoVsync,
    /// Do not wait, in the way the platform does best.
    AutoNoVsync,
}

/// How the surface is blended with what lies behind the window.
#[derive(Clone, Copy, Debug, PartialEq, Eq, Structural)]
pub enum CompositeAlphaMode {
    /// Whatever the platform prefers.
    Auto,
    /// The alpha channel is ignored.
    Opaque,
}

/// What the textures of a surface are used for.
#[derive(Clone, Copy, Debug, PartialEq, Eq, Structural)]
pub enum TextureUsage {
    /// A render pass draws to them.
    RenderAttachment,
    /// They are copied from.
    CopySrc,
    /// They are copied to.
    CopyDst,
    /// A shader samples them.
    TextureBinding,
    /// A shader reads and writes them.
    StorageBinding,
}

/// The agreement between the application and the presentation engine.
#[derive(Clone, Copy, Debug, PartialEq, Eq)]
pub struct SurfaceConfiguration {
    pub usage: TextureUsage,
    pub format: wgpu::TextureFormat,
    pub width: u32,
    pub height: u32,
    pub present_mode: PresentMode,
    pub desired_maximum_frame_latency: u32,
    pub alpha_mode: CompositeAlphaMode,
    /// The one format in which views of the surface's textures are made.
    pub view_format: wgpu::TextureFormat,
}

/// One thing for the host to do.
#[derive(Clone, Copy, Debug, PartialEq, Eq)]
pub enum Command {
    /// Offer the window event at hand to the overlay's input handling.
    OverlayInput,
    /// Replace the surface's configuration.
    ConfigureSurface(SurfaceConfiguration),
    /// Compute the matrices from these inputs and write them to the start of
    /// the uniform buffer.
    WriteUniforms(UniformInputs),
    /// Take the next texture of the surface.
    AcquireTexture,
    /// Make a view of the acquired texture in this format: the frame's target.
    CreateView(wgpu::TextureFormat),
    /// Open a command encoder.
    CreateEncoder(Encoder),
    /// Begin a render pass on the target. What it draws is stored.
    BeginPass { encoder: Encoder, load: LoadOp },
    /// Bind the cube's pipeline in the open pass.
    SetPipeline,
    /// Bind the cube's bind group at this index.
    SetBindGroup(u32),
    /// Bind the whole vertex buffer to this slot.
    SetVertexBuffer(u32),
    /// Bind the whole index buffer, its entries in this format.
    SetIndexBuffer(IndexFormat),
    /// Draw the first `indices` entries of the index buffer, `instances`
    /// times over, from base vertex 0.
    DrawIndexed { indices: u32, instances: u32 },
    /// Collect the input that the overlay has gathered, run one frame of the
    /// user interface and turn its shapes into triangles.
    OverlayRun,
    /// Upload the overlay's changed textures and its buffers, recording the
    /// copies into this encoder.
    OverlayUpload(Encoder),
    /// Draw the overlay's triangles in the open pass.
    OverlayDraw,
    /// Free the textures that the overlay has given up.
    OverlayFree,
    /// End the render pass that is open on this encoder.
    EndPass(Encoder),
    /// Finish this encoder and submit its commands to the queue.
    Submit(Encoder),
    /// Tell the window that a frame is about to be presented.
    PrePresentNotify,
    /// Present the acquired texture.
    Present,
    /// Ask the window for another redraw.
    RequestRedraw,
    /// Leave the event loop.
    Exit,
}

} // verus!
