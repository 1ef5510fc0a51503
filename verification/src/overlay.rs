//! The overlay: a user interface drawn over the cube.
//!
//! The widgets, their layout and the input that reaches them belong to the
//! host's user-interface backend. What is fixed here is how that backend is
//! set up and where its drawing stands among the commands of a frame.
use vstd::prelude::*;
use crate::command::{Command, Encoder, LoadOp};
use crate::recording::{OverlayPhase, Phase, Recording, lemma_after_push};

verus! {

/// How the backend that draws the overlay is set up.
#[derive(Clone, Copy, Debug, PartialEq, Eq)]
pub struct RendererOptions {
    /// Samples per pixel; 0 leaves multisampling off.
    pub msaa_samples: u32,
    /// The format of the depth buffer that the overlay's pass has, if any.
    pub depth_stencil_format: Option<wgpu::TextureFormat>,
    pub dithering: bool,
    pub predictable_texture_filtering: bool,
}

/// The overlay renderer.
#[derive(Clone, Copy, Debug, PartialEq, Eq)]
pub struct EguiInterface {
    pub output_color_format: wgpu::TextureFormat,
    pub options: RendererOptions,
}

/// The commands that draw the overlay: the user interface runs, its textures
/// and buffers go to the GPU, and one pass on the given encoder draws its
/// triangles over what the target already shows. The textures that it gave up
/// are freed when the pass has ended.
pub open spec fn overlay_pass(encoder: Encoder) -> Seq<Command> {
    seq![
        Command::OverlayRun,
        Command::OverlayUpload(encoder),
        Command::BeginPass { encoder, load: LoadOp::Load },
        Command::OverlayDraw,
        Command::EndPass(encoder),
        Command::OverlayFree,
    ]
}

impl EguiInterface {
    /// The overlay for targets of the given format: drawn without
    /// multisampling, depth buffer or dithering.
    pub open spec fn for_format(format: wgpu::TextureFormat) -> EguiInterface {
        EguiInterface {
            output_color_format: format,
            options: RendererOptions {
                msaa_samples: 0,
                depth_stencil_format: None,
                dithering: false,
                predictable_texture_filtering: false,
            },
        }
    }

    /// An overlay for targets of the given format.
    pub fn new(output_color_format: wgpu::TextureFormat) -> (overlay: EguiInterface)
        ensures
            overlay == EguiInterface::for_format(output_color_format),
    {
        EguiInterface {
            output_color_format,
            options: RendererOptions {
                msaa_samples: 0,
                depth_stencil_format: None,
                dithering: false,
                predictable_texture_filtering: false,
            },
        }
    }

    /// The command that offers a window event to the overlay. It comes
    /// before the application looks at the event.
    pub fn handle_input(&self) -> (command: Command)
        ensures
            command == Command::OverlayInput,
    {
        Command::OverlayInput
    }

    /// Draws the overlay for one frame into the given encoder, which the
    /// caller has opened and will submit.
    pub fn render(&self, encoder: Encoder) -> (commands: Vec<Command>)
        ensures
            commands@ == overlay_pass(encoder),
    {
        vec![
            Command::OverlayRun,
            Command::OverlayUpload(encoder),
            Command::BeginPass { encoder, load: LoadOp::Load },
            Command::OverlayDraw,
            Command::EndPass(encoder),
            Command::OverlayFree,
        ]
    }
}

/// The overlay's commands are in order wherever a target exists, the encoder
/// is open, no pass is open and the overlay is idle. They leave the encoder
/// open for the caller to submit, with the overlay's pass begun and ended.
pub proof fn lemma_overlay_pass_in_order(start: Recording, encoder: Encoder)
    requires
        start.viewed,
        !start.pass_open(),
        start.phase(encoder) == Phase::Recording,
        start.overlay == OverlayPhase::Idle,
    ensures
        start.after(overlay_pass(encoder)) == Some(start.unbound()),
{
    let c0 = Seq::<Command>::empty();
    let c1 = c0.push(Command::OverlayRun);
    let c2 = c1.push(Command::OverlayUpload(encoder));
    let c3 = c2.push(Command::BeginPass { encoder, load: LoadOp::Load });
    let c4 = c3.push(Command::OverlayDraw);
    let c5 = c4.push(Command::EndPass(encoder));
    let c6 = c5.push(Command::OverlayFree);
    assert(start.after(c0) == Some(start));
    lemma_after_push(start, c0, Command::OverlayRun);
    lemma_after_push(start, c1, Command::OverlayUpload(encoder));
    lemma_after_push(start, c2, Command::BeginPass { encoder, load: LoadOp::Load });
    lemma_after_push(start, c3, Command::OverlayDraw);
    lemma_after_push(start, c4, Command::EndPass(encoder));
    lemma_after_push(start, c5, Command::OverlayFree);
    assert(c6 =~= overlay_pass(encoder));
}

} // verus!
