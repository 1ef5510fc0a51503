//! The order in which the commands of a frame may come.
//!
//! A `Recording` is what a host knows of a frame in the making: whether the
//! target exists, which encoders are open, what the open pass has bound. Each
//! command is allowed in some states and leads to the next; a list of
//! commands is in order when each is allowed where it stands.
use vstd::prelude::*;
use crate::command::{Command, Encoder};

verus! {

/// The life of a command encoder within a frame.
#[derive(Clone, Copy, Debug, PartialEq, Eq, Structural)]
pub enum Phase {
    /// Not opened.
    Absent,
    /// Open, with no render pass open on it.
    Recording,
    /// Open, with a render pass open on it.
    InPass,
    /// Finished and submitted.
    Submitted,
}

/// How far the overlay has come within a frame.
#[derive(Clone, Copy, Debug, PartialEq, Eq, Structural)]
pub enum OverlayPhase {
    /// Nothing to draw, or all of it done.
    Idle,
    /// The user interface has run.
    Ran,
    /// Its textures and buffers are on the GPU.
    Uploaded,
    /// Its triangles are drawn.
    Drawn,
}

/// The state of a frame in the making.
#[derive(Clone, Copy, Debug, PartialEq, Eq, Structural)]
pub struct Recording {
    /// A texture of the surface is acquired and not yet presented.
    pub acquired: bool,
    /// The target view exists.
    pub viewed: bool,
    /// The uniform buffer holds this frame's matrices.
    pub uniforms: bool,
    pub cube: Phase,
    pub frame: Phase,
    /// What the open pass has bound; all false while none is open.
    pub pipeline: bool,
    pub bind_group: bool,
    pub vertex_buffer: bool,
    pub index_buffer: bool,
    pub overlay: OverlayPhase,
}

impl Recording {
    /// Between two frames: nothing acquired, nothing open.
    pub open spec fn idle() -> Recording {
        Recording {
            acquired: false,
            viewed: false,
            uniforms: false,
            cube: Phase::Absent,
            frame: Phase::Absent,
            pipeline: false,
            bind_group: false,
            vertex_buffer: false,
            index_buffer: false,
            overlay: OverlayPhase::Idle,
        }
    }

    pub open spec fn phase(self, encoder: Encoder) -> Phase {
        match encoder {
            Encoder::Cube => self.cube,
            Encoder::Frame => self.frame,
        }
    }

    pub open spec fn with_phase(self, encoder: Encoder, phase: Phase) -> Recording {
        match encoder {
            Encoder::Cube => Recording { cube: phase, ..self },
            Encoder::Frame => Recording { frame: phase, ..self },
        }
    }

    /// A render pass is open on one of the encoders.
    pub open spec fn pass_open(self) -> bool {
        self.cube == Phase::InPass || self.frame == Phase::InPass
    }

    /// An encoder is open: its commands are not submitted yet.
    pub open spec fn encoder_open(self) -> bool {
        self.cube == Phase::Recording || self.cube == Phase::InPass || self.frame
            == Phase::Recording || self.frame == Phase::InPass
    }

    /// The same state with nothing bound.
    pub open spec fn unbound(self) -> Recording {
        Recording {
            pipeline: false,
            bind_group: false,
            vertex_buffer: false,
            index_buffer: false,
            ..self
        }
    }

    /// The state after `command`, or `None` where the command is out of
    /// order.
    ///
    /// - A texture is acquired once per frame, viewed once, and presented
    ///   only when every encoder that was opened has been submitted and the
    ///   overlay is through. Presenting ends the frame.
    /// - The surface is not reconfigured while one of its textures is out.
    /// - An encoder is opened when it is not open already. A pass begins on
    ///   an open encoder, on an existing target, while no other pass is open.
    ///   An encoder is submitted when it is open and its pass has ended.
    /// - Binding and drawing happen inside a pass. An indexed draw needs the
    ///   pipeline, the bind group, both buffers, and this frame's uniforms.
    /// - The overlay runs, uploads into an open encoder outside a pass, draws
    ///   inside a pass, and frees outside a pass, in that order.
    pub open spec fn step(self, command: Command) -> Option<Recording> {
        match command {
            Command::OverlayInput | Command::PrePresentNotify | Command::RequestRedraw
            | Command::Exit => Some(self),
            Command::ConfigureSurface(_) => if !self.acquired {
                Some(self)
            } else {
                None
            },
            Command::WriteUniforms(_) => Some(Recording { uniforms: true, ..self }),
            Command::AcquireTexture => if !self.acquired {
                Some(Recording { acquired: true, ..self })
            } else {
                None
            },
            Command::CreateView(_) => if self.acquired && !self.viewed {
                Some(Recording { viewed: true, ..self })
            } else {
                None
            },
            Command::CreateEncoder(encoder) => if self.phase(encoder) == Phase::Absent
                || self.phase(encoder) == Phase::Submitted {
                Some(self.with_phase(encoder, Phase::Recording))
            } else {
                None
            },
            Command::BeginPass { encoder, load } => if self.viewed && !self.pass_open()
                && self.phase(encoder) == Phase::Recording {
                Some(self.unbound().with_phase(encoder, Phase::InPass))
            } else {
                None
            },
            Command::SetPipeline => if self.pass_open() {
                Some(Recording { pipeline: true, ..self })
            } else {
                None
            },
            Command::SetBindGroup(_) => if self.pass_open() {
                Some(Recording { bind_group: true, ..self })
            } else {
                None
            },
            Command::SetVertexBuffer(_) => if self.pass_open() {
                Some(Recording { vertex_buffer: true, ..self })
            } else {
                None
            },
            Command::SetIndexBuffer(_) => if self.pass_open() {
                Some(Recording { index_buffer: true, ..self })
            } else {
                None
            },
            Command::DrawIndexed { indices, instances } => if self.pass_open() && self.uniforms
                && self.pipeline && self.bind_group && self.vertex_buffer && self.index_buffer {
                Some(self)
            } else {
                None
            },
            Command::OverlayRun => if self.overlay == OverlayPhase::Idle {
                Some(Recording { overlay: OverlayPhase::Ran, ..self })
            } else {
                None
            },
            Command::OverlayUpload(encoder) => if self.overlay == OverlayPhase::Ran
                && self.phase(encoder) == Phase::Recording {
                Some(Recording { overlay: OverlayPhase::Uploaded, ..self })
            } else {
                None
            },
            Command::OverlayDraw => if self.overlay == OverlayPhase::Uploaded
                && self.pass_open() {
                Some(Recording { overlay: OverlayPhase::Drawn, ..self })
            } else {
                None
            },
            Command::OverlayFree => if self.overlay == OverlayPhase::Drawn && !self.pass_open() {
                Some(Recording { overlay: OverlayPhase::Idle, ..self })
            } else {
                None
            },
            Command::EndPass(encoder) => if self.phase(encoder) == Phase::InPass {
                Some(self.unbound().with_phase(encoder, Phase::Recording))
            } else {
                None
            },
            Command::Submit(encoder) => if self.phase(encoder) == Phase::Recording {
                Some(self.with_phase(encoder, Phase::Submitted))
            } else {
                None
            },
            Command::Present => if self.acquired && !self.encoder_open() && self.overlay
                == OverlayPhase::Idle {
                Some(Recording::idle())
            } else {
                None
            },
        }
    }

    /// The state after all of `commands`, taken in order from `self`, or
    /// `None` where one of them is out of order.
    pub open spec fn after(self, commands: Seq<Command>) -> Option<Recording>
        decreases commands.len(),
    {
        if commands.len() == 0 {
            Some(self)
        } else {
            match self.after(commands.drop_last()) {
                Some(state) => state.step(commands.last()),
                None => None,
            }
        }
    }

    /// Between two frames, whatever the frames before have left behind:
    /// nothing acquired, no encoder open, nothing bound, the overlay idle.
    pub open spec fn at_rest(self) -> bool {
        &&& !self.acquired
        &&& !self.viewed
        &&& !self.encoder_open()
        &&& self == self.unbound()
        &&& self.overlay == OverlayPhase::Idle
    }

    /// The commands are in order from this state and end at rest.
    pub open spec fn settles(self, commands: Seq<Command>) -> bool {
        match self.after(commands) {
            Some(end) => end.at_rest(),
            None => false,
        }
    }

    /// Whole frames and what may come between them: the commands are in
    /// order from the idle state and end at rest.
    pub open spec fn whole_frames(commands: Seq<Command>) -> bool {
        Recording::idle().settles(commands)
    }

    /// The state between two frames.
    pub fn new() -> (state: Recording)
        ensures
            state == Recording::idle(),
    {
        Recording {
            acquired: false,
            viewed: false,
            uniforms: false,
            cube: Phase::Absent,
            frame: Phase::Absent,
            pipeline: false,
            bind_group: false,
            vertex_buffer: false,
            index_buffer: false,
            overlay: OverlayPhase::Idle,
        }
    }

    fn phase_of(&self, encoder: Encoder) -> (phase: Phase)
        ensures
            phase == self.phase(encoder),
    {
        match encoder {
            Encoder::Cube => self.cube,
            Encoder::Frame => self.frame,
        }
    }

    fn set_phase(&self, encoder: Encoder, phase: Phase) -> (state: Recording)
        ensures
            state == self.with_phase(encoder, phase),
    {
        match encoder {
            Encoder::Cube => Recording { cube: phase, ..*self },
            Encoder::Frame => Recording { frame: phase, ..*self },
        }
    }

    fn is_pass_open(&self) -> (open: bool)
        ensures
            open == self.pass_open(),
    {
        self.cube == Phase::InPass || self.frame == Phase::InPass
    }

    fn is_encoder_open(&self) -> (open: bool)
        ensures
            open == self.encoder_open(),
    {
        self.cube == Phase::Recording || self.cube == Phase::InPass || self.frame
            == Phase::Recording || self.frame == Phase::InPass
    }

    fn without_bindings(&self) -> (state: Recording)
        ensures
            state == self.unbound(),
    {
        Recording {
            pipeline: false,
            bind_group: false,
            vertex_buffer: false,
            index_buffer: false,
            ..*self
        }
    }

    /// Takes one command: the state after it, or `None` where it is out of
    /// order.
    pub fn advance(&self, command: &Command) -> (next: Option<Recording>)
        ensures
            next == self.step(*command),
    {
        match *command {
            Command::OverlayInput | Command::PrePresentNotify | Command::RequestRedraw
            | Command::Exit => Some(*self),
            Command::ConfigureSurface(_) => if !self.acquired {
                Some(*self)
            } else {
                None
            },
            Command::WriteUniforms(_) => Some(Recording { uniforms: true, ..*self }),
            Command::AcquireTexture => if !self.acquired {
                Some(Recording { acquired: true, ..*self })
            } else {
                None
            },
            Command::CreateView(_) => if self.acquired && !self.viewed {
                Some(Recording { viewed: true, ..*self })
            } else {
                None
            },
            Command::CreateEncoder(encoder) => {
                let phase = self.phase_of(encoder);
                if phase == Phase::Absent || phase == Phase::Submitted {
                    Some(self.set_phase(encoder, Phase::Recording))
                } else {
                    None
                }
            },
            Command::BeginPass { encoder, load: _ } => if self.viewed && !self.is_pass_open()
                && self.phase_of(encoder) == Phase::Recording {
                Some(self.without_bindings().set_phase(encoder, Phase::InPass))
            } else {
                None
            },
            Command::SetPipeline => if self.is_pass_open() {
                Some(Recording { pipeline: true, ..*self })
            } else {
                None
            },
            Command::SetBindGroup(_) => if self.is_pass_open() {
                Some(Recording { bind_group: true, ..*self })
            } else {
                None
            },
            Command::SetVertexBuffer(_) => if self.is_pass_open() {
                Some(Recording { vertex_buffer: true, ..*self })
            } else {
                None
            },
            Command::SetIndexBuffer(_) => if self.is_pass_open() {
                Some(Recording { index_buffer: true, ..*self })
            } else {
                None
            },
            Command::DrawIndexed { indices: _, instances: _ } => if self.is_pass_open()
                && self.uniforms && self.pipeline && self.bind_group && self.vertex_buffer
                && self.index_buffer {
                Some(*self)
            } else {
                None
            },
            Command::OverlayRun => if self.overlay == OverlayPhase::Idle {
                Some(Recording { overlay: OverlayPhase::Ran, ..*self })
            } else {
                None
            },
            Command::OverlayUpload(encoder) => if self.overlay == OverlayPhase::Ran
                && self.phase_of(encoder) == Phase::Recording {
                Some(Recording { overlay: OverlayPhase::Uploaded, ..*self })
            } else {
                None
            },
            Command::OverlayDraw => if self.overlay == OverlayPhase::Uploaded
                && self.is_pass_open() {
                Some(Recording { overlay: OverlayPhase::Drawn, ..*self })
            } else {
                None
            },
            Command::OverlayFree => if self.overlay == OverlayPhase::Drawn
                && !self.is_pass_open() {
                Some(Recording { overlay: OverlayPhase::Idle, ..*self })
            } else {
                None
            },
            Command::EndPass(encoder) => if self.phase_of(encoder) == Phase::InPass {
                Some(self.without_bindings().set_phase(encoder, Phase::Recording))
            } else {
                None
            },
            Command::Submit(encoder) => if self.phase_of(encoder) == Phase::Recording {
                Some(self.set_phase(encoder, Phase::Submitted))
            } else {
                None
            },
            Command::Present => if self.acquired && !self.is_encoder_open() && self.overlay
                == OverlayPhase::Idle {
                Some(Recording::new())
            } else {
                None
            },
        }
    }

    /// Takes a list of commands in order: the state after the last, or `None`
    /// where one of them is out of order.
    pub fn replay(&self, commands: &Vec<Command>) -> (end: Option<Recording>)
        ensures
            end == self.after(commands@),
    {
        let mut state = *self;
        let mut i: usize = 0;
        assert(commands@.take(0) =~= Seq::<Command>::empty());
        while i < commands.len()
            invariant
                i <= commands@.len(),
                self.after(commands@.take(i as int)) == Some(state),
            decreases commands@.len() - i,
        {
            proof {
                let longer = commands@.take(i + 1);
                assert(longer.drop_last() =~= commands@.take(i as int));
                assert(longer.last() == commands@[i as int]);
            }
            match state.advance(&commands[i]) {
                Some(next) => {
                    state = next;
                },
                None => {
                    proof {
                        lemma_out_of_order_stays(*self, commands@.take(i + 1), commands@);
                    }
                    return None;
                },
            }
            i += 1;
        }
        assert(commands@.take(i as int) =~= commands@);
        Some(state)
    }
}

/// Once a command was out of order, no later command mends it.
pub proof fn lemma_out_of_order_stays(start: Recording, head: Seq<Command>, all: Seq<Command>)
    requires
        head.len() <= all.len(),
        head =~= all.take(head.len() as int),
        start.after(head) is None,
    ensures
        start.after(all) is None,
    decreases all.len(),
{
    if head.len() < all.len() {
        assert(all.drop_last().take(head.len() as int) =~= head);
        lemma_out_of_order_stays(start, head, all.drop_last());
    } else {
        assert(head =~= all);
    }
}

/// Taking one more command is one more step.
pub proof fn lemma_after_push(start: Recording, commands: Seq<Command>, command: Command)
    ensures
        start.after(commands.push(command)) == match start.after(commands) {
            Some(state) => state.step(command),
            None => None,
        },
{
    assert(commands.push(command).drop_last() =~= commands);
}

/// Taking two lists one after the other is taking the first, then the second
/// from where the first ended.
pub proof fn lemma_after_concat(start: Recording, first: Seq<Command>, second: Seq<Command>)
    ensures
        start.after(first + second) == match start.after(first) {
            Some(state) => state.after(second),
            None => None,
        },
    decreases second.len(),
{
    if second.len() == 0 {
        assert(first + second =~= first);
    } else {
        assert((first + second).drop_last() =~= first + second.drop_last());
        lemma_after_concat(start, first, second.drop_last());
    }
}

} // verus!
