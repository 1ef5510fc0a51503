//! The render context, which puts the cube and the overlay into one frame,
//! and the application, which brings the context to life and hands it the
//! window's events.
use vstd::prelude::*;
use crate::command::{
    Command, CompositeAlphaMode, Encoder, PresentMode, Size, SurfaceConfiguration, TextureUsage,
    UniformInputs,
};
use crate::cube::{cube_pass, lemma_cube_pass_in_order, Cube, CubeView};
use crate::overlay::{lemma_overlay_pass_in_order, overlay_pass, EguiInterface};
use crate::recording::{lemma_after_concat, lemma_after_push, Phase, Recording};

verus! {

/// What a render context is.
pub struct ContextView {
    /// The size of the surface.
    pub size: Size,
    /// The format of the surface, and of every target.
    pub surface_format: wgpu::TextureFormat,
    pub cube: CubeView,
}

impl ContextView {
    /// The cube is well formed and draws to the surface's format.
    pub open spec fn well_formed(self) -> bool {
        self.cube.well_formed() && self.cube.target_format == self.surface_format
    }

    /// A new context for a surface of the given size and format.
    pub open spec fn initial(size: Size, format: wgpu::TextureFormat) -> ContextView {
        ContextView { size, surface_format: format, cube: CubeView::initial(format) }
    }

    /// The configuration of the surface: its textures are render attachments
    /// of its format and size, viewed in that format; frames are shown in
    /// step with the display, at most two of them in flight, blended as the
    /// platform prefers.
    pub open spec fn configuration(self) -> SurfaceConfiguration {
        SurfaceConfiguration {
            usage: TextureUsage::RenderAttachment,
            format: self.surface_format,
            width: self.size.width,
            height: self.size.height,
            present_mode: PresentMode::AutoVsync,
            desired_maximum_frame_latency: 2,
            alpha_mode: CompositeAlphaMode::Auto,
            view_format: self.surface_format,
        }
    }

    /// The context after the surface has taken a new size.
    pub open spec fn resized(self, size: Size) -> ContextView {
        ContextView { size, ..self }
    }

    /// The surface has pixels, so a frame can be shown.
    pub open spec fn presentable(self) -> bool {
        self.size.presentable()
    }

    /// The commands of one frame, none where the surface has no pixels.
    /// Otherwise: the target is acquired and viewed and the frame's encoder
    /// opened; the cube is drawn; the overlay is drawn over it into the
    /// frame's encoder; that encoder is submitted; the target is presented.
    pub open spec fn frame(self) -> Seq<Command> {
        if self.presentable() {
            seq![
                Command::AcquireTexture,
                Command::CreateView(self.surface_format),
                Command::CreateEncoder(Encoder::Frame),
            ] + cube_pass(UniformInputs { step: self.cube.step, surface: self.cube.aspect_ratio })
                + overlay_pass(Encoder::Frame) + seq![
                Command::Submit(Encoder::Frame),
                Command::Present,
            ]
        } else {
            Seq::empty()
        }
    }

    /// The context after `render`: one frame further where the surface has
    /// pixels, unchanged where it has none.
    pub open spec fn rendered(self) -> ContextView {
        if self.presentable() {
            ContextView { cube: self.cube.rendered(), ..self }
        } else {
            self
        }
    }

    /// The context after a window event: a resize reaches the cube and the
    /// surface, a redraw renders, nothing else changes anything.
    pub open spec fn after_event(self, event: WindowEvent) -> ContextView {
        match event {
            WindowEvent::Resized(size) => ContextView {
                size,
                cube: self.cube.resized(size),
                ..self
            },
            WindowEvent::RedrawRequested => self.rendered(),
            _ => self,
        }
    }

    /// What the host is to do on a window event. The overlay sees every event
    /// first. A resize rewrites the uniforms, where the new size has pixels,
    /// and reconfigures the surface in any case. A close request leaves the
    /// event loop. A redraw announces the frame to the window, draws it and
    /// asks for the next.
    pub open spec fn response(self, event: WindowEvent) -> Seq<Command> {
        match event {
            WindowEvent::Resized(size) => seq![Command::OverlayInput] + (if size.presentable() {
                seq![
                    Command::WriteUniforms(UniformInputs { step: self.cube.step, surface: size }),
                ]
            } else {
                Seq::empty()
            }) + seq![Command::ConfigureSurface(self.resized(size).configuration())],
            WindowEvent::CloseRequested => seq![Command::OverlayInput, Command::Exit],
            WindowEvent::RedrawRequested => seq![Command::OverlayInput, Command::PrePresentNotify]
                + self.frame() + seq![Command::RequestRedraw],
            WindowEvent::Other => seq![Command::OverlayInput],
        }
    }

    /// The step can still move on: the next frame does not overflow it.
    pub open spec fn frames_left(self) -> bool {
        self.cube.step < u64::MAX
    }
}

/// What the window tells the application.
#[derive(Clone, Copy, Debug, PartialEq, Eq, Structural)]
pub enum WindowEvent {
    /// The surface has a new size.
    Resized(Size),
    /// The user wants the window closed.
    CloseRequested,
    /// The window wants its content drawn.
    RedrawRequested,
    /// Anything else; only the overlay takes an interest.
    Other,
}

/// The render context: the surface's size and format, and the two renderers
/// that share a frame.
#[derive(Debug, PartialEq, Eq)]
pub struct Context {
    size: Size,
    surface_format: wgpu::TextureFormat,
    cube: Cube,
    egui: EguiInterface,
}

impl View for Context {
    type V = ContextView;

    closed spec fn view(&self) -> ContextView {
        ContextView { size: self.size, surface_format: self.surface_format, cube: self.cube@ }
    }
}

impl Context {
    #[verifier::type_invariant]
    spec fn inv(self) -> bool {
        &&& self.cube@.well_formed()
        &&& self.cube@.target_format == self.surface_format
        &&& self.egui == EguiInterface::for_format(self.surface_format)
    }

    /// A context for a window of the given size, on a surface that offers
    /// the given formats, best first. The first format is taken. The command
    /// returned configures the surface for the first time.
    pub fn new(size: Size, formats: &Vec<wgpu::TextureFormat>) -> (made: (Context, Command))
        requires
            formats@.len() > 0,
        ensures
            made.0@ == ContextView::initial(size, formats@[0]),
            made.0@.well_formed(),
            made.1 == Command::ConfigureSurface(made.0@.configuration()),
    {
        let surface_format = formats[0];
        let cube = Cube::new(surface_format);
        let egui = EguiInterface::new(surface_format);
        let context = Context { size, surface_format, cube, egui };
        let configure = Command::ConfigureSurface(context.configure_surface());
        (context, configure)
    }

    /// The configuration that the surface is to have now.
    pub fn configure_surface(&self) -> (configuration: SurfaceConfiguration)
        ensures
            configuration == self@.configuration(),
    {
        SurfaceConfiguration {
            usage: TextureUsage::RenderAttachment,
            format: self.surface_format,
            width: self.size.width,
            height: self.size.height,
            present_mode: PresentMode::AutoVsync,
            desired_maximum_frame_latency: 2,
            alpha_mode: CompositeAlphaMode::Auto,
            view_format: self.surface_format,
        }
    }

    /// Takes the new size of the surface and returns the command that
    /// reconfigures it, whatever the size: a surface without pixels is
    /// configured all the same, and `render` then leaves it alone.
    pub fn resize(&mut self, new_size: Size) -> (configure: Command)
        ensures
            final(self)@ == old(self)@.resized(new_size),
            final(self)@.well_formed(),
            configure == Command::ConfigureSurface(final(self)@.configuration()),
    {
        proof {
            use_type_invariant(&*self);
        }
        self.size = new_size;
        Command::ConfigureSurface(self.configure_surface())
    }

    /// Draws one frame: returns its commands, which are in order and leave
    /// nothing open, and moves the cube's step on by one. Where the surface
    /// has no pixels there is nothing to present: no command is returned and
    /// the step stays.
    pub fn render(&mut self) -> (commands: Vec<Command>)
        requires
            old(self)@.presentable() ==> old(self)@.frames_left(),
        ensures
            final(self)@ == old(self)@.rendered(),
            final(self)@.well_formed(),
            commands@ == old(self)@.frame(),
            Recording::whole_frames(commands@),
    {
        proof {
            use_type_invariant(&*self);
            lemma_frame_in_order(Recording::idle(), self@);
        }
        if !self.size.is_presentable() {
            return Vec::new();
        }
        let mut commands = vec![
            Command::AcquireTexture,
            Command::CreateView(self.surface_format),
            Command::CreateEncoder(Encoder::Frame),
        ];
        let uniforms = self.cube.advance();
        let mut cube_commands = Cube::pass(uniforms);
        commands.append(&mut cube_commands);
        let mut overlay_commands = self.egui.render(Encoder::Frame);
        commands.append(&mut overlay_commands);
        let ghost drawn = commands@;
        commands.push(Command::Submit(Encoder::Frame));
        commands.push(Command::Present);
        proof {
            assert(commands@ =~= drawn + seq![Command::Submit(Encoder::Frame), Command::Present]);
        }
        commands
    }

    /// The size of the surface.
    pub fn size(&self) -> (size: Size)
        ensures
            size == self@.size,
    {
        self.size
    }

    /// The format of the surface.
    pub fn surface_format(&self) -> (format: wgpu::TextureFormat)
        ensures
            format == self@.surface_format,
    {
        self.surface_format
    }

    /// The cube renderer.
    pub fn cube(&self) -> (cube: &Cube)
        ensures
            cube@ == self@.cube,
    {
        &self.cube
    }

    /// The overlay renderer.
    pub fn egui(&self) -> (overlay: &EguiInterface)
        ensures
            *overlay == EguiInterface::for_format(self@.surface_format),
    {
        proof {
            use_type_invariant(self);
        }
        &self.egui
    }
}

/// A frame is in order from start to end wherever it starts at rest, and it
/// ends at rest. Within it the target exists before any pass begins, the
/// cube's pass has ended before the overlay's begins, each encoder is
/// submitted after its pass has ended, and the target is presented after the
/// last submission.
pub proof fn lemma_frame_in_order(start: Recording, context: ContextView)
    requires
        start.at_rest(),
    ensures
        start.settles(context.frame()),
{
    if context.presentable() {
        let uniforms = UniformInputs { step: context.cube.step, surface: context.cube.aspect_ratio };
        let a0 = Seq::<Command>::empty();
        let a1 = a0.push(Command::AcquireTexture);
        let a2 = a1.push(Command::CreateView(context.surface_format));
        let a3 = a2.push(Command::CreateEncoder(Encoder::Frame));
        assert(start.after(a0) == Some(start));
        lemma_after_push(start, a0, Command::AcquireTexture);
        lemma_after_push(start, a1, Command::CreateView(context.surface_format));
        lemma_after_push(start, a2, Command::CreateEncoder(Encoder::Frame));
        let opened = Recording { acquired: true, viewed: true, frame: Phase::Recording, ..start };
        assert(start.after(a3) == Some(opened));
        lemma_cube_pass_in_order(opened, uniforms);
        let cubed = Recording { uniforms: true, cube: Phase::Submitted, ..opened };
        lemma_after_concat(start, a3, cube_pass(uniforms));
        assert(start.after(a3 + cube_pass(uniforms)) == Some(cubed));
        lemma_overlay_pass_in_order(cubed, Encoder::Frame);
        lemma_after_concat(start, a3 + cube_pass(uniforms), overlay_pass(Encoder::Frame));
        let drawn = a3 + cube_pass(uniforms) + overlay_pass(Encoder::Frame);
        assert(start.after(drawn) == Some(cubed));
        let e1 = drawn.push(Command::Submit(Encoder::Frame));
        let e2 = e1.push(Command::Present);
        lemma_after_push(start, drawn, Command::Submit(Encoder::Frame));
        lemma_after_push(start, e1, Command::Present);
        assert(e2 =~= context.frame());
    } else {
        assert(start.after(context.frame()) == Some(start));
    }
}

/// What the host tells the application when the context that it was asked
/// for is ready.
#[derive(Debug, PartialEq, Eq)]
pub enum WgpuEvent {
    Initialized { context: Context },
}

/// Where the application stands.
#[derive(Debug, PartialEq, Eq)]
pub enum State {
    /// The host has not resumed the application yet.
    Uninitialized,
    /// The host has resumed it, and the context is in the making.
    Initializing,
    /// The context is there; window events are served.
    Resumed { context: Context },
}

/// What an application is.
pub enum AppView {
    Uninitialized,
    Initializing,
    Resumed(ContextView),
}

impl AppView {
    /// A redraw now does not overflow the step: it draws no frame, or the
    /// step can still move on.
    pub open spec fn frames_left(self) -> bool {
        match self {
            AppView::Resumed(context) => context.presentable() ==> context.frames_left(),
            _ => true,
        }
    }

    /// How far the application has come: 0 before the host resumes it, 1
    /// while the context is in the making, 2 when it is there.
    pub open spec fn rank(self) -> int {
        match self {
            AppView::Uninitialized => 0,
            AppView::Initializing => 1,
            AppView::Resumed(_) => 2,
        }
    }
}

/// Why a window event was not served.
#[derive(Clone, Copy, Debug, PartialEq, Eq, Structural)]
pub enum Dropped {
    /// It came before the host resumed the application.
    Uninitialized,
    /// It came while the context was in the making.
    Initializing,
}

/// The application: one window, one context, and the state that says whether
/// they are there yet.
#[derive(Debug, PartialEq, Eq)]
pub struct App {
    state: State,
}

impl View for App {
    type V = AppView;

    closed spec fn view(&self) -> AppView {
        match self.state {
            State::Uninitialized => AppView::Uninitialized,
            State::Initializing => AppView::Initializing,
            State::Resumed { context } => AppView::Resumed(context@),
        }
    }
}

impl App {
    /// An application that the host has not resumed yet.
    pub fn new() -> (app: App)
        ensures
            app@ == AppView::Uninitialized,
    {
        App { state: State::Uninitialized }
    }

    /// The host resumes the application, which starts to initialise: the
    /// host is to make the window and the context and to report the context
    /// with `user_event`. This happens once. The host must not resume an
    /// application that is initialising or resumed already: there is no way
    /// on from there, and the host ends the process instead of calling.
    pub fn resumed(&mut self)
        requires
            old(self)@ == AppView::Uninitialized,
        ensures
            final(self)@ == AppView::Initializing,
            final(self)@.rank() >= old(self)@.rank(),
    {
        self.state = State::Initializing;
    }

    /// The context is ready. The application, which was waiting for it,
    /// takes it, serves window events from now on, and asks the window for
    /// the first redraw. A context that the application is not waiting for
    /// must not be handed in: the host ends the process instead of calling.
    pub fn user_event(&mut self, event: WgpuEvent) -> (first: Command)
        requires
            old(self)@ == AppView::Initializing,
        ensures
            first == Command::RequestRedraw,
            final(self)@ == AppView::Resumed(event->context@),
            final(self)@.rank() >= old(self)@.rank(),
    {
        let WgpuEvent::Initialized { context } = event;
        self.state = State::Resumed { context };
        Command::RequestRedraw
    }

    /// A window event arrives. Before the context is there the event is
    /// dropped. Afterwards it is served: the commands returned are those of
    /// `ContextView::response`, and they are in order and leave nothing open.
    pub fn window_event(&mut self, event: WindowEvent) -> (served: Result<Vec<Command>, Dropped>)
        requires
            event == WindowEvent::RedrawRequested ==> old(self)@.frames_left(),
        ensures
            match old(self)@ {
                AppView::Uninitialized => served == Err::<Vec<Command>, Dropped>(
                    Dropped::Uninitialized,
                ) && final(self)@ == old(self)@,
                AppView::Initializing => served == Err::<Vec<Command>, Dropped>(
                    Dropped::Initializing,
                ) && final(self)@ == old(self)@,
                AppView::Resumed(context) => {
                    &&& served is Ok
                    &&& served->Ok_0@ == context.response(event)
                    &&& Recording::whole_frames(served->Ok_0@)
                    &&& final(self)@ == AppView::Resumed(context.after_event(event))
                },
            },
            final(self)@.rank() == old(self)@.rank(),
    {
        match &mut self.state {
            State::Uninitialized => Err(Dropped::Uninitialized),
            State::Initializing => Err(Dropped::Initializing),
            State::Resumed { context } => {
                proof {
                    use_type_invariant(&*context);
                    lemma_response_in_order(Recording::idle(), context@, event);
                }
                let mut commands = vec![context.egui.handle_input()];
                match event {
                    WindowEvent::Resized(new_size) => {
                        match context.cube.resize(new_size) {
                            Some(write) => {
                                commands.push(write);
                            },
                            None => {},
                        }
                        let configure = context.resize(new_size);
                        commands.push(configure);
                    },
                    WindowEvent::CloseRequested => {
                        commands.push(Command::Exit);
                    },
                    WindowEvent::RedrawRequested => {
                        commands.push(Command::PrePresentNotify);
                        let mut frame = context.render();
                        commands.append(&mut frame);
                        commands.push(Command::RequestRedraw);
                    },
                    WindowEvent::Other => {},
                }
                assert(commands@ =~= old(self)@->Resumed_0.response(event));
                Ok(commands)
            },
        }
    }

    /// The state of the application.
    pub fn state(&self) -> (state: &State)
        ensures
            match *state {
                State::Uninitialized => self@ == AppView::Uninitialized,
                State::Initializing => self@ == AppView::Initializing,
                State::Resumed { context } => self@ == AppView::Resumed(context@),
            },
    {
        &self.state
    }
}

/// Whatever the window reports, what the application answers is in order
/// wherever it starts at rest, and it ends at rest. In particular the surface
/// is never reconfigured while one of its textures is out.
pub proof fn lemma_response_in_order(start: Recording, context: ContextView, event: WindowEvent)
    requires
        start.at_rest(),
    ensures
        start.settles(context.response(event)),
{
    let c0 = Seq::<Command>::empty();
    let c1 = c0.push(Command::OverlayInput);
    assert(start.after(c0) == Some(start));
    lemma_after_push(start, c0, Command::OverlayInput);
    match event {
        WindowEvent::Resized(size) => {
            let configure = Command::ConfigureSurface(context.resized(size).configuration());
            if size.presentable() {
                let write = Command::WriteUniforms(
                    UniformInputs { step: context.cube.step, surface: size },
                );
                let c2 = c1.push(write);
                lemma_after_push(start, c1, write);
                lemma_after_push(start, c2, configure);
                assert(c2.push(configure) =~= context.response(event));
            } else {
                lemma_after_push(start, c1, configure);
                assert(c1.push(configure) =~= context.response(event));
            }
        },
        WindowEvent::CloseRequested => {
            lemma_after_push(start, c1, Command::Exit);
            assert(c1.push(Command::Exit) =~= context.response(event));
        },
        WindowEvent::RedrawRequested => {
            let c2 = c1.push(Command::PrePresentNotify);
            lemma_after_push(start, c1, Command::PrePresentNotify);
            lemma_frame_in_order(start, context);
            lemma_after_concat(start, c2, context.frame());
            lemma_after_push(start, c2 + context.frame(), Command::RequestRedraw);
            assert((c2 + context.frame()).push(Command::RequestRedraw) =~= context.response(
                event,
            ));
        },
        WindowEvent::Other => {
            assert(c1 =~= context.response(event));
        },
    }
}

} // verus!
