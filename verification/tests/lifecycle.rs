use wgpucube::app::{App, Context, Dropped, State, WgpuEvent, WindowEvent};
use wgpucube::command::{
    Color, Command, CompositeAlphaMode, Encoder, IndexFormat, LoadOp, PresentMode, Size,
    SurfaceConfiguration, TextureUsage, UniformInputs,
};
use wgpucube::overlay::EguiInterface;
use wgpucube::recording::{OverlayPhase, Phase, Recording};

const FORMAT: wgpu::TextureFormat = wgpu::TextureFormat::Bgra8UnormSrgb;

fn configuration(width: u32, height: u32) -> SurfaceConfiguration {
    SurfaceConfiguration {
        usage: TextureUsage::RenderAttachment,
        format: FORMAT,
        width,
        height,
        present_mode: PresentMode::AutoVsync,
        desired_maximum_frame_latency: 2,
        alpha_mode: CompositeAlphaMode::Auto,
        view_format: FORMAT,
    }
}

fn context(width: u32, height: u32) -> Context {
    Context::new(Size::new(width, height), &vec![FORMAT, wgpu::TextureFormat::Rgba8Unorm]).0
}

fn resumed(width: u32, height: u32) -> App {
    let mut app = App::new();
    app.resumed();
    assert_eq!(
        app.user_event(WgpuEvent::Initialized { context: context(width, height) }),
        Command::RequestRedraw
    );
    app
}

fn frame(step: u64, width: u32, height: u32) -> Vec<Command> {
    vec![
        Command::AcquireTexture,
        Command::CreateView(FORMAT),
        Command::CreateEncoder(Encoder::Frame),
        Command::WriteUniforms(UniformInputs { step, surface: Size { width, height } }),
        Command::CreateEncoder(Encoder::Cube),
        Command::BeginPass {
            encoder: Encoder::Cube,
            load: LoadOp::Clear(Color { r: 1, g: 1, b: 1, a: 2 }),
        },
        Command::SetPipeline,
        Command::SetBindGroup(0),
        Command::SetVertexBuffer(0),
        Command::SetIndexBuffer(IndexFormat::Uint16),
        Command::DrawIndexed { indices: 36, instances: 1 },
        Command::EndPass(Encoder::Cube),
        Command::Submit(Encoder::Cube),
        Command::OverlayRun,
        Command::OverlayUpload(Encoder::Frame),
        Command::BeginPass { encoder: Encoder::Frame, load: LoadOp::Load },
        Command::OverlayDraw,
        Command::EndPass(Encoder::Frame),
        Command::OverlayFree,
        Command::Submit(Encoder::Frame),
        Command::Present,
    ]
}

fn step_of(app: &App) -> u64 {
    match app.state() {
        State::Resumed { context } => context.cube().step(),
        _ => panic!("no context"),
    }
}

#[test]
fn context_takes_the_first_format() {
    let formats = vec![wgpu::TextureFormat::Rgba16Float, FORMAT];
    let (context, configure) = Context::new(Size::new(640, 480), &formats);
    assert_eq!(context.surface_format(), wgpu::TextureFormat::Rgba16Float);
    assert_eq!(context.size(), Size { width: 640, height: 480 });
    assert_eq!(context.cube().pipeline().target_format, wgpu::TextureFormat::Rgba16Float);
    assert_eq!(*context.egui(), EguiInterface::new(wgpu::TextureFormat::Rgba16Float));
    assert_eq!(
        configure,
        Command::ConfigureSurface(SurfaceConfiguration {
            usage: TextureUsage::RenderAttachment,
            format: wgpu::TextureFormat::Rgba16Float,
            width: 640,
            height: 480,
            present_mode: PresentMode::AutoVsync,
            desired_maximum_frame_latency: 2,
            alpha_mode: CompositeAlphaMode::Auto,
            view_format: wgpu::TextureFormat::Rgba16Float,
        })
    );
}

#[test]
fn new_context_has_a_fresh_cube() {
    let context = context(640, 480);
    assert_eq!(context.cube().step(), 0);
    assert_eq!(context.cube().aspect_ratio(), Size { width: 1, height: 1 });
    assert_eq!(context.configure_surface(), configuration(640, 480));
}

#[test]
fn context_resize_reconfigures() {
    let mut context = context(640, 480);
    assert_eq!(
        context.resize(Size::new(800, 600)),
        Command::ConfigureSurface(configuration(800, 600))
    );
    assert_eq!(context.size(), Size { width: 800, height: 600 });
    assert_eq!(context.cube().aspect_ratio(), Size { width: 1, height: 1 });
}

#[test]
fn context_resize_to_nothing_still_reconfigures() {
    let mut context = context(640, 480);
    assert_eq!(
        context.resize(Size::new(0, 0)),
        Command::ConfigureSurface(configuration(0, 0))
    );
    assert_eq!(context.size(), Size { width: 0, height: 0 });
}

#[test]
fn context_renders_one_frame() {
    let mut context = context(640, 480);
    let commands = context.render();
    assert_eq!(commands, frame(0, 1, 1));
    assert_eq!(context.cube().step(), 1);
    let idle = Recording::new();
    assert_eq!(idle.replay(&commands), Some(idle));
}

#[test]
fn context_without_pixels_skips_the_frame() {
    let mut context = context(640, 0);
    assert_eq!(context.render(), vec![]);
    assert_eq!(context.cube().step(), 0);
    context.resize(Size::new(640, 480));
    assert_eq!(context.render(), frame(0, 1, 1));
    assert_eq!(context.cube().step(), 1);
}

#[test]
fn frames_follow_one_another() {
    let mut context = context(320, 200);
    let mut commands = context.render();
    commands.extend(context.render());
    commands.push(context.resize(Size::new(200, 320)));
    commands.extend(context.render());
    assert_eq!(context.cube().step(), 3);
    let end = Recording::new().replay(&commands);
    assert_eq!(end, Some(Recording::new()));
}

#[test]
fn new_app_is_uninitialized() {
    let app = App::new();
    assert_eq!(*app.state(), State::Uninitialized);
}

#[test]
fn events_before_resume_are_dropped() {
    let mut app = App::new();
    assert_eq!(
        app.window_event(WindowEvent::Resized(Size::new(640, 480))),
        Err(Dropped::Uninitialized)
    );
    assert_eq!(app.window_event(WindowEvent::RedrawRequested), Err(Dropped::Uninitialized));
    assert_eq!(app.window_event(WindowEvent::CloseRequested), Err(Dropped::Uninitialized));
    assert_eq!(app.window_event(WindowEvent::Other), Err(Dropped::Uninitialized));
    assert_eq!(*app.state(), State::Uninitialized);
}

#[test]
fn events_during_initialisation_are_dropped() {
    let mut app = App::new();
    app.resumed();
    assert_eq!(*app.state(), State::Initializing);
    assert_eq!(
        app.window_event(WindowEvent::Resized(Size::new(640, 480))),
        Err(Dropped::Initializing)
    );
    assert_eq!(app.window_event(WindowEvent::RedrawRequested), Err(Dropped::Initializing));
    assert_eq!(*app.state(), State::Initializing);
}

#[test]
fn resume_starts_the_initialisation() {
    let mut app = App::new();
    app.resumed();
    assert_eq!(*app.state(), State::Initializing);
    assert!(!matches!(app.state(), State::Uninitialized));
}

#[test]
fn resumed_application_shows_that_it_is() {
    let mut app = resumed(640, 480);
    assert!(matches!(app.state(), State::Resumed { .. }));
    assert!(!matches!(app.state(), State::Uninitialized));
    assert!(!matches!(app.state(), State::Initializing));
    app.window_event(WindowEvent::RedrawRequested).unwrap();
    app.window_event(WindowEvent::CloseRequested).unwrap();
    assert!(matches!(app.state(), State::Resumed { .. }));
}

#[test]
fn first_command_of_a_ready_context_asks_for_a_redraw() {
    let mut app = App::new();
    app.resumed();
    let first = app.user_event(WgpuEvent::Initialized { context: context(3, 2) });
    assert_eq!(first, Command::RequestRedraw);
    match app.state() {
        State::Resumed { context } => {
            assert_eq!(context.size(), Size { width: 3, height: 2 });
            assert_eq!(context.surface_format(), FORMAT);
            assert_eq!(context.cube().step(), 0);
        },
        _ => panic!("no context"),
    }
}

#[test]
fn ready_context_is_taken() {
    let app = resumed(640, 480);
    assert_eq!(*app.state(), State::Resumed { context: context(640, 480) });
}

#[test]
fn resize_reaches_cube_and_surface() {
    let mut app = resumed(640, 480);
    assert_eq!(
        app.window_event(WindowEvent::Resized(Size::new(1024, 768))),
        Ok(vec![
            Command::OverlayInput,
            Command::WriteUniforms(UniformInputs {
                step: 0,
                surface: Size { width: 1024, height: 768 },
            }),
            Command::ConfigureSurface(configuration(1024, 768)),
        ])
    );
    match app.state() {
        State::Resumed { context } => {
            assert_eq!(context.size(), Size { width: 1024, height: 768 });
            assert_eq!(context.cube().aspect_ratio(), Size { width: 1024, height: 768 });
            assert_eq!(context.cube().step(), 0);
        },
        _ => panic!("no context"),
    }
}

#[test]
fn resize_to_nothing_reconfigures_only() {
    let mut app = resumed(640, 480);
    app.window_event(WindowEvent::Resized(Size::new(640, 480))).unwrap();
    assert_eq!(
        app.window_event(WindowEvent::Resized(Size::new(0, 480))),
        Ok(vec![Command::OverlayInput, Command::ConfigureSurface(configuration(0, 480))])
    );
    match app.state() {
        State::Resumed { context } => {
            assert_eq!(context.size(), Size { width: 0, height: 480 });
            assert_eq!(context.cube().aspect_ratio(), Size { width: 640, height: 480 });
        },
        _ => panic!("no context"),
    }
    assert_eq!(
        app.window_event(WindowEvent::RedrawRequested),
        Ok(vec![Command::OverlayInput, Command::PrePresentNotify, Command::RequestRedraw])
    );
    assert_eq!(step_of(&app), 0);
}

#[test]
fn close_leaves_the_event_loop() {
    let mut app = resumed(640, 480);
    assert_eq!(
        app.window_event(WindowEvent::CloseRequested),
        Ok(vec![Command::OverlayInput, Command::Exit])
    );
    assert_eq!(*app.state(), State::Resumed { context: context(640, 480) });
}

#[test]
fn other_events_reach_the_overlay_only() {
    let mut app = resumed(640, 480);
    assert_eq!(app.window_event(WindowEvent::Other), Ok(vec![Command::OverlayInput]));
    assert_eq!(*app.state(), State::Resumed { context: context(640, 480) });
}

#[test]
fn redraw_renders_and_asks_again() {
    let mut app = resumed(640, 480);
    app.window_event(WindowEvent::Resized(Size::new(2, 1))).unwrap();
    let mut expected = vec![Command::OverlayInput, Command::PrePresentNotify];
    expected.extend(frame(0, 2, 1));
    expected.push(Command::RequestRedraw);
    assert_eq!(app.window_event(WindowEvent::RedrawRequested), Ok(expected));
    assert_eq!(step_of(&app), 1);
    let mut expected = vec![Command::OverlayInput, Command::PrePresentNotify];
    expected.extend(frame(1, 2, 1));
    expected.push(Command::RequestRedraw);
    assert_eq!(app.window_event(WindowEvent::RedrawRequested), Ok(expected));
    assert_eq!(step_of(&app), 2);
}

#[test]
fn a_session_is_in_order() {
    let mut app = resumed(640, 480);
    let mut all = Vec::new();
    let events = [
        WindowEvent::Resized(Size::new(640, 480)),
        WindowEvent::RedrawRequested,
        WindowEvent::Other,
        WindowEvent::RedrawRequested,
        WindowEvent::Resized(Size::new(0, 0)),
        WindowEvent::RedrawRequested,
        WindowEvent::Resized(Size::new(300, 300)),
        WindowEvent::RedrawRequested,
        WindowEvent::CloseRequested,
    ];
    for event in events {
        let commands = app.window_event(event).unwrap();
        let end = Recording::new().replay(&commands).unwrap();
        assert!(!end.acquired && !end.viewed);
        assert!(end.cube != Phase::Recording && end.cube != Phase::InPass);
        assert!(end.frame != Phase::Recording && end.frame != Phase::InPass);
        assert_eq!(end.overlay, OverlayPhase::Idle);
        all.extend(commands);
    }
    assert_eq!(step_of(&app), 3);
    assert!(Recording::new().replay(&all).is_some());
}
