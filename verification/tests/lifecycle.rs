use std::collections::VecDeque;

use rustgl::error::{GraphicsError, ShaderStage};
use rustgl::event::{Action, Effect, Key, Viewport, Window, WindowEvent};
use rustgl::lifecycle::{
    BootStage, FrameStage, GraphicsContext, Handles, Renderer, Reply, Step,
};
use rustgl::settings::{ColorBits, ContextVersion, WindowSize};
use rustgl::settings::WINDOW_TITLE;
use rustgl::vertex::{AttributeFormat, ComponentType};

/// A host that keeps its window and its GPU in memory.
struct Host {
    created: u32,
    close_flag: bool,
    viewport: Option<Viewport>,
    arriving: VecDeque<WindowEvent>,
    pending: VecDeque<WindowEvent>,
    taken: Vec<Step>,
}

fn host() -> Host {
    Host {
        created: 0,
        close_flag: false,
        viewport: None,
        arriving: VecDeque::new(),
        pending: VecDeque::new(),
        taken: Vec::new(),
    }
}

fn perform(host: &mut Host, step: Step) -> Reply {
    host.taken.push(step);
    match step {
        Step::CreateShader(_) | Step::CreateProgram | Step::CreateVertexArray | Step::CreateBuffer => {
            host.created += 1;
            Reply::Handle(host.created)
        }
        Step::CompileShader { .. } | Step::LinkProgram { .. } => {
            Reply::Status { ok: true, log: String::new() }
        }
        Step::SetViewport(viewport) => {
            host.viewport = Some(viewport);
            Reply::Done
        }
        Step::QueryShouldClose => Reply::ShouldClose(host.close_flag),
        Step::PollEvents => {
            while let Some(event) = host.arriving.pop_front() {
                host.pending.push_back(event);
            }
            Reply::Done
        }
        Step::NextEvent => match host.pending.pop_front() {
            Some(event) => Reply::Event(event),
            None => Reply::NoEvent,
        },
        Step::SetShouldClose => {
            host.close_flag = true;
            Reply::Done
        }
        Step::Exit => panic!("nothing is to be done at the exit"),
        _ => Reply::Done,
    }
}

fn take_steps(host: &mut Host, mut renderer: Renderer, count: usize) -> Renderer {
    for _ in 0..count {
        let step = renderer.next_step();
        let reply = perform(host, step);
        renderer = renderer.advance(reply).expect("the host reports no failure");
    }
    renderer
}

fn started(host: &mut Host) -> Renderer {
    take_steps(host, Renderer::new(), 26)
}

fn start_up_steps() -> Vec<Step> {
    vec![
        Step::InitWindowing,
        Step::RequestContextVersion(ContextVersion { major: 4, minor: 6 }),
        Step::RequestCoreProfile,
        Step::CreateWindow { size: WindowSize { width: 1920, height: 1080 }, title: "RustGL" },
        Step::MakeContextCurrent,
        Step::LoadFunctions,
        Step::EnableKeyEvents,
        Step::EnableResizeEvents,
        Step::SetViewport(Viewport { x: 0, y: 0, width: 800, height: 800 }),
        Step::CreateShader(ShaderStage::Vertex),
        Step::SetShaderSource { shader: 1, stage: ShaderStage::Vertex },
        Step::CompileShader { shader: 1 },
        Step::CreateShader(ShaderStage::Fragment),
        Step::SetShaderSource { shader: 2, stage: ShaderStage::Fragment },
        Step::CompileShader { shader: 2 },
        Step::CreateProgram,
        Step::AttachShader { program: 3, shader: 1 },
        Step::AttachShader { program: 3, shader: 2 },
        Step::LinkProgram { program: 3 },
        Step::DeleteShader { shader: 1 },
        Step::DeleteShader { shader: 2 },
        Step::CreateVertexArray,
        Step::CreateBuffer,
        Step::BindArrayBuffer { buffer: 5 },
        Step::UploadVertices,
        Step::DeclareFormat {
            vertex_array: 4,
            format: AttributeFormat {
                index: 0,
                components: 3,
                component_type: ComponentType::Float,
                normalized: false,
                relative_offset: 0,
            },
        },
    ]
}

fn running(frame: FrameStage) -> Renderer {
    Renderer::Running {
        context: GraphicsContext { program: 3, vertex_array: 4, vertex_buffer: 5 },
        window: Window { should_close: false, viewport: Viewport { x: 0, y: 0, width: 800, height: 800 } },
        frame,
    }
}

fn booting(stage: BootStage) -> Renderer {
    Renderer::Booting {
        stage,
        handles: Handles { vertex_shader: 1, fragment_shader: 2, program: 3, vertex_array: 0, vertex_buffer: 0 },
    }
}

#[test]
fn new_renderer_starts_with_the_windowing_layer() {
    let renderer = Renderer::new();
    assert_eq!(
        renderer,
        Renderer::Booting {
            stage: BootStage::InitWindowing,
            handles: Handles { vertex_shader: 0, fragment_shader: 0, program: 0, vertex_array: 0, vertex_buffer: 0 },
        }
    );
    assert_eq!(renderer.next_step(), Step::InitWindowing);
    assert!(!renderer.is_finished());
    assert_eq!(renderer.context(), None);
    assert_eq!(renderer.window(), None);
}

#[test]
fn start_up_takes_its_steps_in_order() {
    let mut host = host();
    started(&mut host);
    assert_eq!(host.taken, start_up_steps());
}

#[test]
fn start_up_leaves_the_context_and_enters_the_loop() {
    let mut host = host();
    let renderer = started(&mut host);
    assert_eq!(renderer, running(FrameStage::CheckClose));
    assert_eq!(
        renderer.context(),
        Some(GraphicsContext { program: 3, vertex_array: 4, vertex_buffer: 5 })
    );
    assert_eq!(
        renderer.window(),
        Some(Window { should_close: false, viewport: Viewport { x: 0, y: 0, width: 800, height: 800 } })
    );
    assert_eq!(renderer.next_step(), Step::QueryShouldClose);
    assert_eq!(host.viewport, Some(Viewport { x: 0, y: 0, width: 800, height: 800 }));
}

#[test]
fn each_stage_of_the_start_up_is_one_reply_away_from_the_next() {
    let mut host = host();
    let mut renderer = Renderer::new();
    let mut stage = Some(BootStage::InitWindowing);
    let mut count = 0;
    while let Some(expected) = stage {
        match renderer {
            Renderer::Booting { stage: at, .. } => assert_eq!(at, expected),
            _ => panic!("the start-up ended early"),
        }
        renderer = take_steps(&mut host, renderer, 1);
        stage = expected.next();
        count += 1;
    }
    assert_eq!(count, 26);
    assert!(matches!(renderer, Renderer::Running { .. }));
}

#[test]
fn boot_stage_next_ends_after_the_format() {
    assert_eq!(BootStage::InitWindowing.next(), Some(BootStage::RequestContextVersion));
    assert_eq!(BootStage::MakeContextCurrent.next(), Some(BootStage::LoadFunctions));
    assert_eq!(BootStage::CreateVertexArray.next(), Some(BootStage::CreateBuffer));
    assert_eq!(BootStage::UploadVertices.next(), Some(BootStage::DeclareFormat));
    assert_eq!(BootStage::DeclareFormat.next(), None);
}

#[test]
fn shaders_are_released_once_the_program_is_linked() {
    let mut host = host();
    let linked = take_steps(&mut host, Renderer::new(), 19);
    assert_eq!(
        linked,
        Renderer::Booting {
            stage: BootStage::DeleteVertexShader,
            handles: Handles { vertex_shader: 1, fragment_shader: 2, program: 3, vertex_array: 0, vertex_buffer: 0 },
        }
    );
    let released = take_steps(&mut host, linked, 2);
    assert_eq!(
        released,
        Renderer::Booting {
            stage: BootStage::CreateVertexArray,
            handles: Handles { vertex_shader: 0, fragment_shader: 0, program: 3, vertex_array: 0, vertex_buffer: 0 },
        }
    );
}

#[test]
fn handles_record_what_the_host_created() {
    let handles = Handles { vertex_shader: 0, fragment_shader: 0, program: 0, vertex_array: 0, vertex_buffer: 0 };
    let with_shader = handles.record(BootStage::CreateVertexShader, &Reply::Handle(7));
    assert_eq!(with_shader.vertex_shader, 7);
    let with_program = with_shader.record(BootStage::CreateProgram, &Reply::Handle(9));
    assert_eq!(
        with_program,
        Handles { vertex_shader: 7, fragment_shader: 0, program: 9, vertex_array: 0, vertex_buffer: 0 }
    );
    assert_eq!(with_program.record(BootStage::LinkProgram, &Reply::Handle(11)), with_program);
    assert_eq!(with_program.record(BootStage::CreateBuffer, &Reply::Done), with_program);
    assert_eq!(with_program.record(BootStage::DeleteVertexShader, &Reply::Done).vertex_shader, 0);
}

#[test]
fn windowing_failure_is_fatal() {
    let result = Renderer::new().advance(Reply::Failed);
    assert_eq!(result, Err(GraphicsError::WindowingInitFailed));
}

#[test]
fn window_creation_failure_is_fatal() {
    let mut host = host();
    let renderer = take_steps(&mut host, Renderer::new(), 3);
    assert_eq!(
        renderer.next_step(),
        Step::CreateWindow { size: WindowSize { width: 1920, height: 1080 }, title: WINDOW_TITLE }
    );
    assert_eq!(renderer.advance(Reply::Failed), Err(GraphicsError::WindowCreationFailed));
}

#[test]
fn vertex_shader_compile_failure_is_reported_with_its_log() {
    let mut host = host();
    let renderer = take_steps(&mut host, Renderer::new(), 11);
    assert_eq!(renderer.next_step(), Step::CompileShader { shader: 1 });
    let result = renderer.advance(Reply::Status { ok: false, log: String::from("0:1: syntax error") });
    assert_eq!(
        result,
        Err(GraphicsError::ShaderCompileFailed {
            stage: ShaderStage::Vertex,
            log: String::from("0:1: syntax error"),
        })
    );
}

#[test]
fn fragment_shader_compile_failure_is_reported_with_its_log() {
    let mut host = host();
    let renderer = take_steps(&mut host, Renderer::new(), 14);
    assert_eq!(renderer.next_step(), Step::CompileShader { shader: 2 });
    let result = renderer.advance(Reply::Status { ok: false, log: String::from("undeclared identifier") });
    assert_eq!(
        result,
        Err(GraphicsError::ShaderCompileFailed {
            stage: ShaderStage::Fragment,
            log: String::from("undeclared identifier"),
        })
    );
}

#[test]
fn link_failure_is_reported_with_its_log() {
    let mut host = host();
    let renderer = take_steps(&mut host, Renderer::new(), 18);
    assert_eq!(renderer.next_step(), Step::LinkProgram { program: 3 });
    let result = renderer.advance(Reply::Status { ok: false, log: String::from("no main in vertex stage") });
    assert_eq!(
        result,
        Err(GraphicsError::ProgramLinkFailed { log: String::from("no main in vertex stage") })
    );
}

#[test]
fn good_status_moves_on_whatever_the_log() {
    let mut host = host();
    let renderer = take_steps(&mut host, Renderer::new(), 11);
    let next = renderer.advance(Reply::Status { ok: true, log: String::from("warning: unused") });
    assert_eq!(
        next,
        Ok(Renderer::Booting {
            stage: BootStage::CreateFragmentShader,
            handles: Handles { vertex_shader: 1, fragment_shader: 0, program: 0, vertex_array: 0, vertex_buffer: 0 },
        })
    );
}

#[test]
fn a_reply_of_the_wrong_kind_is_refused() {
    assert_eq!(Renderer::new().advance(Reply::NoEvent), Err(GraphicsError::UnexpectedReply));
    assert_eq!(Renderer::new().advance(Reply::Handle(1)), Err(GraphicsError::UnexpectedReply));
    assert_eq!(
        booting(BootStage::MakeContextCurrent).advance(Reply::Failed),
        Err(GraphicsError::UnexpectedReply)
    );
    assert_eq!(
        booting(BootStage::CreateProgram).advance(Reply::Done),
        Err(GraphicsError::UnexpectedReply)
    );
    assert_eq!(
        booting(BootStage::LinkProgram).advance(Reply::Done),
        Err(GraphicsError::UnexpectedReply)
    );
    assert_eq!(
        booting(BootStage::AttachVertexShader).advance(Reply::Status { ok: false, log: String::new() }),
        Err(GraphicsError::UnexpectedReply)
    );
    assert_eq!(
        running(FrameStage::CheckClose).advance(Reply::Done),
        Err(GraphicsError::UnexpectedReply)
    );
    assert_eq!(
        running(FrameStage::Clear).advance(Reply::ShouldClose(true)),
        Err(GraphicsError::UnexpectedReply)
    );
    assert_eq!(
        running(FrameStage::NextEvent).advance(Reply::Done),
        Err(GraphicsError::UnexpectedReply)
    );
}

#[test]
fn replies_fit_the_steps_that_await_them() {
    assert!(Reply::Done.is_answer_to(&Step::InitWindowing));
    assert!(Reply::Failed.is_answer_to(&Step::InitWindowing));
    assert!(Reply::Failed
        .is_answer_to(&Step::CreateWindow { size: WindowSize { width: 1, height: 1 }, title: "" }));
    assert!(!Reply::Failed.is_answer_to(&Step::LoadFunctions));
    assert!(Reply::Done.is_answer_to(&Step::LoadFunctions));
    assert!(Reply::Handle(4).is_answer_to(&Step::CreateBuffer));
    assert!(!Reply::Done.is_answer_to(&Step::CreateBuffer));
    assert!(Reply::Status { ok: false, log: String::new() }.is_answer_to(&Step::LinkProgram { program: 3 }));
    assert!(!Reply::Status { ok: true, log: String::new() }.is_answer_to(&Step::CreateProgram));
    assert!(Reply::ShouldClose(false).is_answer_to(&Step::QueryShouldClose));
    assert!(Reply::Event(WindowEvent::Other).is_answer_to(&Step::NextEvent));
    assert!(Reply::NoEvent.is_answer_to(&Step::NextEvent));
    assert!(!Reply::NoEvent.is_answer_to(&Step::PollEvents));
    assert!(!Reply::Done.is_answer_to(&Step::Exit));
    assert!(!Reply::NoEvent.is_answer_to(&Step::Exit));
}

#[test]
fn a_frame_clears_presents_polls_and_takes_events() {
    let mut host = host();
    let renderer = started(&mut host);
    host.taken.clear();
    let renderer = take_steps(&mut host, renderer, 6);
    assert_eq!(
        host.taken,
        vec![
            Step::QueryShouldClose,
            Step::SetClearColor(ColorBits {
                red: 0x3DCC_CCCD,
                green: 0x3E19_999A,
                blue: 0x3E4C_CCCD,
                alpha: 0x3F80_0000,
            }),
            Step::ClearColorBuffer,
            Step::SwapBuffers,
            Step::PollEvents,
            Step::NextEvent,
        ]
    );
    assert_eq!(renderer, running(FrameStage::CheckClose));
}

#[test]
fn end_to_end_escape_press_ends_the_loop() {
    let mut host = host();
    let renderer = started(&mut host);

    // One frame without events: the window stays open.
    let renderer = take_steps(&mut host, renderer, 6);
    assert!(!host.close_flag);
    assert_eq!(renderer.window().map(|window| window.should_close()), Some(false));
    assert!(!renderer.is_finished());

    // Escape is pressed during the next frame.
    host.arriving.push_back(WindowEvent::Key(Key::Escape, Action::Press));
    let renderer = take_steps(&mut host, renderer, 6);
    assert_eq!(renderer.next_step(), Step::SetShouldClose);
    assert_eq!(renderer.window().map(|window| window.should_close()), Some(true));
    assert!(!renderer.is_finished());
    let renderer = take_steps(&mut host, renderer, 1);
    assert!(host.close_flag);

    // The rest of the events is taken, then the loop ends at its head.
    let renderer = take_steps(&mut host, renderer, 1);
    assert_eq!(renderer.next_step(), Step::QueryShouldClose);
    let renderer = take_steps(&mut host, renderer, 1);
    assert!(renderer.is_finished());
    assert_eq!(renderer.next_step(), Step::Exit);
    assert_eq!(
        renderer,
        Renderer::Finished { context: GraphicsContext { program: 3, vertex_array: 4, vertex_buffer: 5 } }
    );
}

#[test]
fn escape_release_keeps_the_loop_running() {
    let mut host = host();
    let renderer = started(&mut host);
    host.arriving.push_back(WindowEvent::Key(Key::Escape, Action::Release));
    host.arriving.push_back(WindowEvent::Key(Key::Other(65), Action::Press));
    let renderer = take_steps(&mut host, renderer, 8);
    assert_eq!(renderer, running(FrameStage::CheckClose));
    assert!(!host.close_flag);
    let renderer = take_steps(&mut host, renderer, 1);
    assert_eq!(renderer, running(FrameStage::SetClearColor));
}

#[test]
fn resize_event_sets_the_viewport_exactly_once() {
    let mut host = host();
    let renderer = started(&mut host);
    host.arriving.push_back(WindowEvent::FramebufferSize(1280, 720));
    host.taken.clear();
    let renderer = take_steps(&mut host, renderer, 8);
    let resized = Viewport { x: 0, y: 0, width: 1280, height: 720 };
    let viewport_steps: Vec<&Step> =
        host.taken.iter().filter(|step| matches!(step, Step::SetViewport(_))).collect();
    assert_eq!(viewport_steps, vec![&Step::SetViewport(resized)]);
    assert_eq!(host.viewport, Some(resized));
    assert_eq!(
        renderer,
        Renderer::Running {
            context: GraphicsContext { program: 3, vertex_array: 4, vertex_buffer: 5 },
            window: Window { should_close: false, viewport: resized },
            frame: FrameStage::CheckClose,
        }
    );
}

#[test]
fn each_resize_of_a_batch_sets_the_viewport_in_turn() {
    let mut host = host();
    let renderer = started(&mut host);
    host.arriving.push_back(WindowEvent::FramebufferSize(100, 50));
    host.arriving.push_back(WindowEvent::Other);
    host.arriving.push_back(WindowEvent::FramebufferSize(200, 150));
    host.taken.clear();
    take_steps(&mut host, renderer, 11);
    assert_eq!(
        host.taken[5..],
        [
            Step::NextEvent,
            Step::SetViewport(Viewport { x: 0, y: 0, width: 100, height: 50 }),
            Step::NextEvent,
            Step::NextEvent,
            Step::SetViewport(Viewport { x: 0, y: 0, width: 200, height: 150 }),
            Step::NextEvent,
        ]
    );
    assert_eq!(host.viewport, Some(Viewport { x: 0, y: 0, width: 200, height: 150 }));
}

#[test]
fn events_after_escape_are_still_handled() {
    let mut host = host();
    let renderer = started(&mut host);
    host.arriving.push_back(WindowEvent::Key(Key::Escape, Action::Press));
    host.arriving.push_back(WindowEvent::FramebufferSize(320, 240));
    let renderer = take_steps(&mut host, renderer, 10);
    assert_eq!(renderer.next_step(), Step::QueryShouldClose);
    assert!(host.close_flag);
    assert_eq!(host.viewport, Some(Viewport { x: 0, y: 0, width: 320, height: 240 }));
    let renderer = take_steps(&mut host, renderer, 1);
    assert!(renderer.is_finished());
}

#[test]
fn a_close_request_of_the_windowing_layer_ends_the_loop() {
    let renderer = running(FrameStage::CheckClose);
    assert_eq!(
        renderer.advance(Reply::ShouldClose(true)),
        Ok(Renderer::Finished { context: GraphicsContext { program: 3, vertex_array: 4, vertex_buffer: 5 } })
    );
}

#[test]
fn the_close_flag_ends_the_loop_whatever_the_windowing_layer_says() {
    let closing = Renderer::Running {
        context: GraphicsContext { program: 3, vertex_array: 4, vertex_buffer: 5 },
        window: Window { should_close: true, viewport: Viewport { x: 0, y: 0, width: 800, height: 800 } },
        frame: FrameStage::CheckClose,
    };
    let context = GraphicsContext { program: 3, vertex_array: 4, vertex_buffer: 5 };
    assert_eq!(closing.advance(Reply::ShouldClose(false)), Ok(Renderer::Finished { context }));
    assert_eq!(closing.advance(Reply::ShouldClose(true)), Ok(Renderer::Finished { context }));
}

#[test]
fn an_open_window_begins_the_next_frame() {
    assert_eq!(
        running(FrameStage::CheckClose).advance(Reply::ShouldClose(false)),
        Ok(running(FrameStage::SetClearColor))
    );
}

#[test]
fn the_loop_does_not_end_in_the_middle_of_a_frame() {
    let closing = Renderer::Running {
        context: GraphicsContext { program: 3, vertex_array: 4, vertex_buffer: 5 },
        window: Window { should_close: true, viewport: Viewport { x: 0, y: 0, width: 800, height: 800 } },
        frame: FrameStage::CloseWindow,
    };
    let next = closing.advance(Reply::Done).expect("the step was taken");
    assert_eq!(next.next_step(), Step::NextEvent);
    assert!(!next.is_finished());
    let next = next.advance(Reply::NoEvent).expect("no event is pending");
    assert_eq!(next.next_step(), Step::QueryShouldClose);
    assert!(!next.is_finished());
}

#[test]
fn a_finished_renderer_accepts_no_reply() {
    let finished =
        Renderer::Finished { context: GraphicsContext { program: 3, vertex_array: 4, vertex_buffer: 5 } };
    assert_eq!(finished.next_step(), Step::Exit);
    assert_eq!(finished.advance(Reply::Done), Err(GraphicsError::UnexpectedReply));
    assert_eq!(finished.advance(Reply::ShouldClose(true)), Err(GraphicsError::UnexpectedReply));
    assert_eq!(finished.window(), None);
}

#[test]
fn frame_stages_follow_the_effect_of_an_event() {
    let taking = running(FrameStage::NextEvent);
    let closing = taking.advance(Reply::Event(WindowEvent::Key(Key::Escape, Action::Press))).unwrap();
    assert_eq!(closing.next_step(), Step::SetShouldClose);
    let resizing = taking.advance(Reply::Event(WindowEvent::FramebufferSize(10, 20))).unwrap();
    assert_eq!(resizing.next_step(), Step::SetViewport(Viewport { x: 0, y: 0, width: 10, height: 20 }));
    let unchanged = taking.advance(Reply::Event(WindowEvent::Other)).unwrap();
    assert_eq!(unchanged, taking);
}

#[test]
fn frame_stages_follow_one_another() {
    assert_eq!(FrameStage::CheckClose.next(), FrameStage::SetClearColor);
    assert_eq!(FrameStage::SetClearColor.next(), FrameStage::Clear);
    assert_eq!(FrameStage::Clear.next(), FrameStage::SwapBuffers);
    assert_eq!(FrameStage::SwapBuffers.next(), FrameStage::PollEvents);
    assert_eq!(FrameStage::PollEvents.next(), FrameStage::NextEvent);
    assert_eq!(FrameStage::NextEvent.next(), FrameStage::CheckClose);
    assert_eq!(FrameStage::CloseWindow.next(), FrameStage::NextEvent);
    assert_eq!(FrameStage::ResizeViewport.next(), FrameStage::NextEvent);
}

#[test]
fn each_effect_has_its_stage() {
    assert_eq!(FrameStage::for_effect(Effect::Nothing), FrameStage::NextEvent);
    assert_eq!(FrameStage::for_effect(Effect::RequestClose), FrameStage::CloseWindow);
    assert_eq!(
        FrameStage::for_effect(Effect::SetViewport(Viewport { x: 0, y: 0, width: 1, height: 2 })),
        FrameStage::ResizeViewport
    );
}

#[test]
fn stages_issue_their_steps_on_the_objects_held() {
    let handles = Handles { vertex_shader: 11, fragment_shader: 12, program: 13, vertex_array: 14, vertex_buffer: 15 };
    assert_eq!(
        BootStage::SourceFragmentShader.issue(handles),
        Step::SetShaderSource { shader: 12, stage: ShaderStage::Fragment }
    );
    assert_eq!(BootStage::AttachVertexShader.issue(handles), Step::AttachShader { program: 13, shader: 11 });
    assert_eq!(BootStage::AttachFragmentShader.issue(handles), Step::AttachShader { program: 13, shader: 12 });
    assert_eq!(BootStage::DeleteFragmentShader.issue(handles), Step::DeleteShader { shader: 12 });
    assert_eq!(BootStage::BindBuffer.issue(handles), Step::BindArrayBuffer { buffer: 15 });
    let window = Window { should_close: false, viewport: Viewport { x: 0, y: 0, width: 64, height: 48 } };
    assert_eq!(
        FrameStage::ResizeViewport.issue(window),
        Step::SetViewport(Viewport { x: 0, y: 0, width: 64, height: 48 })
    );
    assert_eq!(FrameStage::CloseWindow.issue(window), Step::SetShouldClose);
}
