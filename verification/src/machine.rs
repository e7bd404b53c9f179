//! The executable renderer: what to do next, and what follows from the
//! host's reply.

use crate::error::{GraphicsError, ShaderStage};
use crate::event::{handle_window_event, Effect, Window};
use crate::lifecycle::{
    BootStage, FrameStage, GraphicsContext, Handles, Renderer, Reply, Step,
};
use crate::settings::{
    clear_color, initial_viewport, requested_context, requested_window, WINDOW_TITLE,
};
use crate::shader::{compile_result, link_result};
use crate::vertex::position_format;
use vstd::prelude::*;

verus! {

impl BootStage {
    /// The stage that comes next in the plan, if this is not the last.
    pub fn next(self) -> (next: Option<BootStage>)
        ensures
            next == self.following(),
    {
        match self {
            BootStage::InitWindowing => Some(BootStage::RequestContextVersion),
            BootStage::RequestContextVersion => Some(BootStage::RequestCoreProfile),
            BootStage::RequestCoreProfile => Some(BootStage::CreateWindow),
            BootStage::CreateWindow => Some(BootStage::MakeContextCurrent),
            BootStage::MakeContextCurrent => Some(BootStage::LoadFunctions),
            BootStage::LoadFunctions => Some(BootStage::EnableKeyEvents),
            BootStage::EnableKeyEvents => Some(BootStage::EnableResizeEvents),
            BootStage::EnableResizeEvents => Some(BootStage::SetInitialViewport),
            BootStage::SetInitialViewport => Some(BootStage::CreateVertexShader),
            BootStage::CreateVertexShader => Some(BootStage::SourceVertexShader),
            BootStage::SourceVertexShader => Some(BootStage::CompileVertexShader),
            BootStage::CompileVertexShader => Some(BootStage::CreateFragmentShader),
            BootStage::CreateFragmentShader => Some(BootStage::SourceFragmentShader),
            BootStage::SourceFragmentShader => Some(BootStage::CompileFragmentShader),
            BootStage::CompileFragmentShader => Some(BootStage::CreateProgram),
            BootStage::CreateProgram => Some(BootStage::AttachVertexShader),
            BootStage::AttachVertexShader => Some(BootStage::AttachFragmentShader),
            BootStage::AttachFragmentShader => Some(BootStage::LinkProgram),
            BootStage::LinkProgram => Some(BootStage::DeleteVertexShader),
            BootStage::DeleteVertexShader => Some(BootStage::DeleteFragmentShader),
            BootStage::DeleteFragmentShader => Some(BootStage::CreateVertexArray),
            BootStage::CreateVertexArray => Some(BootStage::CreateBuffer),
            BootStage::CreateBuffer => Some(BootStage::BindBuffer),
            BootStage::BindBuffer => Some(BootStage::UploadVertices),
            BootStage::UploadVertices => Some(BootStage::DeclareFormat),
            BootStage::DeclareFormat => None,
        }
    }

    /// The step that is due in this stage, on the objects created so far.
    pub fn issue(self, handles: Handles) -> (step: Step)
        ensures
            step == self.step(handles),
    {
        match self {
            BootStage::InitWindowing => Step::InitWindowing,
            BootStage::RequestContextVersion => Step::RequestContextVersion(requested_context()),
            BootStage::RequestCoreProfile => Step::RequestCoreProfile,
            BootStage::CreateWindow => Step::CreateWindow {
                size: requested_window(),
                title: WINDOW_TITLE,
            },
            BootStage::MakeContextCurrent => Step::MakeContextCurrent,
            BootStage::LoadFunctions => Step::LoadFunctions,
            BootStage::EnableKeyEvents => Step::EnableKeyEvents,
            BootStage::EnableResizeEvents => Step::EnableResizeEvents,
            BootStage::SetInitialViewport => Step::SetViewport(initial_viewport()),
            BootStage::CreateVertexShader => Step::CreateShader(ShaderStage::Vertex),
            BootStage::SourceVertexShader => Step::SetShaderSource {
                shader: handles.vertex_shader,
                stage: ShaderStage::Vertex,
            },
            BootStage::CompileVertexShader => Step::CompileShader { shader: handles.vertex_shader },
            BootStage::CreateFragmentShader => Step::CreateShader(ShaderStage::Fragment),
            BootStage::SourceFragmentShader => Step::SetShaderSource {
                shader: handles.fragment_shader,
                stage: ShaderStage::Fragment,
            },
            BootStage::CompileFragmentShader => Step::CompileShader {
                shader: handles.fragment_shader,
            },
            BootStage::CreateProgram => Step::CreateProgram,
            BootStage::AttachVertexShader => Step::AttachShader {
                program: handles.program,
                shader: handles.vertex_shader,
            },
            BootStage::AttachFragmentShader => Step::AttachShader {
                program: handles.program,
                shader: handles.fragment_shader,
            },
            BootStage::LinkProgram => Step::LinkProgram { program: handles.program },
            BootStage::DeleteVertexShader => Step::DeleteShader { shader: handles.vertex_shader },
            BootStage::DeleteFragmentShader => Step::DeleteShader {
                shader: handles.fragment_shader,
            },
            BootStage::CreateVertexArray => Step::CreateVertexArray,
            BootStage::CreateBuffer => Step::CreateBuffer,
            BootStage::BindBuffer => Step::BindArrayBuffer { buffer: handles.vertex_buffer },
            BootStage::UploadVertices => Step::UploadVertices,
            BootStage::DeclareFormat => Step::DeclareFormat {
                vertex_array: handles.vertex_array,
                format: position_format(),
            },
        }
    }
}

impl FrameStage {
    /// The step that is due in this stage of a frame.
    pub fn issue(self, window: Window) -> (step: Step)
        ensures
            step == self.step(window),
    {
        match self {
            FrameStage::CheckClose => Step::QueryShouldClose,
            FrameStage::SetClearColor => Step::SetClearColor(clear_color()),
            FrameStage::Clear => Step::ClearColorBuffer,
            FrameStage::SwapBuffers => Step::SwapBuffers,
            FrameStage::PollEvents => Step::PollEvents,
            FrameStage::NextEvent => Step::NextEvent,
            FrameStage::CloseWindow => Step::SetShouldClose,
            FrameStage::ResizeViewport => Step::SetViewport(window.viewport),
        }
    }

    /// The stage that follows this one where nothing comes between.
    pub fn next(self) -> (next: FrameStage)
        ensures
            next == self.following(),
    {
        match self {
            FrameStage::CheckClose => FrameStage::SetClearColor,
            FrameStage::SetClearColor => FrameStage::Clear,
            FrameStage::Clear => FrameStage::SwapBuffers,
            FrameStage::SwapBuffers => FrameStage::PollEvents,
            FrameStage::PollEvents => FrameStage::NextEvent,
            FrameStage::NextEvent => FrameStage::CheckClose,
            FrameStage::CloseWindow | FrameStage::ResizeViewport => FrameStage::NextEvent,
        }
    }

    /// The stage in which `effect` is carried out: an event without effect
    /// leaves the renderer taking events.
    pub fn for_effect(effect: Effect) -> (stage: FrameStage)
        ensures
            stage == FrameStage::carrying_out(effect),
    {
        match effect {
            Effect::Nothing => FrameStage::NextEvent,
            Effect::RequestClose => FrameStage::CloseWindow,
            Effect::SetViewport(_) => FrameStage::ResizeViewport,
        }
    }
}

impl Handles {
    /// The objects after the step of `stage` has been answered by `reply`.
    pub fn record(self, stage: BootStage, reply: &Reply) -> (handles: Handles)
        ensures
            handles == self.after(stage, *reply),
    {
        let mut handles = self;
        match reply {
            Reply::Handle(name) => match stage {
                BootStage::CreateVertexShader => {
                    handles.vertex_shader = *name;
                },
                BootStage::CreateFragmentShader => {
                    handles.fragment_shader = *name;
                },
                BootStage::CreateProgram => {
                    handles.program = *name;
                },
                BootStage::CreateVertexArray => {
                    handles.vertex_array = *name;
                },
                BootStage::CreateBuffer => {
                    handles.vertex_buffer = *name;
                },
                _ => {},
            },
            Reply::Done => match stage {
                BootStage::DeleteVertexShader => {
                    handles.vertex_shader = 0;
                },
                BootStage::DeleteFragmentShader => {
                    handles.fragment_shader = 0;
                },
                _ => {},
            },
            _ => {},
        }
        handles
    }
}

impl Reply {
    /// Whether this is an outcome that `step` can have.
    pub fn is_answer_to(&self, step: &Step) -> (fits: bool)
        ensures
            fits == self.answers(*step),
    {
        match step {
            Step::InitWindowing | Step::CreateWindow { .. } => match self {
                Reply::Done | Reply::Failed => true,
                _ => false,
            },
            Step::CreateShader(_)
            | Step::CreateProgram
            | Step::CreateVertexArray
            | Step::CreateBuffer => match self {
                Reply::Handle(_) => true,
                _ => false,
            },
            Step::CompileShader { .. } | Step::LinkProgram { .. } => match self {
                Reply::Status { .. } => true,
                _ => false,
            },
            Step::QueryShouldClose => match self {
                Reply::ShouldClose(_) => true,
                _ => false,
            },
            Step::NextEvent => match self {
                Reply::Event(_) | Reply::NoEvent => true,
                _ => false,
            },
            Step::Exit => false,
            _ => match self {
                Reply::Done => true,
                _ => false,
            },
        }
    }
}

impl Renderer {
    /// A renderer that has done nothing yet.
    pub fn new() -> (renderer: Renderer)
        ensures
            renderer == Renderer::start(),
    {
        Renderer::Booting {
            stage: BootStage::InitWindowing,
            handles: Handles {
                vertex_shader: 0,
                fragment_shader: 0,
                program: 0,
                vertex_array: 0,
                vertex_buffer: 0,
            },
        }
    }

    /// The step for the host to take now.
    pub fn next_step(&self) -> (step: Step)
        ensures
            step == self.due(),
    {
        match self {
            Renderer::Booting { stage, handles } => stage.issue(*handles),
            Renderer::Running { window, frame, .. } => frame.issue(*window),
            Renderer::Finished { .. } => Step::Exit,
        }
    }

    /// Whether the frame loop has ended.
    pub fn is_finished(&self) -> (finished: bool)
        ensures
            finished == (self is Finished),
    {
        match self {
            Renderer::Finished { .. } => true,
            _ => false,
        }
    }

    /// The objects that the start-up has left behind, once it is over.
    pub fn context(&self) -> (context: Option<GraphicsContext>)
        ensures
            context == (match *self {
                Renderer::Booting { .. } => None,
                Renderer::Running { context, .. } => Some(context),
                Renderer::Finished { context } => Some(context),
            }),
    {
        match self {
            Renderer::Booting { .. } => None,
            Renderer::Running { context, .. } => Some(*context),
            Renderer::Finished { context } => Some(*context),
        }
    }

    /// What the renderer knows of its window, while the frame loop runs.
    pub fn window(&self) -> (window: Option<Window>)
        ensures
            window == (match *self {
                Renderer::Running { window, .. } => Some(window),
                _ => None,
            }),
    {
        match self {
            Renderer::Running { window, .. } => Some(*window),
            _ => None,
        }
    }

    /// Takes the host's reply to the due step and moves on.
    ///
    /// A reply that the step cannot have is an error, and so is each
    /// failure that the host reports: of the windowing layer, of the
    /// window, of a shader to compile, of the program to link. Every other
    /// reply moves the renderer to the next step of the start-up or of the
    /// frame.
    pub fn advance(self, reply: Reply) -> (result: Result<Renderer, GraphicsError>)
        ensures
            result == self.after(reply),
            result is Err <==> self.failure(reply) is Some,
            !reply.answers(self.due()) ==> result == Err::<Renderer, GraphicsError>(
                GraphicsError::UnexpectedReply,
            ),
            reply is Status && !reply->ok ==> result is Err,
            reply is Failed ==> result is Err,
    {
        let step = self.next_step();
        if !reply.is_answer_to(&step) {
            return Err(GraphicsError::UnexpectedReply);
        }
        match self {
            Renderer::Booting { stage, handles } => {
                let handles = handles.record(stage, &reply);
                match reply {
                    Reply::Failed => {
                        return Err(
                            match stage {
                                BootStage::InitWindowing => GraphicsError::WindowingInitFailed,
                                BootStage::CreateWindow => GraphicsError::WindowCreationFailed,
                                _ => GraphicsError::UnexpectedReply,
                            },
                        );
                    },
                    Reply::Status { ok, log } => {
                        let verdict = match stage {
                            BootStage::CompileVertexShader => compile_result(
                                ShaderStage::Vertex,
                                ok,
                                log,
                            ),
                            BootStage::CompileFragmentShader => compile_result(
                                ShaderStage::Fragment,
                                ok,
                                log,
                            ),
                            BootStage::LinkProgram => link_result(ok, log),
                            _ => Err(GraphicsError::UnexpectedReply),
                        };
                        if let Err(error) = verdict {
                            return Err(error);
                        }
                    },
                    _ => {},
                }
                match stage.next() {
                    Some(next) => Ok(Renderer::Booting { stage: next, handles }),
                    None => Ok(
                        Renderer::Running {
                            context: GraphicsContext {
                                program: handles.program,
                                vertex_array: handles.vertex_array,
                                vertex_buffer: handles.vertex_buffer,
                            },
                            window: Window::new(initial_viewport()),
                            frame: FrameStage::CheckClose,
                        },
                    ),
                }
            },
            Renderer::Running { context, window, frame } => {
                let mut window = window;
                let frame = match reply {
                    Reply::ShouldClose(asked) => {
                        if asked || window.should_close() {
                            return Ok(Renderer::Finished { context });
                        }
                        frame.next()
                    },
                    Reply::Event(event) => {
                        let effect = handle_window_event(&mut window, event);
                        FrameStage::for_effect(effect)
                    },
                    _ => frame.next(),
                };
                Ok(Renderer::Running { context, window, frame })
            },
            Renderer::Finished { .. } => Ok(self),
        }
    }
}

} // verus!
