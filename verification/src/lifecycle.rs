//! The renderer as a state machine: start-up in a fixed order, then the
//! frame loop, until the window is asked to close.
//!
//! The machine names the next [`Step`], one call into the windowing or the
//! GPU layer; the host makes the call and hands the outcome back as a
//! [`Reply`]. The machine itself touches neither layer.

use crate::error::{GraphicsError, ShaderStage};
use crate::event::{effect_of, Effect, Viewport, Window, WindowEvent};
use crate::settings::{
    clear_color, initial_viewport, requested_context, requested_window, ColorBits, ContextVersion,
    WindowSize, WINDOW_TITLE,
};
use crate::vertex::{position_format, AttributeFormat};
use vstd::prelude::*;

verus! {

/// The steps of the start-up, in the order in which they are taken. Each
/// stage is named after the step that is due in it.
#[derive(Clone, Copy, Debug, PartialEq, Eq, Structural)]
pub enum BootStage {
    InitWindowing,
    RequestContextVersion,
    RequestCoreProfile,
    CreateWindow,
    MakeContextCurrent,
    LoadFunctions,
    EnableKeyEvents,
    EnableResizeEvents,
    SetInitialViewport,
    CreateVertexShader,
    SourceVertexShader,
    CompileVertexShader,
    CreateFragmentShader,
    SourceFragmentShader,
    CompileFragmentShader,
    CreateProgram,
    AttachVertexShader,
    AttachFragmentShader,
    LinkProgram,
    DeleteVertexShader,
    DeleteFragmentShader,
    CreateVertexArray,
    CreateBuffer,
    BindBuffer,
    UploadVertices,
    DeclareFormat,
}

/// Where the renderer stands within a frame. Each stage is named after the
/// step that is due in it.
///
/// A frame draws nothing: it clears the screen and presents. The triangle
/// is uploaded and its format declared, but no draw call is part of the
/// loop.
#[derive(Clone, Copy, Debug, PartialEq, Eq, Structural)]
pub enum FrameStage {
    /// The head of the loop: is the window asked to close? It is, if the
    /// renderer has set the close flag itself or the windowing layer says so.
    CheckClose,
    SetClearColor,
    Clear,
    SwapBuffers,
    PollEvents,
    /// Taking the pending events, one at a time.
    NextEvent,
    /// An event asked to close the window.
    CloseWindow,
    /// An event asked for a new viewport.
    ResizeViewport,
}

/// The GPU objects that exist during start-up, by their names. The name 0
/// stands for no object: one not yet created, or deleted again.
#[derive(Clone, Copy, Debug, PartialEq, Eq, Structural)]
pub struct Handles {
    pub vertex_shader: u32,
    pub fragment_shader: u32,
    pub program: u32,
    pub vertex_array: u32,
    pub vertex_buffer: u32,
}

/// What the start-up leaves behind: the one program, the one vertex array
/// and the one buffer of the process.
#[derive(Clone, Copy, Debug, PartialEq, Eq, Structural)]
pub struct GraphicsContext {
    pub program: u32,
    pub vertex_array: u32,
    pub vertex_buffer: u32,
}

/// One call into the windowing or the GPU layer, with its arguments.
#[derive(Clone, Copy, Debug, PartialEq, Eq)]
pub enum Step {
    InitWindowing,
    RequestContextVersion(ContextVersion),
    RequestCoreProfile,
    /// Create the window, in windowed mode.
    CreateWindow { size: WindowSize, title: &'static str },
    MakeContextCurrent,
    /// Load the GPU entry points through the windowing layer.
    LoadFunctions,
    EnableKeyEvents,
    EnableResizeEvents,
    SetViewport(Viewport),
    CreateShader(ShaderStage),
    /// Give the shader the source of its stage.
    SetShaderSource { shader: u32, stage: ShaderStage },
    /// Compile the shader and query its status and log.
    CompileShader { shader: u32 },
    CreateProgram,
    AttachShader { program: u32, shader: u32 },
    /// Link the program and query its status and log.
    LinkProgram { program: u32 },
    DeleteShader { shader: u32 },
    CreateVertexArray,
    CreateBuffer,
    /// Bind the buffer to the array-buffer target.
    BindArrayBuffer { buffer: u32 },
    /// Upload the triangle to the buffer bound to the array-buffer target,
    /// with the usage hint of static drawing.
    UploadVertices,
    DeclareFormat { vertex_array: u32, format: AttributeFormat },
    QueryShouldClose,
    SetClearColor(ColorBits),
    ClearColorBuffer,
    SwapBuffers,
    /// Poll the windowing layer for events, without waiting.
    PollEvents,
    /// Take the next pending event, if there is one.
    NextEvent,
    /// Set the window's close flag.
    SetShouldClose,
    /// Leave the loop: there is nothing more to do.
    Exit,
}

/// The outcome of a step, as the host reports it.
#[derive(Clone, Debug, PartialEq, Eq)]
pub enum Reply {
    /// The call was made.
    Done,
    /// The call could not do its work.
    Failed,
    /// The name of the object that was created.
    Handle(u32),
    /// The status after compiling or linking, and the log that came with it.
    Status { ok: bool, log: String },
    /// The window's close flag.
    ShouldClose(bool),
    /// The next pending event.
    Event(WindowEvent),
    /// No event is pending.
    NoEvent,
}

/// The renderer: starting up, running the frame loop, or done.
#[derive(Clone, Copy, Debug, PartialEq, Eq, Structural)]
pub enum Renderer {
    Booting { stage: BootStage, handles: Handles },
    Running { context: GraphicsContext, window: Window, frame: FrameStage },
    Finished { context: GraphicsContext },
}

/// The start-up, step after step.
pub open spec fn boot_plan() -> Seq<BootStage> {
    seq![
        BootStage::InitWindowing,
        BootStage::RequestContextVersion,
        BootStage::RequestCoreProfile,
        BootStage::CreateWindow,
        BootStage::MakeContextCurrent,
        BootStage::LoadFunctions,
        BootStage::EnableKeyEvents,
        BootStage::EnableResizeEvents,
        BootStage::SetInitialViewport,
        BootStage::CreateVertexShader,
        BootStage::SourceVertexShader,
        BootStage::CompileVertexShader,
        BootStage::CreateFragmentShader,
        BootStage::SourceFragmentShader,
        BootStage::CompileFragmentShader,
        BootStage::CreateProgram,
        BootStage::AttachVertexShader,
        BootStage::AttachFragmentShader,
        BootStage::LinkProgram,
        BootStage::DeleteVertexShader,
        BootStage::DeleteFragmentShader,
        BootStage::CreateVertexArray,
        BootStage::CreateBuffer,
        BootStage::BindBuffer,
        BootStage::UploadVertices,
        BootStage::DeclareFormat,
    ]
}

impl BootStage {
    /// The number of steps of the start-up that come before this one.
    pub open spec fn ordinal(self) -> nat {
        match self {
            BootStage::InitWindowing => 0,
            BootStage::RequestContextVersion => 1,
            BootStage::RequestCoreProfile => 2,
            BootStage::CreateWindow => 3,
            BootStage::MakeContextCurrent => 4,
            BootStage::LoadFunctions => 5,
            BootStage::EnableKeyEvents => 6,
            BootStage::EnableResizeEvents => 7,
            BootStage::SetInitialViewport => 8,
            BootStage::CreateVertexShader => 9,
            BootStage::SourceVertexShader => 10,
            BootStage::CompileVertexShader => 11,
            BootStage::CreateFragmentShader => 12,
            BootStage::SourceFragmentShader => 13,
            BootStage::CompileFragmentShader => 14,
            BootStage::CreateProgram => 15,
            BootStage::AttachVertexShader => 16,
            BootStage::AttachFragmentShader => 17,
            BootStage::LinkProgram => 18,
            BootStage::DeleteVertexShader => 19,
            BootStage::DeleteFragmentShader => 20,
            BootStage::CreateVertexArray => 21,
            BootStage::CreateBuffer => 22,
            BootStage::BindBuffer => 23,
            BootStage::UploadVertices => 24,
            BootStage::DeclareFormat => 25,
        }
    }

    /// The stage that comes next in the plan, if this is not the last.
    pub open spec fn following(self) -> Option<BootStage> {
        if self.ordinal() + 1 < boot_plan().len() {
            Some(boot_plan()[self.ordinal() as int + 1])
        } else {
            None
        }
    }

    /// The step that is due in this stage, on the objects created so far.
    pub open spec fn step(self, handles: Handles) -> Step {
        match self {
            BootStage::InitWindowing => Step::InitWindowing,
            BootStage::RequestContextVersion => Step::RequestContextVersion(requested_context()),
            BootStage::RequestCoreProfile => Step::RequestCoreProfile,
            BootStage::CreateWindow => Step::CreateWindow {
                size: requested_window(),
                title: WINDOW_TITLE,
            },
            BootStage::MakeContextCurrent => Step::MakeContextCurrent,
            BootStage::LoadFunctions => Step::LoadFunctions,
            BootStage::EnableKeyEvents => Step::EnableKeyEvents,
            BootStage::EnableResizeEvents => Step::EnableResizeEvents,
            BootStage::SetInitialViewport => Step::SetViewport(initial_viewport()),
            BootStage::CreateVertexShader => Step::CreateShader(ShaderStage::Vertex),
            BootStage::SourceVertexShader => Step::SetShaderSource {
                shader: handles.vertex_shader,
                stage: ShaderStage::Vertex,
            },
            BootStage::CompileVertexShader => Step::CompileShader { shader: handles.vertex_shader },
            BootStage::CreateFragmentShader => Step::CreateShader(ShaderStage::Fragment),
            BootStage::SourceFragmentShader => Step::SetShaderSource {
                shader: handles.fragment_shader,
                stage: ShaderStage::Fragment,
            },
            BootStage::CompileFragmentShader => Step::CompileShader {
                shader: handles.fragment_shader,
            },
            BootStage::CreateProgram => Step::CreateProgram,
            BootStage::AttachVertexShader => Step::AttachShader {
                program: handles.program,
                shader: handles.vertex_shader,
            },
            BootStage::AttachFragmentShader => Step::AttachShader {
                program: handles.program,
                shader: handles.fragment_shader,
            },
            BootStage::LinkProgram => Step::LinkProgram { program: handles.program },
            BootStage::DeleteVertexShader => Step::DeleteShader { shader: handles.vertex_shader },
            BootStage::DeleteFragmentShader => Step::DeleteShader {
                shader: handles.fragment_shader,
            },
            BootStage::CreateVertexArray => Step::CreateVertexArray,
            BootStage::CreateBuffer => Step::CreateBuffer,
            BootStage::BindBuffer => Step::BindArrayBuffer { buffer: handles.vertex_buffer },
            BootStage::UploadVertices => Step::UploadVertices,
            BootStage::DeclareFormat => Step::DeclareFormat {
                vertex_array: handles.vertex_array,
                format: position_format(),
            },
        }
    }
}

impl FrameStage {
    /// The step that is due in this stage of a frame.
    pub open spec fn step(self, window: Window) -> Step {
        match self {
            FrameStage::CheckClose => Step::QueryShouldClose,
            FrameStage::SetClearColor => Step::SetClearColor(clear_color()),
            FrameStage::Clear => Step::ClearColorBuffer,
            FrameStage::SwapBuffers => Step::SwapBuffers,
            FrameStage::PollEvents => Step::PollEvents,
            FrameStage::NextEvent => Step::NextEvent,
            FrameStage::CloseWindow => Step::SetShouldClose,
            FrameStage::ResizeViewport => Step::SetViewport(window.viewport),
        }
    }

    /// The stage that follows this one where nothing comes between: no
    /// request to close at the head of the loop, no event to take.
    pub open spec fn following(self) -> FrameStage {
        match self {
            FrameStage::CheckClose => FrameStage::SetClearColor,
            FrameStage::SetClearColor => FrameStage::Clear,
            FrameStage::Clear => FrameStage::SwapBuffers,
            FrameStage::SwapBuffers => FrameStage::PollEvents,
            FrameStage::PollEvents => FrameStage::NextEvent,
            FrameStage::NextEvent => FrameStage::CheckClose,
            FrameStage::CloseWindow => FrameStage::NextEvent,
            FrameStage::ResizeViewport => FrameStage::NextEvent,
        }
    }

    /// The stage in which the effect of an event is carried out.
    pub open spec fn carrying_out(effect: Effect) -> FrameStage {
        match effect {
            Effect::Nothing => FrameStage::NextEvent,
            Effect::RequestClose => FrameStage::CloseWindow,
            Effect::SetViewport(_) => FrameStage::ResizeViewport,
        }
    }
}

impl Handles {
    /// No object at all.
    pub open spec fn none() -> Handles {
        Handles { vertex_shader: 0, fragment_shader: 0, program: 0, vertex_array: 0, vertex_buffer: 0 }
    }

    /// What is left of the objects once the start-up is over.
    pub open spec fn context(self) -> GraphicsContext {
        GraphicsContext {
            program: self.program,
            vertex_array: self.vertex_array,
            vertex_buffer: self.vertex_buffer,
        }
    }

    /// The objects after the step of `stage` has been answered by `reply`:
    /// a created object is held under the name that the reply gave, a
    /// deleted shader is held no longer, and nothing else changes.
    pub open spec fn after(self, stage: BootStage, reply: Reply) -> Handles {
        match (stage, reply) {
            (BootStage::CreateVertexShader, Reply::Handle(name)) => Handles {
                vertex_shader: name,
                ..self
            },
            (BootStage::CreateFragmentShader, Reply::Handle(name)) => Handles {
                fragment_shader: name,
                ..self
            },
            (BootStage::CreateProgram, Reply::Handle(name)) => Handles { program: name, ..self },
            (BootStage::CreateVertexArray, Reply::Handle(name)) => Handles {
                vertex_array: name,
                ..self
            },
            (BootStage::CreateBuffer, Reply::Handle(name)) => Handles {
                vertex_buffer: name,
                ..self
            },
            (BootStage::DeleteVertexShader, Reply::Done) => Handles { vertex_shader: 0, ..self },
            (BootStage::DeleteFragmentShader, Reply::Done) => Handles {
                fragment_shader: 0,
                ..self
            },
            _ => self,
        }
    }
}

impl Step {
    /// Whether the step is a call into the GPU layer.
    pub open spec fn is_gpu_call(self) -> bool {
        match self {
            Step::SetViewport(_)
            | Step::CreateShader(_)
            | Step::SetShaderSource { .. }
            | Step::CompileShader { .. }
            | Step::CreateProgram
            | Step::AttachShader { .. }
            | Step::LinkProgram { .. }
            | Step::DeleteShader { .. }
            | Step::CreateVertexArray
            | Step::CreateBuffer
            | Step::BindArrayBuffer { .. }
            | Step::UploadVertices
            | Step::DeclareFormat { .. }
            | Step::SetClearColor(_)
            | Step::ClearColorBuffer => true,
            _ => false,
        }
    }

    /// Whether the step creates or deletes a GPU object.
    pub open spec fn changes_objects(self) -> bool {
        match self {
            Step::CreateShader(_)
            | Step::CreateProgram
            | Step::DeleteShader { .. }
            | Step::CreateVertexArray
            | Step::CreateBuffer => true,
            _ => false,
        }
    }
}

impl Reply {
    /// Whether this is an outcome that `step` can have.
    pub open spec fn answers(self, step: Step) -> bool {
        match step {
            Step::InitWindowing | Step::CreateWindow { .. } => self is Done || self is Failed,
            Step::CreateShader(_)
            | Step::CreateProgram
            | Step::CreateVertexArray
            | Step::CreateBuffer => self is Handle,
            Step::CompileShader { .. } | Step::LinkProgram { .. } => self is Status,
            Step::QueryShouldClose => self is ShouldClose,
            Step::NextEvent => self is Event || self is NoEvent,
            Step::Exit => false,
            _ => self is Done,
        }
    }
}

impl Renderer {
    /// The renderer before anything has been done.
    pub open spec fn start() -> Renderer {
        Renderer::Booting { stage: BootStage::InitWindowing, handles: Handles::none() }
    }

    /// The step that is due.
    pub open spec fn due(self) -> Step {
        match self {
            Renderer::Booting { stage, handles } => stage.step(handles),
            Renderer::Running { window, frame, .. } => frame.step(window),
            Renderer::Finished { .. } => Step::Exit,
        }
    }

    /// The failure that `reply` amounts to, if it is one: a reply that the
    /// due step cannot have, a windowing layer or a window that could not
    /// be had, a shader that did not compile, a program that did not link.
    pub open spec fn failure(self, reply: Reply) -> Option<GraphicsError> {
        if !reply.answers(self.due()) {
            Some(GraphicsError::UnexpectedReply)
        } else {
            match (self, reply) {
                (Renderer::Booting { stage: BootStage::InitWindowing, .. }, Reply::Failed) => Some(
                    GraphicsError::WindowingInitFailed,
                ),
                (Renderer::Booting { stage: BootStage::CreateWindow, .. }, Reply::Failed) => Some(
                    GraphicsError::WindowCreationFailed,
                ),
                (
                    Renderer::Booting { stage: BootStage::CompileVertexShader, .. },
                    Reply::Status { ok: false, log },
                ) => Some(GraphicsError::ShaderCompileFailed { stage: ShaderStage::Vertex, log }),
                (
                    Renderer::Booting { stage: BootStage::CompileFragmentShader, .. },
                    Reply::Status { ok: false, log },
                ) => Some(GraphicsError::ShaderCompileFailed { stage: ShaderStage::Fragment, log }),
                (
                    Renderer::Booting { stage: BootStage::LinkProgram, .. },
                    Reply::Status { ok: false, log },
                ) => Some(GraphicsError::ProgramLinkFailed { log }),
                _ => None,
            }
        }
    }

    /// The renderer after the due step has been answered by `reply`, where
    /// the reply is no failure.
    pub open spec fn successor(self, reply: Reply) -> Renderer {
        match self {
            Renderer::Booting { stage, handles } => match stage.following() {
                Some(next) => Renderer::Booting { stage: next, handles: handles.after(stage, reply) },
                None => Renderer::Running {
                    context: handles.after(stage, reply).context(),
                    window: Window { should_close: false, viewport: initial_viewport() },
                    frame: FrameStage::CheckClose,
                },
            },
            Renderer::Running { context, window, frame } => match (frame, reply) {
                (FrameStage::CheckClose, Reply::ShouldClose(true)) => Renderer::Finished { context },
                (FrameStage::CheckClose, _) if window.should_close => Renderer::Finished {
                    context,
                },
                (FrameStage::NextEvent, Reply::Event(event)) => Renderer::Running {
                    context,
                    window: window.after(effect_of(event)),
                    frame: FrameStage::carrying_out(effect_of(event)),
                },
                _ => Renderer::Running { context, window, frame: frame.following() },
            },
            Renderer::Finished { .. } => self,
        }
    }

    /// The outcome of answering the due step by `reply`.
    pub open spec fn after(self, reply: Reply) -> Result<Renderer, GraphicsError> {
        match self.failure(reply) {
            Some(error) => Err(error),
            None => Ok(self.successor(reply)),
        }
    }
}

} // verus!
