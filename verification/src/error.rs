//! The failures that end the renderer.

use vstd::prelude::*;

verus! {

/// One of the two stages of the shader program.
#[derive(Clone, Copy, Debug, PartialEq, Eq, Structural)]
pub enum ShaderStage {
    Vertex,
    Fragment,
}

/// Why the renderer could not go on.
#[derive(Clone, Debug, PartialEq, Eq)]
pub enum GraphicsError {
    /// The windowing subsystem could not be initialised.
    WindowingInitFailed,
    /// The window, and with it the GPU context, could not be created.
    WindowCreationFailed,
    /// A shader stage did not compile; `log` is the compiler's report.
    ShaderCompileFailed { stage: ShaderStage, log: String },
    /// The program did not link; `log` is the linker's report.
    ProgramLinkFailed { log: String },
    /// The host answered a step with a reply that the step does not have.
    UnexpectedReply,
}

impl GraphicsError {
    /// The diagnostic message of each kind of failure.
    pub open spec fn diagnostic_text(self) -> Seq<char> {
        match self {
            GraphicsError::WindowingInitFailed => "Failed to initialize GLFW library"@,
            GraphicsError::WindowCreationFailed => "Failed to create GLFW window."@,
            GraphicsError::ShaderCompileFailed { stage: ShaderStage::Vertex, .. } =>
                "Failed to compile the vertex shader"@,
            GraphicsError::ShaderCompileFailed { stage: ShaderStage::Fragment, .. } =>
                "Failed to compile the fragment shader"@,
            GraphicsError::ProgramLinkFailed { .. } => "Failed to link the shader program"@,
            GraphicsError::UnexpectedReply => "Unexpected reply to a renderer step"@,
        }
    }

    /// The message to end the process with. The compiler's or linker's
    /// report, where there is one, is not part of it: see [`Self::log`].
    pub fn diagnostic(&self) -> (message: &'static str)
        ensures
            message@ == self.diagnostic_text(),
    {
        match self {
            GraphicsError::WindowingInitFailed => "Failed to initialize GLFW library",
            GraphicsError::WindowCreationFailed => "Failed to create GLFW window.",
            GraphicsError::ShaderCompileFailed { stage, .. } => match stage {
                ShaderStage::Vertex => "Failed to compile the vertex shader",
                ShaderStage::Fragment => "Failed to compile the fragment shader",
            },
            GraphicsError::ProgramLinkFailed { .. } => "Failed to link the shader program",
            GraphicsError::UnexpectedReply => "Unexpected reply to a renderer step",
        }
    }

    /// The report that came with the failure, if it has one.
    pub open spec fn log_text(self) -> Option<Seq<char>> {
        match self {
            GraphicsError::ShaderCompileFailed { log, .. } => Some(log@),
            GraphicsError::ProgramLinkFailed { log } => Some(log@),
            _ => None,
        }
    }

    /// The compiler's or linker's report of a shader failure.
    pub fn log(&self) -> (log: Option<&str>)
        ensures
            log is Some <==> self.log_text() is Some,
            log matches Some(text) ==> Some(text@) == self.log_text(),
    {
        match self {
            GraphicsError::ShaderCompileFailed { log, .. } => Some(log.as_str()),
            GraphicsError::ProgramLinkFailed { log } => Some(log.as_str()),
            _ => None,
        }
    }
}

} // verus!
