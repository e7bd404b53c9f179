//! The two shader stages: their sources, and what to make of the compiler's
//! and the linker's verdict.

use crate::error::{GraphicsError, ShaderStage};
use crate::settings::SHADING_LANGUAGE_VERSION;
use vstd::prelude::*;

verus! {

/// The vertex stage: passes the position through unchanged.
pub const VERTEX_SHADER_SOURCE: &'static str =
    "#version 460 core\nlayout (location = 0) in vec3 aPos;\nvoid main()\n{\n    gl_Position = vec4(aPos.x, aPos.y, aPos.z, 1.0);\n}";

/// The fragment stage: paints every fragment in one opaque colour.
pub const FRAGMENT_SHADER_SOURCE: &'static str =
    "#version 460 core\nout vec4 FragColor;\nvoid main()\n{\n    FragColor = vec4(0.8f, 0.3f, 0.02f, 1.0f);\n}";

/// The first line of both sources: the dialect that they are written in.
pub open spec fn version_directive() -> Seq<char> {
    "#version 460 core\n"@
}

/// The source text of each stage.
pub open spec fn source_text(stage: ShaderStage) -> Seq<char> {
    match stage {
        ShaderStage::Vertex => VERTEX_SHADER_SOURCE@,
        ShaderStage::Fragment => FRAGMENT_SHADER_SOURCE@,
    }
}

/// The source to compile for `stage`.
pub fn shader_source(stage: ShaderStage) -> (source: &'static str)
    ensures
        source@ == source_text(stage),
{
    match stage {
        ShaderStage::Vertex => VERTEX_SHADER_SOURCE,
        ShaderStage::Fragment => FRAGMENT_SHADER_SOURCE,
    }
}

/// The length of the source of `stage`, as the GPU layer takes it. The
/// sources are ASCII, so this is the number of their bytes as well.
pub fn shader_source_length(stage: ShaderStage) -> (length: i32)
    ensures
        length == source_text(stage).len(),
{
    proof {
        lemma_sources_are_plain();
    }
    match stage {
        ShaderStage::Vertex => 122,
        ShaderStage::Fragment => 100,
    }
}

/// Both sources are ASCII text of a known length.
pub proof fn lemma_sources_are_plain()
    ensures
        VERTEX_SHADER_SOURCE.is_ascii(),
        FRAGMENT_SHADER_SOURCE.is_ascii(),
        VERTEX_SHADER_SOURCE@.len() == 122,
        FRAGMENT_SHADER_SOURCE@.len() == 100,
{
    reveal_strlit(
        "#version 460 core\nlayout (location = 0) in vec3 aPos;\nvoid main()\n{\n    gl_Position = vec4(aPos.x, aPos.y, aPos.z, 1.0);\n}",
    );
    reveal_strlit(
        "#version 460 core\nout vec4 FragColor;\nvoid main()\n{\n    FragColor = vec4(0.8f, 0.3f, 0.02f, 1.0f);\n}",
    );
}

/// Both sources begin with the version directive, and the version that it
/// names is the shading-language version of the settings.
pub proof fn lemma_sources_declare_the_dialect(stage: ShaderStage)
    ensures
        source_text(stage).len() >= version_directive().len(),
        source_text(stage).subrange(0, version_directive().len() as int) == version_directive(),
        version_directive().len() == 18,
        (version_directive()[9] as int - '0' as int) * 100 + (version_directive()[10] as int
            - '0' as int) * 10 + (version_directive()[11] as int - '0' as int)
            == SHADING_LANGUAGE_VERSION,
{
    reveal_strlit(
        "#version 460 core\nlayout (location = 0) in vec3 aPos;\nvoid main()\n{\n    gl_Position = vec4(aPos.x, aPos.y, aPos.z, 1.0);\n}",
    );
    reveal_strlit(
        "#version 460 core\nout vec4 FragColor;\nvoid main()\n{\n    FragColor = vec4(0.8f, 0.3f, 0.02f, 1.0f);\n}",
    );
    reveal_strlit("#version 460 core\n");
    assert(source_text(stage).subrange(0, 18) =~= version_directive());
}

/// Turns the compile status of `stage` into a result: a stage that did not
/// compile is an error that carries the compiler's log.
pub fn compile_result(stage: ShaderStage, compiled: bool, log: String) -> (result: Result<
    (),
    GraphicsError,
>)
    ensures
        compiled ==> result == Ok::<(), GraphicsError>(()),
        !compiled ==> result == Err::<(), GraphicsError>(
            GraphicsError::ShaderCompileFailed { stage, log },
        ),
{
    if compiled {
        Ok(())
    } else {
        Err(GraphicsError::ShaderCompileFailed { stage, log })
    }
}

/// Turns the link status of the program into a result: a program that did
/// not link is an error that carries the linker's log.
pub fn link_result(linked: bool, log: String) -> (result: Result<(), GraphicsError>)
    ensures
        linked ==> result == Ok::<(), GraphicsError>(()),
        !linked ==> result == Err::<(), GraphicsError>(GraphicsError::ProgramLinkFailed { log }),
{
    if linked {
        Ok(())
    } else {
        Err(GraphicsError::ProgramLinkFailed { log })
    }
}

} // verus!
