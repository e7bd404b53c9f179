//! What holds of the renderer, whatever the host replies.

use crate::error::{GraphicsError, ShaderStage};
use crate::event::{effect_of, full_viewport, Action, Key, Window, WindowEvent};
use crate::lifecycle::{boot_plan, BootStage, FrameStage, Handles, Renderer, Reply, Step};
use crate::settings::initial_viewport;
use vstd::prelude::*;

verus! {

/// The renderer after a run of replies, each to the step that was due when
/// it came; the first failure ends the run.
pub open spec fn run(from: Renderer, replies: Seq<Reply>) -> Result<Renderer, GraphicsError>
    decreases replies.len(),
{
    if replies.len() == 0 {
        Ok(from)
    } else {
        match run(from, replies.drop_last()) {
            Ok(renderer) => renderer.after(replies.last()),
            Err(error) => Err(error),
        }
    }
}

impl Renderer {
    /// No object is held before the step that creates it, and no shader
    /// after the step that deletes it.
    pub open spec fn holds_in_time(self) -> bool {
        match self {
            Renderer::Booting { stage, handles } => {
                &&& handles.vertex_shader != 0 ==> BootStage::CreateVertexShader.ordinal()
                    < stage.ordinal() <= BootStage::DeleteVertexShader.ordinal()
                &&& handles.fragment_shader != 0 ==> BootStage::CreateFragmentShader.ordinal()
                    < stage.ordinal() <= BootStage::DeleteFragmentShader.ordinal()
                &&& handles.program != 0 ==> BootStage::CreateProgram.ordinal() < stage.ordinal()
                &&& handles.vertex_array != 0 ==> BootStage::CreateVertexArray.ordinal()
                    < stage.ordinal()
                &&& handles.vertex_buffer != 0 ==> BootStage::CreateBuffer.ordinal()
                    < stage.ordinal()
            },
            _ => true,
        }
    }
}

/// The plan lists every stage once, at the place that its ordinal gives.
pub proof fn lemma_plan_is_ordered(stage: BootStage)
    ensures
        boot_plan().len() == 26,
        stage.ordinal() < boot_plan().len(),
        boot_plan()[stage.ordinal() as int] == stage,
        forall|i: int| 0 <= i < boot_plan().len() ==> (#[trigger] boot_plan()[i]).ordinal() == i,
{
}

/// The start-up goes through its stages one by one: an accepted reply
/// leads from each stage to the one right after it, and from the last
/// stage, and from no other, into the frame loop.
pub proof fn lemma_boot_takes_one_step(stage: BootStage, handles: Handles, reply: Reply)
    requires
        (Renderer::Booting { stage, handles }).after(reply) is Ok,
    ensures
        (match (Renderer::Booting { stage, handles }).after(reply)->Ok_0 {
            Renderer::Booting { stage: next, handles: held } => {
                &&& next.ordinal() == stage.ordinal() + 1
                &&& held == handles.after(stage, reply)
            },
            Renderer::Running { context, window, frame } => {
                &&& stage == BootStage::DeclareFormat
                &&& context == handles.context()
                &&& window == (Window { should_close: false, viewport: initial_viewport() })
                &&& frame == FrameStage::CheckClose
            },
            Renderer::Finished { .. } => false,
        }),
{
    lemma_plan_is_ordered(stage);
}

/// As long as the start-up lasts, the renderer stands at the stage whose
/// ordinal is the number of replies accepted so far: no step is due before
/// each step ahead of it in the plan has been taken and answered.
pub proof fn lemma_boot_follows_plan(replies: Seq<Reply>)
    ensures
        run(Renderer::start(), replies) matches Ok(Renderer::Booting { stage, .. })
            ==> stage.ordinal() == replies.len(),
        run(Renderer::start(), replies) is Ok && !(run(Renderer::start(), replies)->Ok_0
            is Booting) ==> replies.len() >= boot_plan().len(),
    decreases replies.len(),
{
    if replies.len() > 0 {
        lemma_boot_follows_plan(replies.drop_last());
        match run(Renderer::start(), replies.drop_last()) {
            Ok(Renderer::Booting { stage, handles }) => {
                lemma_plan_is_ordered(stage);
                if (Renderer::Booting { stage, handles }).after(replies.last()) is Ok {
                    lemma_boot_takes_one_step(stage, handles, replies.last());
                }
            },
            _ => {},
        }
    }
}

/// A call into the GPU layer is due only once the context has been made
/// current and the entry points have been loaded, in that order.
pub proof fn lemma_gpu_calls_follow_loading(renderer: Renderer)
    requires
        renderer.due().is_gpu_call(),
    ensures
        renderer matches Renderer::Booting { stage, .. } ==> stage.ordinal()
            > BootStage::LoadFunctions.ordinal(),
        BootStage::CreateWindow.following() == Some(BootStage::MakeContextCurrent),
        BootStage::MakeContextCurrent.following() == Some(BootStage::LoadFunctions),
{
}

/// A failure is reported, never passed over. No reply of failure and no
/// status that is not good is accepted, whatever the stage. A shader that
/// did not compile is reported with its stage and with the log that the
/// host gave, a program that did not link with its log; and a windowing
/// layer or a window that could not be had is reported as such.
pub proof fn lemma_failures_are_reported(renderer: Renderer, reply: Reply)
    ensures
        renderer.after(reply) is Ok ==> reply !is Failed && (reply is Status ==> reply->ok),
        renderer.due() is CompileShader ==> renderer is Booting && (renderer->stage
            == BootStage::CompileVertexShader || renderer->stage
            == BootStage::CompileFragmentShader),
        renderer is Booting && renderer->stage == BootStage::CompileVertexShader && reply is Status
            && !reply->ok ==> renderer.after(reply) == Err::<Renderer, GraphicsError>(
            GraphicsError::ShaderCompileFailed { stage: ShaderStage::Vertex, log: reply->log },
        ),
        renderer is Booting && renderer->stage == BootStage::CompileFragmentShader
            && reply is Status && !reply->ok ==> renderer.after(reply) == Err::<
            Renderer,
            GraphicsError,
        >(GraphicsError::ShaderCompileFailed { stage: ShaderStage::Fragment, log: reply->log }),
        renderer.due() is LinkProgram && reply is Status && !reply->ok ==> renderer.after(reply)
            == Err::<Renderer, GraphicsError>(GraphicsError::ProgramLinkFailed { log: reply->log }),
        renderer.due() is InitWindowing && reply is Failed ==> renderer.after(reply) == Err::<
            Renderer,
            GraphicsError,
        >(GraphicsError::WindowingInitFailed),
        renderer.due() is CreateWindow && reply is Failed ==> renderer.after(reply) == Err::<
            Renderer,
            GraphicsError,
        >(GraphicsError::WindowCreationFailed),
{
}

/// Whatever the due step, the reply that it awaits is accepted, unless the
/// reply itself tells of a failure.
pub proof fn lemma_good_replies_are_accepted(renderer: Renderer, reply: Reply)
    requires
        reply.answers(renderer.due()),
        reply !is Failed,
        reply is Status ==> reply->ok,
    ensures
        renderer.after(reply) == Ok::<Renderer, GraphicsError>(renderer.successor(reply)),
{
}

/// Objects are held in time from the start, and an accepted reply keeps it
/// so: before its creation no object is held, and the two shaders are held
/// no longer once the program is linked and they have been deleted.
pub proof fn lemma_objects_are_held_in_time(renderer: Renderer, reply: Reply)
    requires
        renderer.holds_in_time(),
        renderer.after(reply) is Ok,
    ensures
        Renderer::start().holds_in_time(),
        renderer.after(reply)->Ok_0.holds_in_time(),
{
    if let Renderer::Booting { stage, handles } = renderer {
        lemma_boot_takes_one_step(stage, handles, reply);
    }
}

/// Every renderer that a run of replies leads to from the start holds its
/// objects in time.
pub proof fn lemma_reached_renderers_hold_in_time(replies: Seq<Reply>)
    ensures
        run(Renderer::start(), replies) matches Ok(renderer) ==> renderer.holds_in_time(),
    decreases replies.len(),
{
    if replies.len() > 0 {
        lemma_reached_renderers_hold_in_time(replies.drop_last());
        if let Ok(renderer) = run(Renderer::start(), replies.drop_last()) {
            if renderer.after(replies.last()) is Ok {
                lemma_objects_are_held_in_time(renderer, replies.last());
            }
        }
    }
}

/// After the start-up nothing is created or deleted: the frame loop keeps
/// the one program, vertex array and buffer that the start-up left, and no
/// step of it changes an object.
pub proof fn lemma_frames_keep_the_objects(renderer: Renderer, reply: Reply)
    requires
        !(renderer is Booting),
    ensures
        !renderer.due().changes_objects(),
        renderer.after(reply) matches Ok(next) ==> (match (renderer, next) {
            (Renderer::Running { context, .. }, Renderer::Running { context: kept, .. }) => kept
                == context,
            (Renderer::Running { context, .. }, Renderer::Finished { context: kept }) => kept
                == context,
            _ => false,
        }),
{
}

/// A frame clears the screen, presents, polls and then takes the events:
/// from the head of the loop, with the window not asked to close, these
/// steps are due one after the other.
pub proof fn lemma_frame_order(renderer: Renderer)
    requires
        renderer is Running,
        renderer->frame == FrameStage::CheckClose,
        !renderer->window.should_close,
    ensures
        renderer.due() == Step::QueryShouldClose,
        ({
            let colored = renderer.successor(Reply::ShouldClose(false));
            let cleared = colored.successor(Reply::Done);
            let swapped = cleared.successor(Reply::Done);
            let polled = swapped.successor(Reply::Done);
            let taking = polled.successor(Reply::Done);
            &&& renderer.after(Reply::ShouldClose(false)) == Ok::<Renderer, GraphicsError>(colored)
            &&& colored.due() is SetClearColor
            &&& colored.after(Reply::Done) == Ok::<Renderer, GraphicsError>(cleared)
            &&& cleared.due() == Step::ClearColorBuffer
            &&& cleared.after(Reply::Done) == Ok::<Renderer, GraphicsError>(swapped)
            &&& swapped.due() == Step::SwapBuffers
            &&& swapped.after(Reply::Done) == Ok::<Renderer, GraphicsError>(polled)
            &&& polled.due() == Step::PollEvents
            &&& polled.after(Reply::Done) == Ok::<Renderer, GraphicsError>(taking)
            &&& taking.due() == Step::NextEvent
            &&& taking.after(Reply::NoEvent) matches Ok(
                Renderer::Running { frame: FrameStage::CheckClose, .. },
            )
        }),
{
}

/// The loop ends at its head and nowhere else: the renderer finishes when,
/// and only when, the window is found to be asked to close there, be it by
/// the renderer's own close flag or by the windowing layer.
pub proof fn lemma_loop_ends_at_its_head(renderer: Renderer, reply: Reply)
    ensures
        renderer.after(reply) matches Ok(Renderer::Finished { .. }) <==> (renderer is Running
            && renderer->frame == FrameStage::CheckClose && reply is ShouldClose && (
        reply->ShouldClose_0 || renderer->window.should_close)),
{
}

/// Once the close flag is set, no further frame is begun: every accepted
/// reply leaves the flag set or ends the loop, and at the head of the loop
/// the renderer finishes whatever the windowing layer says of the window.
pub proof fn lemma_close_flag_ends_the_loop(renderer: Renderer, reply: Reply)
    requires
        renderer is Running,
        renderer->window.should_close,
        renderer.after(reply) is Ok,
    ensures
        ({
            let next = renderer.after(reply)->Ok_0;
            &&& next is Finished || (next is Running && next->window.should_close)
            &&& renderer->frame == FrameStage::CheckClose ==> next is Finished
        }),
{
}

/// A run of replies that begins with the close flag set never gets past the
/// head of the loop: as long as no failure ends it, the renderer has either
/// finished or still has the flag set, and it has begun no new frame.
pub proof fn lemma_no_frame_after_close(renderer: Renderer, replies: Seq<Reply>)
    requires
        renderer is Running,
        renderer->window.should_close,
        renderer->frame == FrameStage::NextEvent || renderer->frame == FrameStage::CloseWindow
            || renderer->frame == FrameStage::ResizeViewport || renderer->frame
            == FrameStage::CheckClose,
    ensures
        run(renderer, replies) matches Ok(last) ==> last is Finished || (last is Running
            && last->window.should_close && (last->frame == FrameStage::NextEvent || last->frame
            == FrameStage::CloseWindow || last->frame == FrameStage::ResizeViewport || last->frame
            == FrameStage::CheckClose)),
    decreases replies.len(),
{
    if replies.len() > 0 {
        lemma_no_frame_after_close(renderer, replies.drop_last());
    }
}

/// Pressing Escape asks to close the window and does not end the loop at
/// once: the close flag is set, the one step that follows sets it on the
/// window, and the renderer goes on taking events.
pub proof fn lemma_escape_closes_at_the_next_head(renderer: Renderer)
    requires
        renderer is Running,
        renderer->frame == FrameStage::NextEvent,
    ensures
        ({
            let pressed = Reply::Event(WindowEvent::Key(Key::Escape, Action::Press));
            let closing = renderer.successor(pressed);
            let taking = closing.successor(Reply::Done);
            &&& renderer.after(pressed) == Ok::<Renderer, GraphicsError>(closing)
            &&& closing.due() == Step::SetShouldClose
            &&& closing is Running && closing->window.should_close
            &&& closing.after(Reply::Done) == Ok::<Renderer, GraphicsError>(taking)
            &&& taking.due() == Step::NextEvent
            &&& taking is Running && taking->window.should_close
        }),
{
}

/// A key event other than a press of Escape leaves the renderer as it was:
/// the close flag is unchanged and no step is taken on the window.
pub proof fn lemma_other_keys_change_nothing(renderer: Renderer, key: Key, action: Action)
    requires
        renderer is Running,
        renderer->frame == FrameStage::NextEvent,
        !(key == Key::Escape && action == Action::Press),
    ensures
        renderer.after(Reply::Event(WindowEvent::Key(key, action))) == Ok::<
            Renderer,
            GraphicsError,
        >(renderer),
{
}

/// A resized framebuffer sets the viewport exactly once: the step that
/// follows the event sets it to the whole framebuffer, and after that step
/// the renderer is back at taking events, with the close flag as it was.
pub proof fn lemma_resize_sets_viewport_once(renderer: Renderer, width: i32, height: i32)
    requires
        renderer is Running,
        renderer->frame == FrameStage::NextEvent,
    ensures
        ({
            let resized = Reply::Event(WindowEvent::FramebufferSize(width, height));
            let resizing = renderer.successor(resized);
            let taking = resizing.successor(Reply::Done);
            &&& renderer.after(resized) == Ok::<Renderer, GraphicsError>(resizing)
            &&& resizing.due() == Step::SetViewport(full_viewport(width, height))
            &&& resizing.after(Reply::Done) == Ok::<Renderer, GraphicsError>(taking)
            &&& taking.due() == Step::NextEvent
            &&& taking is Running
            &&& taking->window.should_close == renderer->window.should_close
            &&& taking->window.viewport == full_viewport(width, height)
        }),
{
}

/// The viewport is set for a resized framebuffer and for nothing else, and
/// the close flag for a press of Escape and for nothing else.
pub proof fn lemma_effects_have_one_cause(event: WindowEvent)
    ensures
        effect_of(event) is SetViewport <==> event is FramebufferSize,
        effect_of(event) is RequestClose <==> event == WindowEvent::Key(Key::Escape, Action::Press),
{
}

} // verus!
