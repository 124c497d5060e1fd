//! The frame recorder and the submission pipeline.
//!
//! A recorded frame is a one-shot command buffer: begin the render pass with
//! one clear value per attachment, issue one draw per draw descriptor in
//! input order (input order is draw order), end the render pass. Submission
//! chains the recorded work after a prior completion future, then presents
//! the acquired image, then signals a fence and flushes; a flush failure is
//! surfaced as a result, never a panic — recovery policy lives in the window.

use vstd::prelude::*;
use crate::errors::FatalError;
use crate::framebuffer::Framebuffer;

verus! {

/// A per-object draw descriptor: a pipeline, the per-draw dynamic
/// viewport/scissor state, one vertex buffer, and one bound resource set.
/// All four are opaque, clone-cheap handles owned by the host; the core
/// never looks inside them.
#[derive(Clone, Copy, Debug, PartialEq, Eq, Structural)]
pub struct ConcreteObject {
    pub pipeline: u64,
    pub dynamic_state: u64,
    pub vertex_buffer: u64,
    pub uniform_set: u64,
}

/// A per-attachment clear value, as an opaque host-owned handle.
#[derive(Clone, Copy, Debug, PartialEq, Eq, Structural)]
pub struct ClearValue {
    pub value: u64,
}

/// One recorded command of a frame.
#[derive(Debug, PartialEq, Eq)]
pub enum Command {
    /// Begin the render pass on the target framebuffer, clearing each
    /// attachment with the clear value at its slot.
    BeginRenderPass { clear_values: Vec<ClearValue> },
    /// Draw one object.
    Draw { object: ConcreteObject },
    /// End the render pass.
    EndRenderPass,
}

/// A finalized one-shot command buffer: the recorded commands in issue order.
#[derive(Debug)]
pub struct CommandBuffer {
    pub commands: Vec<Command>,
}

/// Whether `commands` is exactly the recording owed for `objects` and
/// `clear_values`: a begin, one draw per object in input order, an end.
pub open spec fn records_frame(
    commands: Seq<Command>,
    clear_values: Seq<ClearValue>,
    objects: Seq<ConcreteObject>,
) -> bool {
    &&& commands.len() == objects.len() + 2
    &&& commands[0] matches Command::BeginRenderPass { clear_values: cv } && cv@ == clear_values
    &&& forall|j: int| 1 <= j <= objects.len() ==> #[trigger] commands[j] == (Command::Draw {
        object: objects[j - 1],
    })
    &&& commands[objects.len() as int + 1] == Command::EndRenderPass
}

/// Records a one-shot command buffer for one frame: begin the render pass on
/// `framebuffer` with the given per-attachment clear values, one draw per
/// descriptor in input order, end the render pass. A clear-value count that
/// does not match the framebuffer's attachment count is a recording failure,
/// and recording failures are fatal: they mark a programmer error, not a
/// recoverable condition.
pub fn create_command_buffer(
    framebuffer: &Framebuffer,
    clear_values: &Vec<ClearValue>,
    objects: &Vec<ConcreteObject>,
) -> (result: Result<CommandBuffer, FatalError>)
    ensures
        result is Ok <==> clear_values@.len() == framebuffer.attachments@.len(),
        result matches Ok(cb) ==> records_frame(cb.commands@, clear_values@, objects@),
        result matches Err(e) ==> e == (FatalError::ClearValueCountMismatch {
            expected: framebuffer.attachments.len(),
            actual: clear_values.len(),
        }),
{
    if clear_values.len() != framebuffer.attachments.len() {
        return Err(FatalError::ClearValueCountMismatch {
            expected: framebuffer.attachments.len(),
            actual: clear_values.len(),
        });
    }
    let mut commands: Vec<Command> = Vec::new();
    commands.push(Command::BeginRenderPass { clear_values: clear_values.clone() });
    let mut i: usize = 0;
    while i < objects.len()
        invariant
            0 <= i <= objects@.len(),
            commands@.len() == i + 1,
            commands@[0] matches Command::BeginRenderPass { clear_values: cv }
                && cv@ == clear_values@,
            forall|j: int| 1 <= j <= i ==> #[trigger] commands@[j] == (Command::Draw {
                object: objects@[j - 1],
            }),
        decreases objects@.len() - i,
    {
        commands.push(Command::Draw { object: objects[i] });
        i = i + 1;
    }
    commands.push(Command::EndRenderPass);
    Ok(CommandBuffer { commands })
}

/// One step of the submission chain, in the order the chain runs.
#[derive(Clone, Copy, Debug, PartialEq, Eq, Structural)]
pub enum SubmissionStep {
    /// Execute the recorded command buffer after the prior future completes.
    ExecuteCommandBuffer,
    /// Present the acquired swapchain image.
    PresentImage { image_index: usize },
    /// Signal a fence and flush the queued work to the device queue.
    SignalFenceAndFlush,
}

/// The outcome of the final fence-and-flush step, reported by the host after
/// it runs the chain on the device queue.
#[derive(Clone, Copy, Debug, PartialEq, Eq, Structural)]
pub enum FlushOutcome {
    /// The work, presentation included, is enqueued.
    Flushed,
    /// The swapchain became out of date during submission.
    OutOfDate,
    /// The flush failed for another reason.
    Failed,
}

/// A flush failure, surfaced to the caller rather than panicking: an
/// out-of-date swapchain is an expected, recoverable condition at this layer.
#[derive(Clone, Copy, Debug, PartialEq, Eq, Structural)]
pub enum FlushFailure {
    OutOfDate,
    Other,
}

/// A successfully enqueued frame: the chain that was run, standing for the
/// future the caller may wait on, chain further, or drop.
#[derive(Debug)]
pub struct SubmittedFrame {
    pub steps: Vec<SubmissionStep>,
}

/// The exact chain the submission pipeline owes for image `image_index`:
/// execute, then present, then signal a fence and flush.
pub open spec fn submission_chain(image_index: usize) -> Seq<SubmissionStep> {
    seq![
        SubmissionStep::ExecuteCommandBuffer,
        SubmissionStep::PresentImage { image_index },
        SubmissionStep::SignalFenceAndFlush,
    ]
}

/// Composes one frame's submission: command-buffer execution after the prior
/// future, presentation of `image_index`, then a fence signal and flush, and
/// surfaces the reported flush outcome as a result. A flush failure is
/// returned, never panicked on; the window decides what to do with it.
pub fn submit_command_buffer_to_swapchain(
    image_index: usize,
    command_buffer: &CommandBuffer,
    flush: FlushOutcome,
) -> (result: Result<SubmittedFrame, FlushFailure>)
    ensures
        result is Ok <==> flush is Flushed,
        result matches Ok(frame) ==> frame.steps@ == submission_chain(image_index),
        flush is OutOfDate ==> result == Err::<SubmittedFrame, FlushFailure>(
            FlushFailure::OutOfDate,
        ),
        flush is Failed ==> result == Err::<SubmittedFrame, FlushFailure>(FlushFailure::Other),
{
    match flush {
        FlushOutcome::Flushed => {
            let mut steps: Vec<SubmissionStep> = Vec::new();
            steps.push(SubmissionStep::ExecuteCommandBuffer);
            steps.push(SubmissionStep::PresentImage { image_index });
            steps.push(SubmissionStep::SignalFenceAndFlush);
            proof {
                assert(steps@ =~= submission_chain(image_index));
            }
            Ok(SubmittedFrame { steps })
        },
        FlushOutcome::OutOfDate => Err(FlushFailure::OutOfDate),
        FlushOutcome::Failed => Err(FlushFailure::Other),
    }
}

} // verus!
