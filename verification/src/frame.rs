//! Per-frame orchestration.
//!
//! Each frame walks a fixed pipeline: advance the animation, acquire the
//! swapchain image, allocate the off-screen target and the staging buffer,
//! record the two render passes against one scene snapshot, record the
//! padded copy into the staging buffer, submit, present, request the
//! asynchronous mapping, force device progress, block on the mapping,
//! export, and unmap. The stages are strictly sequential: no stage is ever
//! skipped or revisited, presentation comes only after submission, and the
//! device poll stands between the mapping request and the blocking wait —
//! the ordering that keeps the wait from suspending forever. The driver of
//! the loop performs each stage's outside work and reports back whether it
//! succeeded; the decisions live here.

use vstd::prelude::*;

verus! {

use crate::stride::{BufferDimensions, BYTES_PER_PIXEL};

/// The stages of one frame, in the order they run.
#[derive(Clone, Copy, Debug, PartialEq, Eq)]
pub enum FrameStage {
    /// Advance the animation state and rewrite the lights and the camera.
    Animate,
    /// Obtain the next presentable swapchain image.
    Acquire,
    /// Create the off-screen target and the staging buffer for this frame.
    Allocate,
    /// Record both render passes against the same scene snapshot.
    Record,
    /// Record the padded copy from the off-screen target into the buffer.
    CopyOut,
    /// Submit the recorded work to the device queue.
    Submit,
    /// Present the swapchain image.
    Present,
    /// Request the asynchronous read-mapping of the staging buffer.
    MapRequest,
    /// Force the device to make progress so the mapping can complete.
    PollDevice,
    /// Block until the mapping future resolves.
    AwaitMap,
    /// Strip the row padding and hand the pixels to the encoder.
    Export,
    /// Unmap the staging buffer and drop the per-frame resources.
    Unmap,
}

/// Position of a stage in the pipeline, counted from zero.
pub open spec fn stage_index(stage: FrameStage) -> int {
    match stage {
        FrameStage::Animate => 0,
        FrameStage::Acquire => 1,
        FrameStage::Allocate => 2,
        FrameStage::Record => 3,
        FrameStage::CopyOut => 4,
        FrameStage::Submit => 5,
        FrameStage::Present => 6,
        FrameStage::MapRequest => 7,
        FrameStage::PollDevice => 8,
        FrameStage::AwaitMap => 9,
        FrameStage::Export => 10,
        FrameStage::Unmap => 11,
    }
}

/// The stage that follows `stage`; the last stage has no successor and
/// follows itself here.
pub open spec fn stage_after(stage: FrameStage) -> FrameStage {
    match stage {
        FrameStage::Animate => FrameStage::Acquire,
        FrameStage::Acquire => FrameStage::Allocate,
        FrameStage::Allocate => FrameStage::Record,
        FrameStage::Record => FrameStage::CopyOut,
        FrameStage::CopyOut => FrameStage::Submit,
        FrameStage::Submit => FrameStage::Present,
        FrameStage::Present => FrameStage::MapRequest,
        FrameStage::MapRequest => FrameStage::PollDevice,
        FrameStage::PollDevice => FrameStage::AwaitMap,
        FrameStage::AwaitMap => FrameStage::Export,
        FrameStage::Export => FrameStage::Unmap,
        FrameStage::Unmap => FrameStage::Unmap,
    }
}

/// How the outside work of one stage ended.
#[derive(Clone, Copy, Debug, PartialEq, Eq)]
pub enum StepOutcome {
    /// The stage's work completed.
    Succeeded,
    /// The presentation surface was lost or timed out while acquiring.
    SurfaceLost,
    /// The mapping future resolved with an error.
    MapFailed,
    /// The encoder or the disk refused the exported image.
    ExportFailed,
}

/// A failure that ends the run: there is no retry for either.
#[derive(Clone, Copy, Debug, PartialEq, Eq)]
pub enum FrameError {
    /// The swapchain image could not be acquired.
    SurfaceLost,
    /// The staging buffer could not be mapped for reading.
    MapFailed,
}

/// What the frame loop does next.
#[derive(Clone, Copy, Debug, PartialEq, Eq)]
pub enum FrameProgress {
    /// Perform the work of this stage next.
    Step(FrameStage),
    /// The frame is fully drained: rendered, presented and exported.
    Complete,
    /// Stop the loop; the failure is unrecoverable.
    Fatal(FrameError),
}

/// Which outcomes a stage can report: only acquiring the surface, waiting
/// for the mapping, and exporting can fail; every other stage's work either
/// completes or panics in the driver.
pub open spec fn outcome_allowed(stage: FrameStage, outcome: StepOutcome) -> bool {
    match outcome {
        StepOutcome::Succeeded => true,
        StepOutcome::SurfaceLost => stage is Acquire,
        StepOutcome::MapFailed => stage is AwaitMap,
        StepOutcome::ExportFailed => stage is Export,
    }
}

/// The successor decision for one stage and its outcome.
pub open spec fn advance_spec(stage: FrameStage, outcome: StepOutcome) -> FrameProgress {
    match outcome {
        StepOutcome::Succeeded => if stage is Unmap {
            FrameProgress::Complete
        } else {
            FrameProgress::Step(stage_after(stage))
        },
        StepOutcome::SurfaceLost => FrameProgress::Fatal(FrameError::SurfaceLost),
        StepOutcome::MapFailed => FrameProgress::Fatal(FrameError::MapFailed),
        StepOutcome::ExportFailed => FrameProgress::Step(FrameStage::Unmap),
    }
}

/// The stage every frame starts from.
pub fn first_stage() -> (stage: FrameStage)
    ensures
        stage == FrameStage::Animate,
        stage_index(stage) == 0,
{
    FrameStage::Animate
}

/// Decides what the frame loop does after `stage` ended with `outcome`:
/// on success the pipeline moves to the next stage in order, a lost surface
/// or a failed mapping is fatal, and a failed export is reported but the
/// frame still finishes — presentation has already happened and is not
/// rolled back.
pub fn advance(stage: FrameStage, outcome: StepOutcome) -> (progress: FrameProgress)
    requires
        outcome_allowed(stage, outcome),
    ensures
        progress == advance_spec(stage, outcome),
        progress matches FrameProgress::Step(next) ==> stage_index(next) == stage_index(stage)
            + 1,
        outcome is Succeeded && !(stage is Unmap) ==> progress == FrameProgress::Step(
            stage_after(stage),
        ),
        outcome is Succeeded && stage is Unmap ==> progress == FrameProgress::Complete,
        outcome is SurfaceLost ==> progress == FrameProgress::Fatal(FrameError::SurfaceLost),
        outcome is MapFailed ==> progress == FrameProgress::Fatal(FrameError::MapFailed),
        outcome is ExportFailed ==> progress == FrameProgress::Step(FrameStage::Unmap),
{
    match outcome {
        StepOutcome::Succeeded => match stage {
            FrameStage::Animate => FrameProgress::Step(FrameStage::Acquire),
            FrameStage::Acquire => FrameProgress::Step(FrameStage::Allocate),
            FrameStage::Allocate => FrameProgress::Step(FrameStage::Record),
            FrameStage::Record => FrameProgress::Step(FrameStage::CopyOut),
            FrameStage::CopyOut => FrameProgress::Step(FrameStage::Submit),
            FrameStage::Submit => FrameProgress::Step(FrameStage::Present),
            FrameStage::Present => FrameProgress::Step(FrameStage::MapRequest),
            FrameStage::MapRequest => FrameProgress::Step(FrameStage::PollDevice),
            FrameStage::PollDevice => FrameProgress::Step(FrameStage::AwaitMap),
            FrameStage::AwaitMap => FrameProgress::Step(FrameStage::Export),
            FrameStage::Export => FrameProgress::Step(FrameStage::Unmap),
            FrameStage::Unmap => FrameProgress::Complete,
        },
        StepOutcome::SurfaceLost => FrameProgress::Fatal(FrameError::SurfaceLost),
        StepOutcome::MapFailed => FrameProgress::Fatal(FrameError::MapFailed),
        StepOutcome::ExportFailed => FrameProgress::Step(FrameStage::Unmap),
    }
}

/// The synchronization order the pipeline encodes: work is submitted before
/// the image is presented, and the mapping is requested before the device
/// is forced to make progress, which happens before the blocking wait on
/// the mapping — the order that keeps the wait from suspending forever.
pub proof fn lemma_synchronization_order()
    ensures
        stage_index(FrameStage::Submit) < stage_index(FrameStage::Present),
        stage_index(FrameStage::Present) < stage_index(FrameStage::MapRequest),
        stage_index(FrameStage::MapRequest) < stage_index(FrameStage::PollDevice),
        stage_index(FrameStage::PollDevice) < stage_index(FrameStage::AwaitMap),
        stage_index(FrameStage::AwaitMap) < stage_index(FrameStage::Export),
        stage_index(FrameStage::Export) < stage_index(FrameStage::Unmap),
{
}

/// Stage positions are distinct: since `advance` only ever moves to a stage
/// with the next position, no stage is visited twice within a frame — in
/// particular the animation is advanced exactly once per frame, so both
/// render passes observe the same scene snapshot.
pub proof fn lemma_stages_never_repeat(a: FrameStage, b: FrameStage)
    ensures
        stage_index(a) == stage_index(b) ==> a == b,
{
}

/// The current size of the presentation surface.
#[derive(Clone, Copy, Debug, PartialEq, Eq)]
pub struct SurfaceConfig {
    pub width: u32,
    pub height: u32,
}

/// The configuration `config` takes after a resize to `width × height`:
/// only the notified size matters, nothing of the old size survives.
pub open spec fn resized(config: SurfaceConfig, width: u32, height: u32) -> SurfaceConfig {
    SurfaceConfig { width, height }
}

impl SurfaceConfig {
    /// Both dimensions are positive: a zero-sized surface cannot be
    /// configured or rendered to.
    pub open spec fn wf(self) -> bool {
        self.width > 0 && self.height > 0
    }

    pub fn new(width: u32, height: u32) -> (config: SurfaceConfig)
        requires
            width > 0,
            height > 0,
        ensures
            config.width == width,
            config.height == height,
            config.wf(),
    {
        SurfaceConfig { width, height }
    }

    /// Adopts the dimensions a resize notification carries. This must run
    /// before the next frame's Animate stage, so that the next acquire and
    /// the next stride computation see the new size.
    pub fn resize(&mut self, new_width: u32, new_height: u32)
        requires
            new_width > 0,
            new_height > 0,
        ensures
            *final(self) == resized(*old(self), new_width, new_height),
            final(self).wf(),
    {
        self.width = new_width;
        self.height = new_height;
    }

    /// The staging-buffer layout for a frame rendered at the current
    /// surface size — computed anew from the current dimensions, never
    /// cached across resizes.
    pub fn frame_layout(&self, alignment: usize) -> (dims: BufferDimensions)
        requires
            alignment > 0,
            self.width * BYTES_PER_PIXEL + alignment <= usize::MAX,
        ensures
            dims.wf(BYTES_PER_PIXEL as int, alignment as int),
            dims.width == self.width,
            dims.height == self.height,
            dims.unpadded_bytes_per_row == self.width * BYTES_PER_PIXEL,
            (dims.padded_bytes_per_row as int) % (alignment as int) == 0,
            dims.padded_bytes_per_row >= dims.unpadded_bytes_per_row,
    {
        BufferDimensions::new(self.width as usize, self.height as usize, BYTES_PER_PIXEL, alignment)
    }
}

/// After a resize, the stride computation sees only the new dimensions:
/// two surfaces resized to the same size agree on everything the next
/// frame's layout is computed from, whatever their earlier sizes were.
pub proof fn lemma_resize_refreshes_stride(
    before_a: SurfaceConfig,
    before_b: SurfaceConfig,
    width: u32,
    height: u32,
)
    ensures
        resized(before_a, width, height) == resized(before_b, width, height),
        resized(before_a, width, height).width == width,
        resized(before_a, width, height).height == height,
{
}

/// A notification from the windowing system, reduced to what the loop
/// reacts to.
#[derive(Clone, Copy, Debug, PartialEq, Eq)]
pub enum WindowSignal {
    /// All pending events were dispatched; a redraw may be requested.
    EventsCleared,
    /// The window took a new size.
    Resized { width: u32, height: u32 },
    /// The escape key was pressed.
    EscapePressed,
    /// The window was asked to close.
    CloseRequested,
    /// A redraw of the window contents is due.
    RedrawRequested,
    /// Anything else; ignored.
    Other,
}

/// What the loop driver does in response to a window signal.
#[derive(Clone, Copy, Debug, PartialEq, Eq)]
pub enum LoopAction {
    /// Ask the window for a redraw.
    RequestRedraw,
    /// Reconfigure the swapchain, the camera aspect ratio and the render
    /// pass to the new surface size before the next frame begins.
    Reconfigure,
    /// Leave the event loop before the next frame's Animate stage.
    Exit,
    /// Run one frame through the pipeline.
    RenderFrame,
    /// Do nothing.
    Ignore,
}

/// Decides the loop's reaction to one window signal, updating the surface
/// configuration when the signal carries a new size and leaving it alone
/// otherwise.
pub fn handle_signal(config: &mut SurfaceConfig, signal: WindowSignal) -> (action: LoopAction)
    requires
        old(config).wf(),
        signal matches WindowSignal::Resized { width, height } ==> width > 0 && height > 0,
    ensures
        final(config).wf(),
        signal matches WindowSignal::Resized { width, height } ==> *final(config) == resized(
            *old(config),
            width,
            height,
        ) && action == LoopAction::Reconfigure,
        !(signal is Resized) ==> *final(config) == *old(config),
        signal is EventsCleared ==> action == LoopAction::RequestRedraw,
        signal is EscapePressed ==> action == LoopAction::Exit,
        signal is CloseRequested ==> action == LoopAction::Exit,
        signal is RedrawRequested ==> action == LoopAction::RenderFrame,
        signal is Other ==> action == LoopAction::Ignore,
{
    match signal {
        WindowSignal::EventsCleared => LoopAction::RequestRedraw,
        WindowSignal::Resized { width, height } => {
            config.resize(width, height);
            LoopAction::Reconfigure
        },
        WindowSignal::EscapePressed => LoopAction::Exit,
        WindowSignal::CloseRequested => LoopAction::Exit,
        WindowSignal::RedrawRequested => LoopAction::RenderFrame,
        WindowSignal::Other => LoopAction::Ignore,
    }
}

} // verus!
