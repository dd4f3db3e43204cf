use decimation_benchmark::frame::{
    advance, first_stage, handle_signal, FrameError, FrameProgress, FrameStage, LoopAction,
    StepOutcome, SurfaceConfig, WindowSignal,
};
use decimation_benchmark::timer::Timer;

#[test]
fn a_clean_frame_visits_every_stage_in_order() {
    let expected = [
        FrameStage::Animate,
        FrameStage::Acquire,
        FrameStage::Allocate,
        FrameStage::Record,
        FrameStage::CopyOut,
        FrameStage::Submit,
        FrameStage::Present,
        FrameStage::MapRequest,
        FrameStage::PollDevice,
        FrameStage::AwaitMap,
        FrameStage::Export,
        FrameStage::Unmap,
    ];
    let mut visited = Vec::new();
    let mut stage = first_stage();
    loop {
        visited.push(stage);
        match advance(stage, StepOutcome::Succeeded) {
            FrameProgress::Step(next) => stage = next,
            FrameProgress::Complete => break,
            FrameProgress::Fatal(e) => panic!("clean frame failed: {:?}", e),
        }
    }
    assert_eq!(visited.as_slice(), &expected[..]);
}

#[test]
fn a_lost_surface_is_fatal() {
    assert_eq!(
        advance(FrameStage::Acquire, StepOutcome::SurfaceLost),
        FrameProgress::Fatal(FrameError::SurfaceLost)
    );
}

#[test]
fn a_failed_mapping_is_fatal() {
    assert_eq!(
        advance(FrameStage::AwaitMap, StepOutcome::MapFailed),
        FrameProgress::Fatal(FrameError::MapFailed)
    );
}

#[test]
fn a_failed_export_still_finishes_the_frame() {
    // The image was already presented; a refused export is reported and the
    // frame drains through Unmap to completion.
    let progress = advance(FrameStage::Export, StepOutcome::ExportFailed);
    assert_eq!(progress, FrameProgress::Step(FrameStage::Unmap));
    assert_eq!(
        advance(FrameStage::Unmap, StepOutcome::Succeeded),
        FrameProgress::Complete
    );
}

#[test]
fn window_signals_map_to_their_actions() {
    let mut config = SurfaceConfig::new(512, 512);
    assert_eq!(
        handle_signal(&mut config, WindowSignal::EventsCleared),
        LoopAction::RequestRedraw
    );
    assert_eq!(
        handle_signal(&mut config, WindowSignal::RedrawRequested),
        LoopAction::RenderFrame
    );
    assert_eq!(
        handle_signal(&mut config, WindowSignal::EscapePressed),
        LoopAction::Exit
    );
    assert_eq!(
        handle_signal(&mut config, WindowSignal::CloseRequested),
        LoopAction::Exit
    );
    assert_eq!(handle_signal(&mut config, WindowSignal::Other), LoopAction::Ignore);
    assert_eq!(config, SurfaceConfig::new(512, 512));
}

#[test]
fn a_resize_feeds_the_next_stride_computation() {
    // Before the resize the layout is computed from 512 × 512; afterwards a
    // fresh invocation must see the new dimensions, not the cached ones.
    let mut config = SurfaceConfig::new(512, 512);
    let before = config.frame_layout(256);
    assert_eq!(before.width, 512);
    assert_eq!(before.unpadded_bytes_per_row, 2048);

    let action = handle_signal(
        &mut config,
        WindowSignal::Resized {
            width: 300,
            height: 10,
        },
    );
    assert_eq!(action, LoopAction::Reconfigure);

    let after = config.frame_layout(256);
    assert_eq!(after.width, 300);
    assert_eq!(after.height, 10);
    assert_eq!(after.unpadded_bytes_per_row, 1200);
    assert_eq!(after.padded_bytes_per_row, 1280);
}

#[test]
fn the_timer_counts_forward() {
    let mut timer = Timer::new();
    let first = timer.get_elapsed_micros();
    let second = timer.get_elapsed_micros();
    assert!(first <= second);
    timer.clear();
    let after_clear = timer.get_elapsed_micros();
    let later = timer.get_elapsed_micros();
    assert!(after_clear <= later);
}
