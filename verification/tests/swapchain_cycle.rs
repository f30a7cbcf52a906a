use goshenite::config::{EngineConfig, MAX_FRAMES_IN_FLIGHT, TIMEOUT_NANOSECS};
use goshenite::surface::{
    Extent2D, SurfaceCapabilities, SurfaceFormat, SurfaceReport, SwapchainProperties,
};
use goshenite::swapchain::{
    AcquireOutcome, BuildOutcome, FenceOutcome, FramePhase, PresentOutcome, RenderAction,
    RenderError, RenderManager, SurfaceQuery,
};

fn properties(width: u32, height: u32) -> SwapchainProperties {
    SwapchainProperties {
        create_flags: 0,
        image_count: 3,
        surface_format: SurfaceFormat { format: 44, color_space: 0 },
        dimensions: Extent2D { width, height },
        array_layers: 1,
        image_usage: 0x10,
        sharing_mode: 0,
        pre_transform: 1,
        composite_alpha: 1,
        present_mode: 2,
        clipping_enabled: true,
    }
}

fn report(width: u32, height: u32) -> SurfaceReport {
    SurfaceReport {
        capabilities: SurfaceCapabilities {
            min_image_count: 2,
            max_image_count: 8,
            current_extent: Extent2D { width, height },
            min_image_extent: Extent2D { width: 1, height: 1 },
            max_image_extent: Extent2D { width: 2000, height: 2000 },
            supported_transforms: 1,
            current_transform: 1,
            supported_composite_alpha: 0b11,
        },
        formats: vec![SurfaceFormat { format: 44, color_space: 0 }],
        present_modes: vec![2],
        window_dimensions: Extent2D { width: 3, height: 3 },
    }
}

fn renderer() -> RenderManager {
    RenderManager::new(EngineConfig::standard(), properties(800, 600), 3)
}

/// Runs one whole frame on a renderer whose current slot is free.
fn present_frame(renderer: &mut RenderManager, image: u32, outcome: PresentOutcome) {
    assert!(matches!(renderer.render_frame(false), RenderAction::AcquireImage { .. }));
    let drawn = renderer.on_acquire(AcquireOutcome::Image { index: image, suboptimal: false });
    assert!(matches!(drawn, RenderAction::Draw { image_index, .. } if image_index == image));
    assert_eq!(renderer.on_present(outcome), RenderAction::FrameDone);
}

/// Carries a rebuild through from the point where the surface is queried.
fn rebuild(renderer: &mut RenderManager, width: u32, height: u32, images: u32) {
    assert_eq!(renderer.phase(), FramePhase::Recreating);
    let build = renderer.on_surface_queried(SurfaceQuery::Report(report(width, height)));
    assert!(matches!(build, RenderAction::BuildSwapchain { .. }));
    assert_eq!(
        renderer.on_swapchain_built(BuildOutcome::Built { image_count: images }),
        RenderAction::FrameDone
    );
}

#[test]
fn standard_config_is_double_buffered() {
    let config = EngineConfig::standard();
    assert_eq!(MAX_FRAMES_IN_FLIGHT, 2);
    assert_eq!(config.max_frames_in_flight, 2);
    assert_eq!(config.preferred_image_count, 2);
    assert_eq!(config.fence_timeout_nanos, 1_000_000_000);
    assert_eq!(config.join_timeout_millis, 2_000);
    assert_eq!(config.max_consecutive_timeouts, 3);
}

#[test]
fn new_renderer_is_live_at_generation_zero() {
    let renderer = renderer();
    assert_eq!(renderer.phase(), FramePhase::Live);
    assert_eq!(renderer.generation(), 0);
    assert_eq!(renderer.image_count(), 3);
    assert_eq!(renderer.framebuffer_count(), 3);
    assert_eq!(renderer.frames_in_flight(), 0);
    assert!(!renderer.recreate_pending());
    assert_eq!(renderer.properties(), properties(800, 600));
}

#[test]
fn frame_goes_from_acquire_to_present() {
    let mut renderer = renderer();
    assert_eq!(renderer.render_frame(false), RenderAction::AcquireImage { slot: 0 });
    assert_eq!(renderer.phase(), FramePhase::AcquirePending);
    assert_eq!(
        renderer.on_acquire(AcquireOutcome::Image { index: 2, suboptimal: false }),
        RenderAction::Draw { image_index: 2, slot: 0 }
    );
    assert_eq!(renderer.phase(), FramePhase::Presenting { image_index: 2 });
    assert_eq!(renderer.on_present(PresentOutcome::Presented), RenderAction::FrameDone);
    assert_eq!(renderer.phase(), FramePhase::Live);
    assert_eq!(renderer.frames_in_flight(), 1);
    assert!(!renderer.recreate_pending());
}

#[test]
fn frames_in_flight_never_exceed_the_budget() {
    let mut renderer = renderer();
    for frame in 0..20u32 {
        match renderer.render_frame(false) {
            RenderAction::AcquireImage { slot } => assert_eq!(slot, (frame as usize) % 2),
            RenderAction::WaitForFence { slot, timeout_nanos } => {
                assert_eq!(slot, (frame as usize) % 2);
                assert_eq!(timeout_nanos, TIMEOUT_NANOSECS);
                assert_eq!(renderer.frames_in_flight(), 2);
                assert_eq!(
                    renderer.on_fence(FenceOutcome::Signaled),
                    RenderAction::AcquireImage { slot }
                );
                assert_eq!(renderer.frames_in_flight(), 1);
            }
            other => panic!("unexpected action {:?}", other),
        }
        let drawn = renderer.on_acquire(AcquireOutcome::Image { index: frame % 3, suboptimal: false });
        assert_eq!(drawn, RenderAction::Draw { image_index: frame % 3, slot: (frame as usize) % 2 });
        assert_eq!(renderer.on_present(PresentOutcome::Presented), RenderAction::FrameDone);
        assert!(renderer.frames_in_flight() <= MAX_FRAMES_IN_FLIGHT);
    }
    assert_eq!(renderer.frames_in_flight(), 2);
}

#[test]
fn generation_counts_the_rebuilds() {
    let mut renderer = RenderManager::starting_at(EngineConfig::standard(), properties(800, 600), 3, 41);
    for built in 1..=5u64 {
        assert_eq!(renderer.render_frame(true), RenderAction::QuerySurface);
        rebuild(&mut renderer, 800, 600, 3);
        assert_eq!(renderer.generation(), 41 + built);
    }
}

#[test]
fn resize_rebuilds_to_the_clamped_surface_extent() {
    let mut renderer = renderer();
    assert_eq!(renderer.render_frame(true), RenderAction::QuerySurface);
    let build = renderer.on_surface_queried(SurfaceQuery::Report(report(2500, 700)));
    match build {
        RenderAction::BuildSwapchain { properties } => {
            assert_eq!(properties.dimensions, Extent2D { width: 2000, height: 700 });
            assert_eq!(properties.image_count, 2);
        }
        other => panic!("unexpected action {:?}", other),
    }
    assert_eq!(
        renderer.on_swapchain_built(BuildOutcome::Built { image_count: 4 }),
        RenderAction::FrameDone
    );
    assert_eq!(renderer.properties().dimensions, Extent2D { width: 2000, height: 700 });
    assert_eq!(renderer.image_count(), 4);
    assert_eq!(renderer.framebuffer_count(), 4);
    assert_eq!(renderer.generation(), 1);
    assert!(!renderer.recreate_pending());
    assert_eq!(renderer.phase(), FramePhase::Live);
    // the next iteration renders again
    assert_eq!(renderer.render_frame(false), RenderAction::AcquireImage { slot: 0 });
}

#[test]
fn rebuild_waits_for_every_frame_in_flight() {
    let mut renderer = renderer();
    present_frame(&mut renderer, 0, PresentOutcome::Presented);
    present_frame(&mut renderer, 1, PresentOutcome::Presented);
    assert_eq!(renderer.frames_in_flight(), 2);
    assert_eq!(
        renderer.render_frame(true),
        RenderAction::WaitForFence { slot: 0, timeout_nanos: TIMEOUT_NANOSECS }
    );
    assert_eq!(renderer.phase(), FramePhase::WaitingIdle { slot: 0 });
    assert_eq!(
        renderer.on_fence(FenceOutcome::Signaled),
        RenderAction::WaitForFence { slot: 1, timeout_nanos: TIMEOUT_NANOSECS }
    );
    assert_eq!(renderer.on_fence(FenceOutcome::Signaled), RenderAction::QuerySurface);
    assert_eq!(renderer.frames_in_flight(), 0);
    rebuild(&mut renderer, 640, 480, 3);
    assert_eq!(renderer.generation(), 1);
}

#[test]
fn out_of_date_acquire_skips_the_frame_and_rebuilds() {
    let mut renderer = renderer();
    assert_eq!(renderer.render_frame(false), RenderAction::AcquireImage { slot: 0 });
    assert_eq!(renderer.on_acquire(AcquireOutcome::OutOfDate), RenderAction::QuerySurface);
    assert!(renderer.recreate_pending());
    assert_eq!(renderer.frames_in_flight(), 0);
    rebuild(&mut renderer, 640, 480, 3);
    assert_eq!(renderer.properties().dimensions, Extent2D { width: 640, height: 480 });
}

#[test]
fn suboptimal_acquire_still_draws_and_rebuilds_next() {
    let mut renderer = renderer();
    assert_eq!(renderer.render_frame(false), RenderAction::AcquireImage { slot: 0 });
    assert_eq!(
        renderer.on_acquire(AcquireOutcome::Image { index: 0, suboptimal: true }),
        RenderAction::Draw { image_index: 0, slot: 0 }
    );
    assert_eq!(renderer.on_present(PresentOutcome::Presented), RenderAction::FrameDone);
    assert!(renderer.recreate_pending());
    assert_eq!(
        renderer.render_frame(false),
        RenderAction::WaitForFence { slot: 0, timeout_nanos: TIMEOUT_NANOSECS }
    );
}

#[test]
fn suboptimal_present_counts_the_frame_and_sets_the_trigger() {
    for outcome in [PresentOutcome::Suboptimal, PresentOutcome::OutOfDate] {
        let mut renderer = renderer();
        present_frame(&mut renderer, 0, outcome);
        assert!(renderer.recreate_pending());
        assert_eq!(renderer.frames_in_flight(), 1);
        assert_eq!(renderer.phase(), FramePhase::Live);
    }
}

#[test]
fn failed_present_leaves_the_slot_free() {
    let mut renderer = renderer();
    present_frame(&mut renderer, 0, PresentOutcome::Failed);
    assert!(!renderer.recreate_pending());
    assert_eq!(renderer.frames_in_flight(), 0);
    assert_eq!(renderer.render_frame(false), RenderAction::AcquireImage { slot: 0 });
}

#[test]
fn failed_acquire_is_fatal() {
    let mut renderer = renderer();
    renderer.render_frame(false);
    assert_eq!(
        renderer.on_acquire(AcquireOutcome::Failed),
        RenderAction::Fatal { error: RenderError::AcquireFailed }
    );
    assert_eq!(renderer.phase(), FramePhase::Failed);
}

#[test]
fn image_index_beyond_the_swapchain_is_fatal() {
    let mut renderer = renderer();
    renderer.render_frame(false);
    assert_eq!(
        renderer.on_acquire(AcquireOutcome::Image { index: 3, suboptimal: false }),
        RenderAction::Fatal { error: RenderError::AcquireFailed }
    );
}

#[test]
fn lost_surface_is_fatal() {
    let mut renderer = renderer();
    assert_eq!(renderer.render_frame(true), RenderAction::QuerySurface);
    assert_eq!(
        renderer.on_surface_queried(SurfaceQuery::Lost),
        RenderAction::Fatal { error: RenderError::SurfaceLost }
    );
    assert_eq!(renderer.phase(), FramePhase::Failed);
    assert_eq!(renderer.generation(), 0);
}

#[test]
fn failed_build_is_fatal() {
    let mut renderer = renderer();
    renderer.render_frame(true);
    renderer.on_surface_queried(SurfaceQuery::Report(report(640, 480)));
    assert_eq!(
        renderer.on_swapchain_built(BuildOutcome::Failed),
        RenderAction::Fatal { error: RenderError::SurfaceLost }
    );
    assert_eq!(renderer.generation(), 0);
}

#[test]
fn exhausted_generation_is_fatal() {
    let mut renderer =
        RenderManager::starting_at(EngineConfig::standard(), properties(800, 600), 3, u64::MAX);
    renderer.render_frame(true);
    renderer.on_surface_queried(SurfaceQuery::Report(report(640, 480)));
    assert_eq!(
        renderer.on_swapchain_built(BuildOutcome::Built { image_count: 3 }),
        RenderAction::Fatal { error: RenderError::GenerationExhausted }
    );
    assert_eq!(renderer.generation(), u64::MAX);
}

#[test]
fn sustained_fence_timeouts_escalate() {
    let mut renderer = renderer();
    present_frame(&mut renderer, 0, PresentOutcome::Presented);
    present_frame(&mut renderer, 1, PresentOutcome::Presented);
    let wait = RenderAction::WaitForFence { slot: 0, timeout_nanos: TIMEOUT_NANOSECS };
    assert_eq!(renderer.render_frame(false), wait);
    assert_eq!(renderer.on_fence(FenceOutcome::TimedOut), wait);
    assert_eq!(renderer.on_fence(FenceOutcome::TimedOut), wait);
    assert_eq!(
        renderer.on_fence(FenceOutcome::TimedOut),
        RenderAction::Fatal { error: RenderError::DeviceTimeout { waited_nanos: TIMEOUT_NANOSECS } }
    );
    assert_eq!(renderer.phase(), FramePhase::Failed);
}

#[test]
fn a_signaled_fence_forgives_earlier_timeouts() {
    let mut renderer = renderer();
    present_frame(&mut renderer, 0, PresentOutcome::Presented);
    present_frame(&mut renderer, 1, PresentOutcome::Presented);
    for frame in 0..4u32 {
        let slot = (frame as usize) % 2;
        let wait = RenderAction::WaitForFence { slot, timeout_nanos: TIMEOUT_NANOSECS };
        assert_eq!(renderer.render_frame(false), wait);
        assert_eq!(renderer.on_fence(FenceOutcome::TimedOut), wait);
        assert_eq!(renderer.on_fence(FenceOutcome::TimedOut), wait);
        assert_eq!(renderer.on_fence(FenceOutcome::Signaled), RenderAction::AcquireImage { slot });
        renderer.on_acquire(AcquireOutcome::Image { index: 0, suboptimal: false });
        renderer.on_present(PresentOutcome::Presented);
    }
    assert_eq!(renderer.phase(), FramePhase::Live);
}
