use render_core::bootstrap::{AdapterInfo, QueueFamilyInfo};
use render_core::errors::{
    CreateError, FrameError, PipelineError, SetupError, SwapChainError, TargetError,
};
use render_core::ledger::{Ledger, ResourceKind};
use render_core::pipeline::{build_pipeline, fixed_pipeline_desc, PipelineOutcomes, VertexRate};
use render_core::renderer::{
    render, sync_ring_desc, triangle_clear_color, vertex_buffer_plan, AcquireOutcome, ColorMilli,
    FenceOutcome, FrameContent, FramePhase, FrameReport, HalState, PresentOutcome,
};
use render_core::input::LocalState;
use render_core::swapchain::{CompositeAlpha, Extent2d, PixelFormat, PresentMode, SurfaceCaps};
use render_core::targets::build_targets;

fn plain_caps() -> SurfaceCaps {
    SurfaceCaps {
        image_count_min: 1,
        image_count_max: 4,
        min_extent: Extent2d { width: 1, height: 1 },
        max_extent: Extent2d { width: 2000, height: 2000 },
        composite_alpha: vec![CompositeAlpha::Opaque],
        supports_color_attachment: true,
    }
}

fn one_good_adapter() -> Vec<AdapterInfo> {
    vec![AdapterInfo {
        queue_families: vec![
            QueueFamilyInfo { supports_graphics: true, supports_presentation: false },
            QueueFamilyInfo { supports_graphics: true, supports_presentation: true },
        ],
    }]
}

fn mailbox_renderer(window: Extent2d) -> HalState {
    HalState::new(
        &one_good_adapter(),
        true,
        &plain_caps(),
        &None,
        &vec![PresentMode::Mailbox, PresentMode::Fifo],
        window,
    )
    .expect("creation should succeed")
}

#[test]
fn creation_gives_matching_counts() {
    let hal = mailbox_renderer(Extent2d { width: 400, height: 300 });
    assert_eq!(hal.frames_in_flight, 3);
    assert_eq!(hal.image_view_ids.len(), 3);
    assert_eq!(hal.framebuffer_ids.len(), 3);
    assert_eq!(hal.command_buffer_ids.len(), 3);
    assert_eq!(hal.in_flight_fence_ids.len(), 3);
    assert_eq!(hal.image_available_ids.len(), 3);
    assert_eq!(hal.render_finished_ids.len(), 3);
    assert_eq!(hal.current_frame, 0);
    assert_eq!(hal.config.extent, Extent2d { width: 400, height: 300 });
}

#[test]
fn creation_fails_without_suitable_adapter() {
    let adapters = vec![AdapterInfo {
        queue_families: vec![QueueFamilyInfo {
            supports_graphics: true,
            supports_presentation: false,
        }],
    }];
    let r = HalState::new(
        &adapters,
        true,
        &plain_caps(),
        &None,
        &vec![PresentMode::Fifo],
        Extent2d { width: 400, height: 300 },
    );
    assert!(matches!(r, Err(CreateError::Setup(SetupError::NoSuitableAdapter))));
}

#[test]
fn creation_fails_when_device_open_rejected() {
    let r = HalState::new(
        &one_good_adapter(),
        false,
        &plain_caps(),
        &None,
        &vec![PresentMode::Fifo],
        Extent2d { width: 400, height: 300 },
    );
    assert!(matches!(r, Err(CreateError::Setup(SetupError::DeviceOpenFailed))));
}

#[test]
fn creation_fails_without_present_modes() {
    let r = HalState::new(
        &one_good_adapter(),
        true,
        &plain_caps(),
        &None,
        &vec![],
        Extent2d { width: 400, height: 300 },
    );
    assert!(matches!(r, Err(CreateError::SwapChain(SwapChainError::NoPresentMode))));
}

#[test]
fn fence_follows_image_semaphores_follow_slot() {
    let mut hal = mailbox_renderer(Extent2d { width: 400, height: 300 });
    assert_eq!(hal.acquire_slot(), 0);
    // the presentation engine hands back image 2, out of rotation order
    let recreate = hal.on_acquire(AcquireOutcome::Image(2));
    assert!(!recreate);
    // the fence and command buffer follow the acquired image ...
    assert_eq!(hal.wait_fence_index(), 2);
    assert!(hal.on_fence(FenceOutcome::Signaled).is_ok());
    let plan = hal.record_plan(&FrameContent::Clear(ColorMilli {
        r: 0,
        g: 0,
        b: 0,
        a: 1000,
    }));
    assert_eq!(plan.image, 2);
    assert_eq!(plan.render_area, Extent2d { width: 400, height: 300 });
    assert!(plan.draw.is_none());
    let submit = hal.submit_plan();
    assert_eq!(submit.command_buffer, 2);
    assert_eq!(submit.fence, 2);
    // ... while both semaphores follow the rotation slot
    assert_eq!(submit.wait_slot, 0);
    assert_eq!(submit.signal_slot, 0);
    let present = hal.present_plan();
    assert_eq!(present.image, 2);
    assert_eq!(present.wait_slot, 0);
    assert_eq!(hal.on_present(PresentOutcome::Complete), Ok(false));
    assert_eq!(hal.current_frame, 1);
    assert_eq!(hal.phase, FramePhase::Ready);
}

#[test]
fn fence_timeout_and_device_lost_are_distinct() {
    let mut hal = mailbox_renderer(Extent2d { width: 400, height: 300 });
    hal.on_acquire(AcquireOutcome::Image(0));
    hal.wait_fence_index();
    let timeout = hal.on_fence(FenceOutcome::TimedOut).unwrap_err();
    assert_eq!(timeout, FrameError::FenceTimeout);

    hal.on_acquire(AcquireOutcome::Image(1));
    let lost = hal.on_fence(FenceOutcome::DeviceLost).unwrap_err();
    assert_eq!(lost, FrameError::DeviceLost);
    assert_ne!(timeout, lost);
}

#[test]
fn resize_mid_loop_recreates_and_draws_on() {
    // window starts at 400x300 and is resized to 800x600 mid-loop
    let mut hal = mailbox_renderer(Extent2d { width: 400, height: 300 });
    let clear = ColorMilli { r: 0, g: 0, b: 0, a: 1000 };
    let run = hal
        .draw_clear_frame(
            clear,
            AcquireOutcome::Image(0),
            FenceOutcome::Signaled,
            PresentOutcome::Complete,
        )
        .unwrap();
    assert_eq!(run.report, FrameReport::Presented);
    let plans = run.plans.unwrap();
    assert_eq!(plans.record.image, 0);
    assert_eq!(plans.record.clear, clear);
    assert!(plans.record.draw.is_none());
    assert_eq!(plans.submit.fence, 0);
    assert_eq!(plans.submit.wait_slot, 0);
    assert_eq!(plans.present.image, 0);

    // the next acquisition finds the chain out of date: skip, no error
    let run = hal
        .draw_clear_frame(
            clear,
            AcquireOutcome::OutOfDate,
            FenceOutcome::Signaled,
            PresentOutcome::Complete,
        )
        .unwrap();
    assert_eq!(run.report, FrameReport::SkippedOutOfDate);
    assert!(run.plans.is_none());

    let caps = plain_caps();
    hal.recreate_swapchain(
        &caps,
        &None,
        &vec![PresentMode::Mailbox, PresentMode::Fifo],
        Extent2d { width: 800, height: 600 },
    )
    .expect("recreation should succeed");
    assert_eq!(hal.config.extent, Extent2d { width: 800, height: 600 });
    assert_eq!(hal.image_view_ids.len(), hal.frames_in_flight);
    assert_eq!(hal.framebuffer_ids.len(), hal.frames_in_flight);
    assert_eq!(hal.command_buffer_ids.len(), hal.frames_in_flight);

    // subsequent frames render without a stuck fence wait
    let run = hal
        .draw_clear_frame(
            clear,
            AcquireOutcome::Image(2),
            FenceOutcome::Signaled,
            PresentOutcome::Complete,
        )
        .unwrap();
    assert_eq!(run.report, FrameReport::Presented);
}

#[test]
fn recreation_with_unchanged_window_keeps_extent_and_count() {
    let caps = plain_caps();
    let modes = vec![PresentMode::Mailbox, PresentMode::Fifo];
    let window = Extent2d { width: 400, height: 300 };
    let mut hal = mailbox_renderer(window);
    let extent_before = hal.config.extent;
    let count_before = hal.config.image_count;
    hal.recreate_swapchain(&caps, &None, &modes, window).expect("recreation should succeed");
    assert_eq!(hal.config.extent, extent_before);
    assert_eq!(hal.config.image_count, count_before);
}

#[test]
fn recreation_releases_old_targets_exactly_once_leaves_first() {
    let mut hal = mailbox_renderer(Extent2d { width: 400, height: 300 });
    let old_fbs = hal.framebuffer_ids.clone();
    let old_views = hal.image_view_ids.clone();
    let old_chain = hal.swapchain_id;
    let log_before = hal.ledger.teardown_len();
    hal.recreate_swapchain(
        &plain_caps(),
        &None,
        &vec![PresentMode::Mailbox, PresentMode::Fifo],
        Extent2d { width: 400, height: 300 },
    )
    .expect("recreation should succeed");
    // framebuffers first (newest first), then views, then the retired chain
    let mut expected: Vec<usize> = old_fbs.iter().rev().cloned().collect();
    expected.extend(old_views.iter().rev().cloned());
    expected.push(old_chain);
    let mut logged: Vec<usize> = Vec::new();
    for i in log_before..hal.ledger.teardown_len() {
        logged.push(hal.ledger.teardown_at(i));
    }
    assert_eq!(logged, expected);
    // and the replacements are live
    for &id in hal.image_view_ids.iter().chain(hal.framebuffer_ids.iter()) {
        assert!(hal.ledger.is_alive(id));
    }
    assert!(hal.ledger.is_alive(hal.swapchain_id));
}

#[test]
fn recreation_leaves_everything_else_untouched() {
    let mut hal = mailbox_renderer(Extent2d { width: 400, height: 300 });
    let before = (
        hal.render_pass_id,
        hal.command_pool_id,
        hal.graphics_pipeline_id,
        hal.buffer_id,
        hal.memory_id,
        hal.in_flight_fence_ids.clone(),
    );
    hal.recreate_swapchain(
        &plain_caps(),
        &None,
        &vec![PresentMode::Mailbox, PresentMode::Fifo],
        Extent2d { width: 800, height: 600 },
    )
    .expect("recreation should succeed");
    assert_eq!(hal.render_pass_id, before.0);
    assert_eq!(hal.command_pool_id, before.1);
    assert_eq!(hal.graphics_pipeline_id, before.2);
    assert_eq!(hal.buffer_id, before.3);
    assert_eq!(hal.memory_id, before.4);
    assert_eq!(hal.in_flight_fence_ids, before.5);
    assert!(hal.ledger.is_alive(hal.render_pass_id));
    assert!(hal.ledger.is_alive(hal.graphics_pipeline_id));
    for &id in hal.in_flight_fence_ids.iter() {
        assert!(hal.ledger.is_alive(id));
    }
}

#[test]
fn sync_ring_recipe_is_fixed() {
    let d = sync_ring_desc(3);
    assert_eq!(d.slots, 3);
    assert_eq!(d.fences_per_slot, 1);
    assert!(d.fence_created_signaled);
    assert_eq!(d.semaphores_per_slot, 2);
}

#[test]
fn vertex_buffer_recipe_is_fixed() {
    let p = vertex_buffer_plan();
    // three two-component positions of 4-byte floats
    assert_eq!(p.size_bytes, 24);
    assert!(p.vertex_usage);
    assert!(p.host_visible);
    assert_eq!(p.bind_offset, 0);
}

#[test]
fn triangle_clear_color_is_fixed() {
    let c = triangle_clear_color();
    assert_eq!(c, ColorMilli { r: 100, g: 200, b: 300, a: 1000 });
}

#[test]
fn shutdown_twice_frees_everything_exactly_once() {
    let mut hal = mailbox_renderer(Extent2d { width: 400, height: 300 });
    let total = hal.ledger.len();
    // the two shader modules were already released during the build
    assert_eq!(hal.ledger.teardown_len(), 2);

    hal.shutdown();
    assert_eq!(hal.ledger.len(), total);
    for id in 0..total {
        assert!(!hal.ledger.is_alive(id));
    }
    // every object was logged exactly once
    assert_eq!(hal.ledger.teardown_len(), total);
    // the shutdown segment runs in reverse creation order
    for i in 3..total {
        assert!(hal.ledger.teardown_at(i - 1) > hal.ledger.teardown_at(i));
    }

    // a second shutdown must not double-free: the log does not grow
    hal.shutdown();
    assert_eq!(hal.ledger.teardown_len(), total);
    assert!(!hal.live);
}

#[test]
fn render_tracks_pointer_and_reports_frame() {
    let mut hal = mailbox_renderer(Extent2d { width: 400, height: 300 });
    let local = LocalState { frame_width: 400, frame_height: 300, mouse_x: 200, mouse_y: 150 };
    let run = render(
        &mut hal,
        &local,
        AcquireOutcome::Image(0),
        FenceOutcome::Signaled,
        PresentOutcome::Complete,
    )
    .unwrap();
    assert_eq!(run.report, FrameReport::Presented);
    // the run's recorded plan carries exactly the pointer-tracking triangle
    let draw = run.plans.unwrap().record.draw.unwrap();
    assert_eq!(draw.vertex_count, 3);
    assert_eq!(draw.instance_count, 1);
    assert_eq!(draw.vertices[4].num, 200);
    assert_eq!(draw.vertices[4].den, 400);
    assert_eq!(draw.vertices[5].num, 150);
    assert_eq!(draw.vertices[5].den, 300);
    let run = render(
        &mut hal,
        &local,
        AcquireOutcome::Image(1),
        FenceOutcome::Signaled,
        PresentOutcome::Suboptimal,
    )
    .unwrap();
    assert_eq!(run.report, FrameReport::PresentedSuboptimal);
    let r = render(
        &mut hal,
        &local,
        AcquireOutcome::Image(2),
        FenceOutcome::Signaled,
        PresentOutcome::Failed,
    );
    assert_eq!(r, Err(FrameError::PresentFailed));
}

#[test]
fn triangle_frame_records_three_vertices_one_instance() {
    let mut hal = mailbox_renderer(Extent2d { width: 400, height: 300 });
    hal.on_acquire(AcquireOutcome::Image(1));
    hal.on_fence(FenceOutcome::Signaled).unwrap();
    let local = LocalState { frame_width: 400, frame_height: 300, mouse_x: 100, mouse_y: 75 };
    let triangle = render_core::geometry::triangle_for(&local);
    let clear = triangle_clear_color();
    let plan = hal.record_plan(&FrameContent::Tri(clear, triangle));
    assert_eq!(plan.image, 1);
    assert_eq!(plan.clear, clear);
    let draw = plan.draw.expect("a triangle frame draws");
    assert_eq!(draw.vertex_count, 3);
    assert_eq!(draw.instance_count, 1);
    assert_eq!(draw.vertices[4].num, 100);
    assert_eq!(draw.vertices[4].den, 400);
    assert_eq!(draw.vertices[5].num, 75);
    assert_eq!(draw.vertices[5].den, 300);
}

#[test]
fn target_batch_aborts_and_releases_on_failure() {
    let mut ledger = Ledger::new();
    let keeper = ledger.register(ResourceKind::RenderPass);
    let view_ok = vec![true, true, true];
    let fb_ok = vec![true, false, true];
    let r = build_targets(&mut ledger, 3, &view_ok, &fb_ok);
    assert_eq!(r.unwrap_err(), TargetError::TargetCreationFailed);
    // nothing created in the failed batch stays live, and older entries
    // are untouched
    assert!(ledger.is_alive(keeper));
    for id in 1..ledger.len() {
        assert!(!ledger.is_alive(id));
    }
}

#[test]
fn target_batch_failing_view_aborts_whole_batch() {
    let mut ledger = Ledger::new();
    let view_ok = vec![true, false, true];
    let fb_ok = vec![true, true, true];
    let r = build_targets(&mut ledger, 3, &view_ok, &fb_ok);
    assert_eq!(r.unwrap_err(), TargetError::TargetCreationFailed);
    for id in 0..ledger.len() {
        assert!(!ledger.is_alive(id));
    }
}

#[test]
fn pipeline_build_scopes_shader_modules() {
    let mut ledger = Ledger::new();
    let outcomes = PipelineOutcomes {
        vertex_compile_ok: true,
        fragment_compile_ok: true,
        vertex_module_ok: true,
        fragment_module_ok: true,
        descriptor_set_layout_ok: true,
        pipeline_layout_ok: true,
        pipeline_ok: true,
    };
    let handles = build_pipeline(&mut ledger, &outcomes).expect("build should succeed");
    // both modules were created and are gone again; the layouts and the
    // pipeline survive
    assert_eq!(ledger.kind_of(0), ResourceKind::ShaderModule);
    assert!(!ledger.is_alive(0));
    assert!(!ledger.is_alive(1));
    assert!(ledger.is_alive(handles.descriptor_set_layout));
    assert!(ledger.is_alive(handles.pipeline_layout));
    assert!(ledger.is_alive(handles.graphics_pipeline));
}

#[test]
fn pipeline_build_aborts_on_failed_step() {
    let mut ledger = Ledger::new();
    let outcomes = PipelineOutcomes {
        vertex_compile_ok: true,
        fragment_compile_ok: true,
        vertex_module_ok: true,
        fragment_module_ok: true,
        descriptor_set_layout_ok: true,
        pipeline_layout_ok: true,
        pipeline_ok: false,
    };
    let e = build_pipeline(&mut ledger, &outcomes).unwrap_err();
    assert_eq!(e, PipelineError::PipelineCreationFailed);
    for id in 0..ledger.len() {
        assert!(!ledger.is_alive(id));
    }
}

#[test]
fn pipeline_build_reports_failed_compile() {
    let mut ledger = Ledger::new();
    let outcomes = PipelineOutcomes {
        vertex_compile_ok: false,
        fragment_compile_ok: true,
        vertex_module_ok: true,
        fragment_module_ok: true,
        descriptor_set_layout_ok: true,
        pipeline_layout_ok: true,
        pipeline_ok: true,
    };
    let e = build_pipeline(&mut ledger, &outcomes).unwrap_err();
    assert_eq!(e, PipelineError::VertexCompileFailed);
    assert_eq!(ledger.len(), 0);
}

#[test]
fn pipeline_recipe_is_fixed() {
    let d = fixed_pipeline_desc(Extent2d { width: 640, height: 480 });
    assert!(d.triangle_list);
    assert_eq!(d.vertex_stride, 8);
    assert_eq!(d.vertex_rate, VertexRate::PerVertex);
    assert!(d.cull_none);
    assert!(d.front_face_clockwise);
    assert!(!d.depth_test);
    assert!(!d.stencil_test);
    assert!(d.logic_op_copy);
    assert_eq!(d.viewport, Extent2d { width: 640, height: 480 });
    assert_eq!(d.scissor, Extent2d { width: 640, height: 480 });
    assert_eq!(d.descriptor_set_layouts, 1);
    assert_eq!(d.descriptor_bindings, 0);
    assert_eq!(d.push_constants, 0);
}

#[test]
fn fifo_only_renderer_uses_two_frames() {
    let hal = HalState::new(
        &one_good_adapter(),
        true,
        &plain_caps(),
        &Some(vec![PixelFormat::Bgra8Srgb]),
        &vec![PresentMode::Fifo],
        Extent2d { width: 400, height: 300 },
    )
    .expect("creation should succeed");
    assert_eq!(hal.frames_in_flight, 2);
    assert_eq!(hal.config.format, PixelFormat::Bgra8Srgb);
}
