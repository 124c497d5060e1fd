use vk_window::command_buffer::{
    create_command_buffer, submit_command_buffer_to_swapchain, ClearValue, Command,
    ConcreteObject, FlushFailure, FlushOutcome, SubmissionStep,
};
use vk_window::errors::FatalError;
use vk_window::extent::Extent;
use vk_window::framebuffer::{build_framebuffers, FramebufferAttachment};
use vk_window::render_pass::{AttachmentDesc, RenderPassDesc};
use vk_window::window::{
    plan_swapchain, AcquireOutcome, AcquireStep, Capabilities, FrameFuture, PresentMode,
    RecreateResult, SwapchainConfig, SwapchainCreateResult, VkWindow,
};

fn render_pass_with(count: usize) -> RenderPassDesc {
    let mut attachments = Vec::new();
    for slot in 0..count {
        attachments.push(AttachmentDesc {
            format: 100 + slot as u64,
            samples: if slot == 0 { 1 } else { 4 },
        });
    }
    RenderPassDesc::new(attachments)
}

fn window_with(attachment_count: usize, image_count: usize, extent: Extent) -> VkWindow {
    let config = SwapchainConfig {
        format: 100,
        extent,
        image_count: image_count as u32,
        present_mode: PresentMode::Immediate,
    };
    VkWindow::new(
        render_pass_with(attachment_count),
        config,
        SwapchainCreateResult::Created { image_count },
    )
    .expect("window creation must succeed for a supported configuration")
}

#[test]
fn builder_emits_one_framebuffer_per_image_for_each_supported_count() {
    let extent = Extent::new(640, 480);
    for count in 1..=4 {
        let rp = render_pass_with(count);
        assert_eq!(rp.attachment_count(), count);
        let fbs = build_framebuffers(&rp, 3, extent).expect("supported count must build");
        assert_eq!(fbs.len(), 3);
        for fb in fbs.iter() {
            assert_eq!(fb.attachments.len(), count);
            assert_eq!(fb.extent, extent);
        }
    }
}

#[test]
fn builder_slot_zero_is_the_swapchain_image_and_later_slots_are_transient() {
    let extent = Extent::new(320, 200);
    let rp = render_pass_with(3);
    let fbs = build_framebuffers(&rp, 2, extent).expect("supported count must build");
    for (i, fb) in fbs.iter().enumerate() {
        assert_eq!(
            fb.attachments[0],
            FramebufferAttachment::SwapchainImage { image_index: i }
        );
        for slot in 1..3 {
            assert_eq!(
                fb.attachments[slot],
                FramebufferAttachment::Transient {
                    format: 100 + slot as u64,
                    samples: 4,
                    extent,
                }
            );
        }
    }
}

#[test]
fn builder_rejects_zero_attachments() {
    let rp = render_pass_with(0);
    let result = build_framebuffers(&rp, 3, Extent::new(640, 480));
    assert_eq!(
        result.unwrap_err(),
        FatalError::UnsupportedAttachmentCount { count: 0 }
    );
}

#[test]
fn builder_rejects_five_attachments() {
    let rp = render_pass_with(5);
    let result = build_framebuffers(&rp, 3, Extent::new(640, 480));
    assert_eq!(
        result.unwrap_err(),
        FatalError::UnsupportedAttachmentCount { count: 5 }
    );
}

#[test]
fn builder_failure_has_a_descriptive_message() {
    let rp = render_pass_with(5);
    let err = build_framebuffers(&rp, 3, Extent::new(640, 480)).unwrap_err();
    assert!(err.message().contains("attachment count"));
}

#[test]
fn plan_takes_first_format_current_extent_and_minimum_count() {
    let caps = Capabilities {
        supported_formats: vec![42, 43, 44],
        current_extent: Some(Extent::new(800, 600)),
        min_image_count: 2,
    };
    let config = plan_swapchain(&caps).expect("a surface with formats must plan");
    assert_eq!(config.format, 42);
    assert_eq!(config.extent, Extent::new(800, 600));
    assert_eq!(config.image_count, 2);
    assert_eq!(config.present_mode, PresentMode::Immediate);
}

#[test]
fn plan_falls_back_to_the_default_extent() {
    let caps = Capabilities {
        supported_formats: vec![42],
        current_extent: None,
        min_image_count: 3,
    };
    let config = plan_swapchain(&caps).unwrap();
    assert_eq!(config.extent, Extent::new(1024, 768));
}

#[test]
fn plan_rejects_a_surface_without_formats() {
    let caps = Capabilities {
        supported_formats: vec![],
        current_extent: Some(Extent::new(800, 600)),
        min_image_count: 2,
    };
    assert_eq!(plan_swapchain(&caps).unwrap_err(), FatalError::NoSupportedFormat);
}

#[test]
fn creation_reports_unsupported_dimensions_as_fatal() {
    let config = SwapchainConfig {
        format: 1,
        extent: Extent::new(0, 0),
        image_count: 2,
        present_mode: PresentMode::Immediate,
    };
    let result = VkWindow::new(
        render_pass_with(1),
        config,
        SwapchainCreateResult::UnsupportedDimensions,
    );
    assert_eq!(
        result.unwrap_err(),
        FatalError::UnsupportedDimensions { dimensions: Extent::new(0, 0) }
    );
}

#[test]
fn creation_reports_other_failures_as_fatal() {
    let config = SwapchainConfig {
        format: 1,
        extent: Extent::new(800, 600),
        image_count: 2,
        present_mode: PresentMode::Immediate,
    };
    let result = VkWindow::new(render_pass_with(1), config, SwapchainCreateResult::Failed);
    assert_eq!(result.unwrap_err(), FatalError::SwapchainCreationFailed);
}

#[test]
fn creation_rejects_an_unsupported_attachment_count_before_building_anything() {
    let config = SwapchainConfig {
        format: 1,
        extent: Extent::new(800, 600),
        image_count: 2,
        present_mode: PresentMode::Immediate,
    };
    let result = VkWindow::new(
        render_pass_with(5),
        config,
        SwapchainCreateResult::Created { image_count: 2 },
    );
    assert_eq!(
        result.unwrap_err(),
        FatalError::UnsupportedAttachmentCount { count: 5 }
    );
}

#[test]
fn acquisition_stores_the_token_and_names_the_framebuffer() {
    let mut w = window_with(1, 3, Extent::new(800, 600));
    let step = w
        .next_image(AcquireOutcome::Acquired { image_index: 1 })
        .expect("a valid acquisition must be accepted");
    assert_eq!(step, AcquireStep::Acquired { image_index: 1 });
    assert_eq!(w.image_num, Some(1));
    assert!(w.future_pending);
}

#[test]
fn second_acquisition_without_present_is_rejected_and_keeps_the_token() {
    let mut w = window_with(1, 3, Extent::new(800, 600));
    w.next_image(AcquireOutcome::Acquired { image_index: 2 }).unwrap();
    let second = w.next_image(AcquireOutcome::Acquired { image_index: 0 });
    assert_eq!(second.unwrap_err(), FatalError::AcquisitionAlreadyHeld);
    assert_eq!(w.image_num, Some(2));
    assert!(w.future_pending);
}

#[test]
fn acquisition_rejects_an_index_outside_the_image_set() {
    let mut w = window_with(1, 3, Extent::new(800, 600));
    let result = w.next_image(AcquireOutcome::Acquired { image_index: 3 });
    assert_eq!(
        result.unwrap_err(),
        FatalError::InvalidImageIndex { index: 3, image_count: 3 }
    );
    assert_eq!(w.image_num, None);
}

#[test]
fn out_of_date_acquisition_demands_a_rebuild_and_stores_nothing() {
    let mut w = window_with(1, 3, Extent::new(800, 600));
    let step = w.next_image(AcquireOutcome::OutOfDate).unwrap();
    assert_eq!(step, AcquireStep::MustRebuild);
    assert_eq!(w.image_num, None);
    assert!(!w.future_pending);
}

#[test]
fn other_acquisition_failures_are_fatal() {
    let mut w = window_with(1, 3, Extent::new(800, 600));
    assert_eq!(
        w.next_image(AcquireOutcome::Failed).unwrap_err(),
        FatalError::AcquireFailed
    );
}

#[test]
fn rebuild_adopts_the_surface_dimensions() {
    let mut w = window_with(2, 3, Extent::new(800, 600));
    let dims = Extent::new(1280, 720);
    w.rebuild(dims, RecreateResult::Recreated { image_count: 3 }).unwrap();
    assert_eq!(w.extent, dims);
    for fb in w.framebuffers.iter() {
        assert_eq!(fb.extent, dims);
    }
}

#[test]
fn rebuild_failures_leave_the_window_untouched() {
    let mut w = window_with(2, 3, Extent::new(800, 600));
    let before_extent = w.extent;
    let before_generation = w.generation;
    let dims = Extent::new(1, 1);
    let result = w.rebuild(dims, RecreateResult::UnsupportedDimensions);
    assert_eq!(
        result.unwrap_err(),
        FatalError::UnsupportedDimensions { dimensions: dims }
    );
    assert_eq!(w.extent, before_extent);
    assert_eq!(w.generation, before_generation);
    assert_eq!(w.framebuffers.len(), 3);

    let result = w.rebuild(dims, RecreateResult::Failed);
    assert_eq!(result.unwrap_err(), FatalError::SwapchainCreationFailed);
    assert_eq!(w.extent, before_extent);
}

#[test]
fn rebuild_rejects_a_render_pass_swapped_to_an_unsupported_count() {
    let mut w = window_with(2, 3, Extent::new(800, 600));
    w.set_render_pass(render_pass_with(5));
    let result = w.rebuild(Extent::new(800, 600), RecreateResult::Recreated { image_count: 3 });
    assert_eq!(
        result.unwrap_err(),
        FatalError::UnsupportedAttachmentCount { count: 5 }
    );
    // the old framebuffer set is still intact
    assert_eq!(w.framebuffers.len(), 3);
    assert_eq!(w.framebuffers[0].attachments.len(), 2);
}

#[test]
fn render_pass_swap_takes_effect_on_the_next_rebuild() {
    let mut w = window_with(1, 2, Extent::new(800, 600));
    w.set_render_pass(render_pass_with(3));
    assert_eq!(w.framebuffers[0].attachments.len(), 1);
    w.rebuild(Extent::new(800, 600), RecreateResult::Recreated { image_count: 2 }).unwrap();
    assert_eq!(w.framebuffers[0].attachments.len(), 3);
}

#[test]
fn presenting_without_acquisition_is_rejected() {
    let mut w = window_with(1, 3, Extent::new(800, 600));
    let result = w.present_image(FlushOutcome::Flushed);
    assert_eq!(result.unwrap_err(), FatalError::NoAcquisition);
    assert_eq!(w.image_num, None);
}

#[test]
fn presenting_twice_is_rejected_the_second_time() {
    let mut w = window_with(1, 3, Extent::new(800, 600));
    w.next_image(AcquireOutcome::Acquired { image_index: 0 }).unwrap();
    w.present_image(FlushOutcome::Flushed).unwrap();
    let again = w.present_image(FlushOutcome::Flushed);
    assert_eq!(again.unwrap_err(), FatalError::NoAcquisition);
}

#[test]
fn present_consumes_the_token_and_reports_the_acquired_index() {
    let mut w = window_with(1, 3, Extent::new(800, 600));
    w.next_image(AcquireOutcome::Acquired { image_index: 2 }).unwrap();
    let outcome = w.present_image(FlushOutcome::Flushed).unwrap();
    assert_eq!(outcome.image_index, 2);
    assert_eq!(outcome.future, FrameFuture::FenceSignalled);
    assert!(!outcome.frame_dropped);
    assert_eq!(w.image_num, None);
    assert!(!w.future_pending);
}

#[test]
fn out_of_date_flush_returns_a_completed_droppable_future() {
    let mut w = window_with(1, 3, Extent::new(800, 600));
    w.next_image(AcquireOutcome::Acquired { image_index: 1 }).unwrap();
    let outcome = w.present_image(FlushOutcome::OutOfDate).unwrap();
    assert_eq!(outcome.future, FrameFuture::Completed);
    assert!(outcome.frame_dropped);
    assert_eq!(w.image_num, None);
    let step = w.next_image(AcquireOutcome::Acquired { image_index: 0 }).unwrap();
    assert_eq!(step, AcquireStep::Acquired { image_index: 0 });
}

#[test]
fn other_flush_failures_also_downgrade_to_a_completed_future() {
    let mut w = window_with(1, 3, Extent::new(800, 600));
    w.next_image(AcquireOutcome::Acquired { image_index: 1 }).unwrap();
    let outcome = w.present_image(FlushOutcome::Failed).unwrap();
    assert_eq!(outcome.future, FrameFuture::Completed);
    assert!(outcome.frame_dropped);
}

#[test]
fn acquisition_future_is_taken_once() {
    let mut w = window_with(1, 3, Extent::new(800, 600));
    w.next_image(AcquireOutcome::Acquired { image_index: 1 }).unwrap();
    assert_eq!(w.get_future().unwrap(), 1);
    assert_eq!(w.get_future().unwrap_err(), FatalError::NoPendingAcquireFuture);
}

#[test]
fn acquisition_future_does_not_exist_before_acquiring() {
    let mut w = window_with(1, 3, Extent::new(800, 600));
    assert_eq!(w.get_future().unwrap_err(), FatalError::NoPendingAcquireFuture);
}

#[test]
fn recorder_issues_one_draw_per_descriptor_in_input_order() {
    let extent = Extent::new(800, 600);
    let rp = render_pass_with(1);
    let fbs = build_framebuffers(&rp, 1, extent).unwrap();
    let clear_values = vec![ClearValue { value: 7 }];
    let objects: Vec<ConcreteObject> = (0..4)
        .map(|i| ConcreteObject {
            pipeline: 10 + i,
            dynamic_state: 20 + i,
            vertex_buffer: 30 + i,
            uniform_set: 40 + i,
        })
        .collect();
    let cb = create_command_buffer(&fbs[0], &clear_values, &objects).unwrap();
    assert_eq!(cb.commands.len(), 6);
    assert_eq!(
        cb.commands[0],
        Command::BeginRenderPass { clear_values: clear_values.clone() }
    );
    for i in 0..4 {
        assert_eq!(cb.commands[1 + i], Command::Draw { object: objects[i] });
    }
    assert_eq!(cb.commands[5], Command::EndRenderPass);
}

#[test]
fn recorder_handles_an_empty_descriptor_list() {
    let extent = Extent::new(800, 600);
    let rp = render_pass_with(1);
    let fbs = build_framebuffers(&rp, 1, extent).unwrap();
    let clear_values = vec![ClearValue { value: 7 }];
    let cb = create_command_buffer(&fbs[0], &clear_values, &Vec::new()).unwrap();
    assert_eq!(cb.commands.len(), 2);
    assert_eq!(cb.commands[1], Command::EndRenderPass);
}

#[test]
fn recorder_rejects_a_clear_value_count_mismatch() {
    let extent = Extent::new(800, 600);
    let rp = render_pass_with(2);
    let fbs = build_framebuffers(&rp, 1, extent).unwrap();
    let clear_values = vec![ClearValue { value: 7 }];
    let result = create_command_buffer(&fbs[0], &clear_values, &Vec::new());
    assert_eq!(
        result.unwrap_err(),
        FatalError::ClearValueCountMismatch { expected: 2, actual: 1 }
    );
}

#[test]
fn submission_chains_execute_present_and_fence_in_order() {
    let extent = Extent::new(800, 600);
    let rp = render_pass_with(1);
    let fbs = build_framebuffers(&rp, 1, extent).unwrap();
    let cb = create_command_buffer(&fbs[0], &vec![ClearValue { value: 0 }], &Vec::new()).unwrap();
    let frame = submit_command_buffer_to_swapchain(1, &cb, FlushOutcome::Flushed).unwrap();
    assert_eq!(
        frame.steps,
        vec![
            SubmissionStep::ExecuteCommandBuffer,
            SubmissionStep::PresentImage { image_index: 1 },
            SubmissionStep::SignalFenceAndFlush,
        ]
    );
}

#[test]
fn submission_surfaces_flush_failures_as_results() {
    let extent = Extent::new(800, 600);
    let rp = render_pass_with(1);
    let fbs = build_framebuffers(&rp, 1, extent).unwrap();
    let cb = create_command_buffer(&fbs[0], &vec![ClearValue { value: 0 }], &Vec::new()).unwrap();
    assert_eq!(
        submit_command_buffer_to_swapchain(0, &cb, FlushOutcome::OutOfDate).unwrap_err(),
        FlushFailure::OutOfDate
    );
    assert_eq!(
        submit_command_buffer_to_swapchain(0, &cb, FlushOutcome::Failed).unwrap_err(),
        FlushFailure::Other
    );
}

#[test]
fn resize_scenario_rebuilds_before_the_next_successful_acquisition() {
    // The surface reports 800x600 at creation.
    let caps = Capabilities {
        supported_formats: vec![42],
        current_extent: Some(Extent::new(800, 600)),
        min_image_count: 2,
    };
    let config = plan_swapchain(&caps).unwrap();
    let mut w = VkWindow::new(
        render_pass_with(2),
        config,
        SwapchainCreateResult::Created { image_count: 2 },
    )
    .unwrap();
    assert_eq!(w.extent, Extent::new(800, 600));
    let first_generation = w.generation;

    // The next acquisition attempt reports out-of-date; the surface now
    // reports 1024x768.
    let step = w.next_image(AcquireOutcome::OutOfDate).unwrap();
    assert_eq!(step, AcquireStep::MustRebuild);
    w.rebuild(Extent::new(1024, 768), RecreateResult::Recreated { image_count: 2 })
        .unwrap();
    assert!(w.generation > first_generation);

    // The next successful acquisition is against a swapchain and framebuffer
    // set sized 1024x768.
    let step = w.next_image(AcquireOutcome::Acquired { image_index: 0 }).unwrap();
    assert_eq!(step, AcquireStep::Acquired { image_index: 0 });
    assert_eq!(w.extent, Extent::new(1024, 768));
    assert_eq!(w.framebuffers.len(), 2);
    for fb in w.framebuffers.iter() {
        assert_eq!(fb.extent, Extent::new(1024, 768));
        for slot in 1..fb.attachments.len() {
            assert_eq!(
                fb.attachments[slot],
                FramebufferAttachment::Transient {
                    format: 101,
                    samples: 4,
                    extent: Extent::new(1024, 768),
                }
            );
        }
    }
}

#[test]
fn fatal_error_messages_are_distinct_and_nonempty() {
    let errors = [
        FatalError::UnsupportedAttachmentCount { count: 0 },
        FatalError::UnsupportedDimensions { dimensions: Extent::new(1, 1) },
        FatalError::SwapchainCreationFailed,
        FatalError::NoSupportedFormat,
        FatalError::AcquireFailed,
        FatalError::InvalidImageIndex { index: 9, image_count: 2 },
        FatalError::AcquisitionAlreadyHeld,
        FatalError::NoAcquisition,
        FatalError::NoPendingAcquireFuture,
        FatalError::ClearValueCountMismatch { expected: 1, actual: 2 },
    ];
    for (i, a) in errors.iter().enumerate() {
        assert!(!a.message().is_empty());
        for (j, b) in errors.iter().enumerate() {
            if i != j {
                assert_ne!(a.message(), b.message());
            }
        }
    }
}
