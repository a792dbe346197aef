use vulkan_renderer::frame::{FrameAction, FrameError, FrameEvent};
use vulkan_renderer::swapchain::{
    plan_swapchain, Extent2D, FenceState, FramePhase, SurfaceCapabilities, SurfaceFormat, Swapchain,
};
use vulkan_renderer::queue::QueueFamilies;

fn swapchain_of(n: u64) -> Swapchain {
    let caps = SurfaceCapabilities {
        min_image_count: 2,
        max_image_count: 8,
        current_extent: Extent2D { width: 640, height: 480 },
        current_transform: 1,
    };
    let formats = vec![SurfaceFormat { format: 44, color_space: 0 }];
    let families = QueueFamilies { graphics_q_index: Some(0), transfer_q_index: Some(0) };
    let config = plan_swapchain(&caps, &formats, 44, &families).unwrap();
    let h = |base: u64| -> Vec<u64> { (0..n).map(|i| base + i).collect() };
    let mut s = Swapchain::init(&config, 9, h(100), h(200), h(300), h(400), h(500)).unwrap();
    s.create_framebuffer(h(600)).unwrap();
    s
}

/// A backend that completes every operation at once and hands out images round-robin.
struct FakeBackend {
    next_image: u32,
    images: u32,
    log: Vec<FrameAction>,
}

impl FakeBackend {
    fn perform(&mut self, action: FrameAction) -> FrameEvent {
        self.log.push(action);
        match action {
            FrameAction::AcquireImage { .. } => {
                let i = self.next_image;
                self.next_image = (self.next_image + 1) % self.images;
                FrameEvent::ImageAcquired(i)
            }
            _ => FrameEvent::Completed,
        }
    }
}

fn run_frame(s: &mut Swapchain, backend: &mut FakeBackend, buffers: &Vec<u64>) {
    for _ in 0..5 {
        let action = s.next_action(buffers);
        let event = backend.perform(action);
        s.handle_event(event).unwrap();
    }
    assert_eq!(s.phase, FramePhase::Acquire);
}

#[test]
fn cursor_cycles_over_ten_frames() {
    let mut s = swapchain_of(3);
    let buffers = vec![700, 701, 702];
    let mut backend = FakeBackend { next_image: 0, images: 3, log: vec![] };
    let mut seen = vec![];
    for _ in 0..10 {
        seen.push(s.current_image);
        run_frame(&mut s, &mut backend, &buffers);
    }
    assert_eq!(seen, vec![0, 1, 2, 0, 1, 2, 0, 1, 2, 0]);
    assert_eq!(s.current_image, 10 % 3);
    assert_eq!(backend.log.len(), 50);
}

#[test]
fn cursor_after_n_frames_is_n_mod_count() {
    for n in 0..12usize {
        let mut s = swapchain_of(4);
        let buffers = vec![700, 701, 702, 703];
        let mut backend = FakeBackend { next_image: 0, images: 4, log: vec![] };
        for _ in 0..n {
            run_frame(&mut s, &mut backend, &buffers);
        }
        assert_eq!(s.current_image, n % 4);
    }
}

#[test]
fn one_frame_uses_the_slot_objects_and_the_acquired_buffer() {
    let mut s = swapchain_of(3);
    let buffers = vec![700, 701, 702];
    assert_eq!(s.next_action(&buffers), FrameAction::AcquireImage { swapchain: 9, signal_semaphore: 300 });
    // the presentation engine hands out image 2 although the cursor is on slot 0
    s.handle_event(FrameEvent::ImageAcquired(2)).unwrap();
    assert_eq!(s.next_action(&buffers), FrameAction::WaitForFence { fence: 500 });
    s.handle_event(FrameEvent::Completed).unwrap();
    assert_eq!(s.next_action(&buffers), FrameAction::ResetFence { fence: 500 });
    s.handle_event(FrameEvent::Completed).unwrap();
    assert_eq!(
        s.next_action(&buffers),
        FrameAction::Submit { command_buffer: 702, wait_semaphore: 300, signal_semaphore: 400, fence: 500 }
    );
    s.handle_event(FrameEvent::Completed).unwrap();
    assert_eq!(
        s.next_action(&buffers),
        FrameAction::Present { swapchain: 9, image_index: 2, wait_semaphore: 400 }
    );
    s.handle_event(FrameEvent::Completed).unwrap();
    assert_eq!(s.current_image, 1);
    assert_eq!(s.next_action(&buffers), FrameAction::AcquireImage { swapchain: 9, signal_semaphore: 301 });
}

#[test]
fn fence_is_reset_then_in_flight_then_signaled_again() {
    let mut s = swapchain_of(2);
    let buffers = vec![700, 701];
    assert_eq!(s.fence_states, vec![FenceState::Signaled, FenceState::Signaled]);
    s.handle_event(FrameEvent::ImageAcquired(0)).unwrap();
    s.handle_event(FrameEvent::Completed).unwrap();
    assert_eq!(s.fence_states[0], FenceState::Signaled);
    s.handle_event(FrameEvent::Completed).unwrap();
    assert_eq!(s.fence_states[0], FenceState::Reset);
    s.handle_event(FrameEvent::Completed).unwrap();
    assert_eq!(s.fence_states[0], FenceState::InFlight);
    s.handle_event(FrameEvent::Completed).unwrap();
    assert_eq!(s.fence_states, vec![FenceState::InFlight, FenceState::Signaled]);
    let mut backend = FakeBackend { next_image: 1, images: 2, log: vec![] };
    run_frame(&mut s, &mut backend, &buffers);
    // slot 0 again: the wait on its in-flight fence succeeds and leaves it signaled
    s.handle_event(FrameEvent::ImageAcquired(0)).unwrap();
    assert_eq!(s.next_action(&buffers), FrameAction::WaitForFence { fence: 500 });
    s.handle_event(FrameEvent::Completed).unwrap();
    assert_eq!(s.fence_states[0], FenceState::Signaled);
}

#[test]
fn out_of_date_acquire_stops_the_frame() {
    let mut s = swapchain_of(3);
    let err = s.handle_event(FrameEvent::OutOfDate).unwrap_err();
    assert_eq!(err, FrameError::OutOfDate(FramePhase::Acquire));
    assert!(err.is_recoverable());
    assert_eq!(err.phase(), FramePhase::Acquire);
    assert_eq!(s.current_image, 0);
    assert_eq!(s.phase, FramePhase::Acquire);
}

#[test]
fn failures_are_fatal_and_change_nothing() {
    let mut s = swapchain_of(3);
    s.handle_event(FrameEvent::ImageAcquired(1)).unwrap();
    let err = s.handle_event(FrameEvent::Failed(-4)).unwrap_err();
    assert_eq!(err, FrameError::Failed(FramePhase::WaitFence, -4));
    assert!(!err.is_recoverable());
    assert_eq!(s.phase, FramePhase::WaitFence);
    assert_eq!(s.acquired_image, 1);
}

#[test]
fn unexpected_events_are_refused() {
    let mut s = swapchain_of(3);
    assert_eq!(s.handle_event(FrameEvent::Completed), Err(FrameError::UnexpectedEvent(FramePhase::Acquire)));
    s.handle_event(FrameEvent::ImageAcquired(0)).unwrap();
    assert_eq!(
        s.handle_event(FrameEvent::ImageAcquired(1)),
        Err(FrameError::UnexpectedEvent(FramePhase::WaitFence))
    );
}

#[test]
fn acquired_index_out_of_range_is_refused() {
    let mut s = swapchain_of(3);
    let err = s.handle_event(FrameEvent::ImageAcquired(3)).unwrap_err();
    assert_eq!(err, FrameError::ImageIndexOutOfRange(3));
    assert_eq!(err.phase(), FramePhase::Acquire);
    assert_eq!(s.phase, FramePhase::Acquire);
}
