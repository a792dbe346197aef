use vulkan_renderer::command_pools::{recording_plan, CommandPools, RecordingJob};
use vulkan_renderer::device::Device;
use vulkan_renderer::error::RendererError;
use vulkan_renderer::pipeline::Pipeline;
use vulkan_renderer::queue::{QueueFamilies, QueueFamilyInfo, QUEUE_GRAPHICS_BIT, QUEUE_TRANSFER_BIT};
use vulkan_renderer::swapchain::{
    choose_surface_format, plan_swapchain, Extent2D, FenceState, FramePhase, SurfaceCapabilities,
    SurfaceFormat, Swapchain, SwapchainConfig, SwapchainObject, REQUESTED_IMAGE_COUNT,
    SWAPCHAIN_FORMAT,
};

const BGRA8_UNORM: i32 = SWAPCHAIN_FORMAT;
const RGBA8_UNORM: i32 = 37;
const SRGB_NONLINEAR: i32 = 0;

fn family(queue_count: u32, graphics: bool, transfer: bool) -> QueueFamilyInfo {
    let mut queue_flags = 0;
    if graphics {
        queue_flags |= QUEUE_GRAPHICS_BIT;
    }
    if transfer {
        queue_flags |= QUEUE_TRANSFER_BIT;
    }
    QueueFamilyInfo { queue_count, queue_flags }
}

#[test]
fn queue_flags_are_read_bit_by_bit() {
    // graphics|compute|transfer, compute only, compute|transfer|sparse
    let families = vec![
        QueueFamilyInfo { queue_count: 16, queue_flags: 0x7 },
        QueueFamilyInfo { queue_count: 8, queue_flags: 0x2 },
        QueueFamilyInfo { queue_count: 2, queue_flags: 0xE },
    ];
    let q = QueueFamilies::init(&families);
    assert_eq!(q.graphics_q_index, Some(0));
    assert_eq!(q.transfer_q_index, Some(2));
    assert_eq!(SWAPCHAIN_FORMAT, 44);
}

fn caps(min: u32, max: u32) -> SurfaceCapabilities {
    SurfaceCapabilities {
        min_image_count: min,
        max_image_count: max,
        current_extent: Extent2D { width: 800, height: 600 },
        current_transform: 1,
    }
}

fn graphics_only() -> QueueFamilies {
    QueueFamilies { graphics_q_index: Some(0), transfer_q_index: Some(0) }
}

fn config() -> SwapchainConfig {
    let formats = vec![SurfaceFormat { format: BGRA8_UNORM, color_space: SRGB_NONLINEAR }];
    plan_swapchain(&caps(2, 8), &formats, BGRA8_UNORM, &graphics_only()).unwrap()
}

fn handles(base: u64, n: u64) -> Vec<u64> {
    (0..n).map(|i| base + i).collect()
}

fn swapchain_of(n: u64) -> Swapchain {
    Swapchain::init(
        &config(),
        7,
        handles(100, n),
        handles(200, n),
        handles(300, n),
        handles(400, n),
        handles(500, n),
    )
    .unwrap()
}

#[test]
fn graphics_family_is_the_first_capable_one() {
    let families = vec![
        family(0, true, true),
        family(1, false, false),
        family(2, true, true),
        family(1, true, false),
    ];
    let q = QueueFamilies::init(&families);
    assert_eq!(q.graphics_q_index, Some(2));
}

#[test]
fn transfer_family_prefers_a_dedicated_one() {
    let families = vec![family(1, true, true), family(1, false, true), family(1, true, true)];
    let q = QueueFamilies::init(&families);
    assert_eq!(q.graphics_q_index, Some(0));
    assert_eq!(q.transfer_q_index, Some(1));
    assert_eq!(q.required_indices(), Ok((0, 1)));
}

#[test]
fn transfer_family_falls_back_to_the_graphics_family() {
    let families = vec![family(1, false, false), family(4, true, true), family(1, true, true)];
    let q = QueueFamilies::init(&families);
    assert_eq!(q.graphics_q_index, Some(1));
    assert_eq!(q.transfer_q_index, Some(1));
}

#[test]
fn last_dedicated_transfer_family_wins() {
    let families = vec![family(1, false, true), family(1, true, true), family(2, false, true)];
    let q = QueueFamilies::init(&families);
    assert_eq!(q.transfer_q_index, Some(2));
}

#[test]
fn no_graphics_family_is_an_error() {
    let families = vec![family(1, false, true), family(0, true, true)];
    let q = QueueFamilies::init(&families);
    assert_eq!(q.graphics_q_index, None);
    assert_eq!(q.transfer_q_index, Some(0));
    assert_eq!(q.required_indices(), Err(RendererError::NoSuitableQueueFamily));
}

#[test]
fn no_queue_families_at_all() {
    let q = QueueFamilies::init(&vec![]);
    assert_eq!(q, QueueFamilies { graphics_q_index: None, transfer_q_index: None });
    assert_eq!(q.required_indices(), Err(RendererError::NoSuitableQueueFamily));
}

#[test]
fn first_physical_device_is_chosen() {
    assert_eq!(Device::get_physical_device(&vec![11, 12, 13]), Ok(11));
    assert_eq!(Device::get_physical_device(&vec![]), Err(RendererError::NoSuitablePhysicalDevice));
}

#[test]
fn first_matching_surface_format_is_chosen() {
    let formats = vec![
        SurfaceFormat { format: RGBA8_UNORM, color_space: 0 },
        SurfaceFormat { format: BGRA8_UNORM, color_space: 5 },
        SurfaceFormat { format: BGRA8_UNORM, color_space: 0 },
    ];
    assert_eq!(
        choose_surface_format(&formats, BGRA8_UNORM),
        Ok(SurfaceFormat { format: BGRA8_UNORM, color_space: 5 })
    );
}

#[test]
fn three_images_requested_on_a_two_to_eight_surface() {
    let formats = vec![SurfaceFormat { format: BGRA8_UNORM, color_space: SRGB_NONLINEAR }];
    let c = plan_swapchain(&caps(2, 8), &formats, BGRA8_UNORM, &graphics_only()).unwrap();
    assert_eq!(c.min_image_count, 3);
    assert_eq!(REQUESTED_IMAGE_COUNT, 3);
    assert_eq!(c.extent, Extent2D { width: 800, height: 600 });
    assert_eq!(c.pre_transform, 1);
    assert_eq!(c.queue_family, 0);
    let s = Swapchain::init(
        &c,
        1,
        handles(10, 3),
        handles(20, 3),
        handles(30, 3),
        handles(40, 3),
        handles(50, 3),
    )
    .unwrap();
    assert_eq!(s.amount_of_images, 3);
    assert_eq!(s.images.len(), 3);
    assert_eq!(s.current_image, 0);
    assert_eq!(s.phase, FramePhase::Acquire);
    assert!(s.framebuffers.is_empty());
}

#[test]
fn unsupported_surface_format_fails() {
    let formats = vec![SurfaceFormat { format: RGBA8_UNORM, color_space: SRGB_NONLINEAR }];
    assert_eq!(choose_surface_format(&formats, BGRA8_UNORM), Err(RendererError::FormatUnsupported));
    assert_eq!(
        plan_swapchain(&caps(2, 8), &formats, BGRA8_UNORM, &graphics_only()),
        Err(RendererError::FormatUnsupported)
    );
    assert_eq!(
        plan_swapchain(&caps(2, 8), &vec![], BGRA8_UNORM, &graphics_only()),
        Err(RendererError::FormatUnsupported)
    );
}

#[test]
fn swapchain_plan_needs_a_graphics_family() {
    let formats = vec![SurfaceFormat { format: BGRA8_UNORM, color_space: SRGB_NONLINEAR }];
    let none = QueueFamilies { graphics_q_index: None, transfer_q_index: Some(1) };
    assert_eq!(
        plan_swapchain(&caps(2, 8), &formats, BGRA8_UNORM, &none),
        Err(RendererError::NoSuitableQueueFamily)
    );
}

#[test]
fn per_image_arrays_have_one_entry_per_image() {
    let mut s = swapchain_of(4);
    assert_eq!(s.create_framebuffer(handles(600, 4)), Ok(()));
    let n = s.amount_of_images as usize;
    assert_eq!(n, 4);
    assert_eq!(s.image_views.len(), n);
    assert_eq!(s.framebuffers.len(), n);
    assert_eq!(s.image_available.len(), n);
    assert_eq!(s.rendering_finished.len(), n);
    assert_eq!(s.may_begin_drawing.len(), n);
    assert_eq!(s.framebuffers, handles(600, 4));
}

#[test]
fn every_fence_starts_signaled() {
    let s = swapchain_of(3);
    assert_eq!(s.fence_states, vec![FenceState::Signaled; 3]);
}

#[test]
fn mismatched_per_image_objects_are_refused() {
    let r = Swapchain::init(
        &config(),
        7,
        handles(100, 3),
        handles(200, 3),
        handles(300, 2),
        handles(400, 3),
        handles(500, 3),
    );
    assert!(matches!(r, Err(RendererError::ImageCountMismatch)));
    let empty = Swapchain::init(&config(), 7, vec![], vec![], vec![], vec![], vec![]);
    assert!(matches!(empty, Err(RendererError::ImageCountMismatch)));
}

#[test]
fn framebuffer_count_must_match() {
    let mut s = swapchain_of(3);
    assert_eq!(s.create_framebuffer(handles(600, 2)), Err(RendererError::ImageCountMismatch));
    assert!(s.framebuffers.is_empty());
}

#[test]
fn swapchain_cleanup_order_and_second_call() {
    let mut s = swapchain_of(2);
    s.create_framebuffer(vec![61, 62]).unwrap();
    let objects = s.cleanup();
    assert_eq!(
        objects,
        vec![
            SwapchainObject::Fence(500),
            SwapchainObject::Fence(501),
            SwapchainObject::Semaphore(300),
            SwapchainObject::Semaphore(301),
            SwapchainObject::Semaphore(400),
            SwapchainObject::Semaphore(401),
            SwapchainObject::Framebuffer(61),
            SwapchainObject::Framebuffer(62),
            SwapchainObject::ImageView(200),
            SwapchainObject::ImageView(201),
            SwapchainObject::Swapchain(7),
        ]
    );
    assert!(s.released);
    assert!(s.cleanup().is_empty());
}

#[test]
fn recording_plan_pairs_buffers_with_framebuffers() {
    let mut s = swapchain_of(2);
    s.create_framebuffer(vec![61, 62]).unwrap();
    let p = Pipeline { pipeline: 90, layout: 91 };
    let jobs = recording_plan(&vec![71, 72], 80, &s, &p).unwrap();
    assert_eq!(jobs.len(), 2);
    assert_eq!(
        jobs[1],
        RecordingJob {
            command_buffer: 72,
            render_pass: 80,
            framebuffer: 62,
            pipeline: 90,
            extent: Extent2D { width: 800, height: 600 },
            vertex_count: 1,
            instance_count: 1,
        }
    );
    assert_eq!(jobs[0].command_buffer, 71);
    assert_eq!(jobs[0].framebuffer, 61);
    let fewer = recording_plan(&vec![75], 80, &s, &p).unwrap();
    assert_eq!(fewer.len(), 1);
    assert_eq!(fewer[0].command_buffer, 75);
    assert_eq!(fewer[0].framebuffer, 61);
    assert_eq!(recording_plan(&vec![71, 72, 73], 80, &s, &p), Err(RendererError::ImageCountMismatch));
}

#[test]
fn pools_and_pipeline_cleanup_order() {
    let pools = CommandPools { commandpool_graphics: 1, commandpool_transfer: 2 };
    assert_eq!(pools.cleanup(), vec![1, 2]);
    let p = Pipeline { pipeline: 3, layout: 4 };
    assert_eq!(p.cleanup(), vec![3, 4]);
}
