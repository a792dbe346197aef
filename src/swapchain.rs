use vstd::prelude::*;

use crate::error::RendererError;
use crate::frame::cursor_after;
use crate::queue::QueueFamilies;
use crate::Handle;

verus! {

/// The number of images the renderer asks the swapchain for. It is not clamped to the
/// surface's limits.
pub const REQUESTED_IMAGE_COUNT: u32 = 3;

/// The surface format the renderer draws in: 32-bit BGRA, unsigned normalized.
pub const SWAPCHAIN_FORMAT: i32 = 44;

#[derive(Clone, Copy, Debug, PartialEq, Eq, Structural)]
pub struct Extent2D {
    pub width: u32,
    pub height: u32,
}

/// A surface format as raw API values.
#[derive(Clone, Copy, Debug, PartialEq, Eq, Structural)]
pub struct SurfaceFormat {
    pub format: i32,
    pub color_space: i32,
}

/// What a surface reports about the swapchains it accepts.
#[derive(Clone, Copy, Debug, PartialEq, Eq, Structural)]
pub struct SurfaceCapabilities {
    pub min_image_count: u32,
    pub max_image_count: u32,
    pub current_extent: Extent2D,
    pub current_transform: u32,
}

/// The parameters a swapchain is created with.
#[derive(Clone, Copy, Debug, PartialEq, Eq, Structural)]
pub struct SwapchainConfig {
    pub min_image_count: u32,
    pub surface_format: SurfaceFormat,
    pub extent: Extent2D,
    pub pre_transform: u32,
    pub queue_family: u32,
}

/// `formats` holds an entry of format `wanted`.
pub open spec fn offers_format(formats: Seq<SurfaceFormat>, wanted: i32) -> bool {
    exists|i: int| 0 <= i < formats.len() && (#[trigger] formats[i]).format == wanted
}

/// `i` is the first entry of `formats` with format `wanted`.
pub open spec fn first_with_format(formats: Seq<SurfaceFormat>, wanted: i32, i: int) -> bool {
    &&& 0 <= i < formats.len()
    &&& formats[i].format == wanted
    &&& forall|j: int| 0 <= j < i ==> (#[trigger] formats[j]).format != wanted
}

/// The first surface format of `formats` whose format is `wanted`.
pub fn choose_surface_format(formats: &Vec<SurfaceFormat>, wanted: i32) -> (r: Result<
    SurfaceFormat,
    RendererError,
>)
    ensures
        match r {
            Ok(f) => exists|i: int| first_with_format(formats@, wanted, i) && formats@[i] == f,
            Err(e) => e == RendererError::FormatUnsupported && !offers_format(formats@, wanted),
        },
{
    let mut i: usize = 0;
    while i < formats.len()
        invariant
            i <= formats.len(),
            forall|j: int| 0 <= j < i ==> (#[trigger] formats@[j]).format != wanted,
        decreases formats.len() - i,
    {
        if formats[i].format == wanted {
            assert(first_with_format(formats@, wanted, i as int));
            return Ok(formats[i]);
        }
        i = i + 1;
    }
    Err(RendererError::FormatUnsupported)
}

/// The parameters of the swapchain for a surface: its current extent and transform,
/// the first offered surface format of format `wanted_format`, the fixed image count
/// and the graphics queue family.
pub fn plan_swapchain(
    capabilities: &SurfaceCapabilities,
    formats: &Vec<SurfaceFormat>,
    wanted_format: i32,
    queue_families: &QueueFamilies,
) -> (r: Result<SwapchainConfig, RendererError>)
    ensures
        !offers_format(formats@, wanted_format) ==> r == Err::<SwapchainConfig, RendererError>(
            RendererError::FormatUnsupported,
        ),
        offers_format(formats@, wanted_format) && queue_families.graphics_q_index is None ==> r
            == Err::<SwapchainConfig, RendererError>(RendererError::NoSuitableQueueFamily),
        offers_format(formats@, wanted_format) && queue_families.graphics_q_index is Some ==> r
            is Ok,
        r matches Ok(c) ==> {
            &&& c.min_image_count == REQUESTED_IMAGE_COUNT
            &&& c.extent == capabilities.current_extent
            &&& c.pre_transform == capabilities.current_transform
            &&& Some(c.queue_family) == queue_families.graphics_q_index
            &&& exists|i: int|
                first_with_format(formats@, wanted_format, i) && formats@[i] == c.surface_format
        },
{
    let surface_format = match choose_surface_format(formats, wanted_format) {
        Ok(f) => f,
        Err(e) => {
            proof {
                if offers_format(formats@, wanted_format) {
                    let i = choose|i: int|
                        0 <= i < formats@.len() && (#[trigger] formats@[i]).format == wanted_format;
                    assert(formats@[i].format == wanted_format);
                }
            }
            return Err(e);
        },
    };
    let queue_family = match queue_families.graphics_q_index {
        Some(g) => g,
        None => {
            return Err(RendererError::NoSuitableQueueFamily);
        },
    };
    Ok(
        SwapchainConfig {
            min_image_count: REQUESTED_IMAGE_COUNT,
            surface_format,
            extent: capabilities.current_extent,
            pre_transform: capabilities.current_transform,
            queue_family,
        },
    )
}


/// Where a frame stands: the operation the frame loop waits on next.
#[derive(Clone, Copy, Debug, PartialEq, Eq, Structural)]
pub enum FramePhase {
    Acquire,
    WaitFence,
    ResetFence,
    Submit,
    Present,
}

/// What the renderer knows of a "may begin drawing" fence.
#[derive(Clone, Copy, Debug, PartialEq, Eq, Structural)]
pub enum FenceState {
    /// Signaled: a wait on it returns at once.
    Signaled,
    /// Reset and not yet handed to a submission: nothing will signal it.
    Reset,
    /// Handed to a submission: the GPU signals it when that work completes.
    InFlight,
}

/// One object the swapchain owns, named for its destruction.
#[derive(Clone, Copy, Debug, PartialEq, Eq, Structural)]
pub enum SwapchainObject {
    Fence(Handle),
    Semaphore(Handle),
    Framebuffer(Handle),
    ImageView(Handle),
    Swapchain(Handle),
}

/// The kinds of per-image objects a swapchain owns.
#[derive(Clone, Copy, Debug, PartialEq, Eq, Structural)]
pub enum PerImageKind {
    Fence,
    Semaphore,
    Framebuffer,
    ImageView,
}

pub open spec fn object_of(kind: PerImageKind, h: Handle) -> SwapchainObject {
    match kind {
        PerImageKind::Fence => SwapchainObject::Fence(h),
        PerImageKind::Semaphore => SwapchainObject::Semaphore(h),
        PerImageKind::Framebuffer => SwapchainObject::Framebuffer(h),
        PerImageKind::ImageView => SwapchainObject::ImageView(h),
    }
}

pub open spec fn objects_of(kind: PerImageKind, hs: Seq<Handle>) -> Seq<SwapchainObject> {
    hs.map_values(|h: Handle| object_of(kind, h))
}

/// Appends one object of `kind` for each handle of `hs`, in order.
fn push_objects(out: &mut Vec<SwapchainObject>, kind: PerImageKind, hs: &Vec<Handle>)
    ensures
        final(out)@ == old(out)@ + objects_of(kind, hs@),
{
    let ghost start = out@;
    let mut i: usize = 0;
    while i < hs.len()
        invariant
            i <= hs.len(),
            out@ == start + objects_of(kind, hs@.subrange(0, i as int)),
        decreases hs.len() - i,
    {
        let h = hs[i];
        let o = match kind {
            PerImageKind::Fence => SwapchainObject::Fence(h),
            PerImageKind::Semaphore => SwapchainObject::Semaphore(h),
            PerImageKind::Framebuffer => SwapchainObject::Framebuffer(h),
            PerImageKind::ImageView => SwapchainObject::ImageView(h),
        };
        out.push(o);
        assert(hs@.subrange(0, i + 1) =~= hs@.subrange(0, i as int).push(h));
        assert(objects_of(kind, hs@.subrange(0, i + 1)) =~= objects_of(
            kind,
            hs@.subrange(0, i as int),
        ).push(o));
        i = i + 1;
    }
    assert(hs@.subrange(0, hs.len() as int) =~= hs@);
}

/// The presentable images, their views and framebuffers, the per-slot synchronization
/// objects, and the state of the frame loop that rotates over those slots.
pub struct Swapchain {
    pub swapchain: Handle,
    pub images: Vec<Handle>,
    pub image_views: Vec<Handle>,
    pub framebuffers: Vec<Handle>,
    pub surface_format: SurfaceFormat,
    pub extent: Extent2D,
    pub image_available: Vec<Handle>,
    pub may_begin_drawing: Vec<Handle>,
    pub rendering_finished: Vec<Handle>,
    pub amount_of_images: u32,
    pub current_image: usize,
    pub fence_states: Vec<FenceState>,
    pub phase: FramePhase,
    pub acquired_image: u32,
    pub released: bool,
    pub frames_presented: Ghost<nat>,
}

/// The per-image objects handed to `Swapchain::init` are one per image, and there is
/// at least one image.
pub open spec fn per_image_counts_match(
    images: Seq<Handle>,
    image_views: Seq<Handle>,
    image_available: Seq<Handle>,
    rendering_finished: Seq<Handle>,
    may_begin_drawing: Seq<Handle>,
) -> bool {
    &&& 0 < images.len() <= u32::MAX
    &&& image_views.len() == images.len()
    &&& image_available.len() == images.len()
    &&& rendering_finished.len() == images.len()
    &&& may_begin_drawing.len() == images.len()
}

/// Once its framebuffers exist, a well-formed swapchain has exactly one image view,
/// one framebuffer, one "image available" semaphore, one "rendering finished"
/// semaphore and one "may begin drawing" fence per image.
pub proof fn lemma_per_image_arrays_agree(s: Swapchain)
    requires
        s.wf(),
        s.has_framebuffers(),
    ensures
        s.images.len() == s.amount_of_images,
        s.image_views.len() == s.amount_of_images,
        s.framebuffers.len() == s.amount_of_images,
        s.image_available.len() == s.amount_of_images,
        s.rendering_finished.len() == s.amount_of_images,
        s.may_begin_drawing.len() == s.amount_of_images,
{
}

impl Swapchain {
    /// Every per-image array has one entry per image, the cursor stands on a slot and
    /// has moved once per presented frame, and no fence is left reset where a wait
    /// could reach it.
    pub open spec fn wf(&self) -> bool {
        let n = self.amount_of_images as int;
        &&& !self.released
        &&& n > 0
        &&& self.images.len() == n
        &&& self.image_views.len() == n
        &&& (self.framebuffers.len() == 0 || self.framebuffers.len() == n)
        &&& self.image_available.len() == n
        &&& self.rendering_finished.len() == n
        &&& self.may_begin_drawing.len() == n
        &&& self.fence_states.len() == n
        &&& self.current_image < n
        &&& self.current_image == cursor_after(n as nat, self.frames_presented@)
        &&& self.acquired_image < n
        &&& forall|i: int|
            0 <= i < n && i != self.current_image ==> #[trigger] self.fence_states@[i]
                != FenceState::Reset
        &&& (self.fence_states@[self.current_image as int] == FenceState::Reset <==> self.phase
            == FramePhase::Submit)
        &&& self.phase == FramePhase::ResetFence ==> self.fence_states@[self.current_image as int]
            == FenceState::Signaled
    }

    /// The framebuffers exist: one per image.
    pub open spec fn has_framebuffers(&self) -> bool {
        self.framebuffers.len() == self.amount_of_images
    }

    /// A swapchain over `images` with their views and the synchronization objects of
    /// each slot; no framebuffers yet, every fence signaled, the cursor on slot 0.
    pub fn init(
        config: &SwapchainConfig,
        swapchain: Handle,
        images: Vec<Handle>,
        image_views: Vec<Handle>,
        image_available: Vec<Handle>,
        rendering_finished: Vec<Handle>,
        may_begin_drawing: Vec<Handle>,
    ) -> (r: Result<Swapchain, RendererError>)
        ensures
            !per_image_counts_match(
                images@,
                image_views@,
                image_available@,
                rendering_finished@,
                may_begin_drawing@,
            ) ==> r == Err::<Swapchain, RendererError>(RendererError::ImageCountMismatch),
            per_image_counts_match(
                images@,
                image_views@,
                image_available@,
                rendering_finished@,
                may_begin_drawing@,
            ) ==> r is Ok,
            r matches Ok(s) ==> {
                &&& s.wf()
                &&& s.swapchain == swapchain
                &&& s.amount_of_images == images.len()
                &&& s.images@ == images@
                &&& s.image_views@ == image_views@
                &&& s.framebuffers@.len() == 0
                &&& s.image_available@ == image_available@
                &&& s.rendering_finished@ == rendering_finished@
                &&& s.may_begin_drawing@ == may_begin_drawing@
                &&& s.surface_format == config.surface_format
                &&& s.extent == config.extent
                &&& s.current_image == 0
                &&& s.phase == FramePhase::Acquire
                &&& s.frames_presented@ == 0
                &&& forall|i: int|
                    0 <= i < s.fence_states.len() ==> #[trigger] s.fence_states@[i]
                        == FenceState::Signaled
            },
    {
        let n = images.len();
        if n == 0 || n > u32::MAX as usize || image_views.len() != n || image_available.len() != n
            || rendering_finished.len() != n || may_begin_drawing.len() != n {
            return Err(RendererError::ImageCountMismatch);
        }
        let mut fence_states: Vec<FenceState> = Vec::new();
        let mut i: usize = 0;
        while i < n
            invariant
                i <= n,
                fence_states.len() == i,
                forall|j: int| 0 <= j < i ==> #[trigger] fence_states@[j] == FenceState::Signaled,
            decreases n - i,
        {
            fence_states.push(FenceState::Signaled);
            i = i + 1;
        }
        Ok(
            Swapchain {
                swapchain,
                images,
                image_views,
                framebuffers: Vec::new(),
                surface_format: config.surface_format,
                extent: config.extent,
                image_available,
                may_begin_drawing,
                rendering_finished,
                amount_of_images: n as u32,
                current_image: 0,
                fence_states,
                phase: FramePhase::Acquire,
                acquired_image: 0,
                released: false,
                frames_presented: Ghost(0),
            },
        )
    }

    /// Everything the swapchain owns, in the order it has to be destroyed: the fences,
    /// the "image available" semaphores, the "rendering finished" semaphores, the
    /// framebuffers, the image views, and last the swapchain itself.
    pub open spec fn teardown_sequence(&self) -> Seq<SwapchainObject> {
        objects_of(PerImageKind::Fence, self.may_begin_drawing@) + objects_of(
            PerImageKind::Semaphore,
            self.image_available@,
        ) + objects_of(PerImageKind::Semaphore, self.rendering_finished@) + objects_of(
            PerImageKind::Framebuffer,
            self.framebuffers@,
        ) + objects_of(PerImageKind::ImageView, self.image_views@) + seq![
            SwapchainObject::Swapchain(self.swapchain),
        ]
    }

    /// Hands out every object of the swapchain for destruction, in dependency order,
    /// and forgets them: a second call hands out nothing.
    pub fn cleanup(&mut self) -> (r: Vec<SwapchainObject>)
        ensures
            !old(self).released ==> r@ == old(self).teardown_sequence(),
            old(self).released ==> r@.len() == 0,
            final(self).released,
            final(self).images@.len() == 0,
            final(self).image_views@.len() == 0,
            final(self).framebuffers@.len() == 0,
            final(self).image_available@.len() == 0,
            final(self).rendering_finished@.len() == 0,
            final(self).may_begin_drawing@.len() == 0,
    {
        let mut out: Vec<SwapchainObject> = Vec::new();
        if !self.released {
            push_objects(&mut out, PerImageKind::Fence, &self.may_begin_drawing);
            push_objects(&mut out, PerImageKind::Semaphore, &self.image_available);
            push_objects(&mut out, PerImageKind::Semaphore, &self.rendering_finished);
            push_objects(&mut out, PerImageKind::Framebuffer, &self.framebuffers);
            push_objects(&mut out, PerImageKind::ImageView, &self.image_views);
            out.push(SwapchainObject::Swapchain(self.swapchain));
        }
        self.released = true;
        self.images = Vec::new();
        self.image_views = Vec::new();
        self.framebuffers = Vec::new();
        self.image_available = Vec::new();
        self.rendering_finished = Vec::new();
        self.may_begin_drawing = Vec::new();
        self.fence_states = Vec::new();
        out
    }

    /// Takes the framebuffers made for the image views once the render pass exists:
    /// one per image view, in the same order.
    pub fn create_framebuffer(&mut self, framebuffers: Vec<Handle>) -> (r: Result<(), RendererError>)
        requires
            old(self).wf(),
            old(self).framebuffers.len() == 0,
        ensures
            final(self).wf(),
            framebuffers.len() == old(self).amount_of_images ==> r is Ok && final(self).framebuffers@
                == framebuffers@ && *final(self) == (Swapchain {
                framebuffers: final(self).framebuffers,
                ..*old(self)
            }),
            framebuffers.len() != old(self).amount_of_images ==> r == Err::<(), RendererError>(
                RendererError::ImageCountMismatch,
            ) && *final(self) == *old(self),
    {
        if framebuffers.len() != self.amount_of_images as usize {
            return Err(RendererError::ImageCountMismatch);
        }
        self.framebuffers = framebuffers;
        Ok(())
    }
}

} // verus!
