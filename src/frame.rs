use vstd::prelude::*;

use crate::swapchain::{FenceState, FramePhase, Swapchain};
use crate::Handle;

verus! {

/// The next operation the frame loop asks of the GPU.
#[derive(Clone, Copy, Debug, PartialEq, Eq, Structural)]
pub enum FrameAction {
    /// Acquire the next presentable image, waiting without timeout, and signal
    /// `signal_semaphore` when it is available.
    AcquireImage { swapchain: Handle, signal_semaphore: Handle },
    /// Wait without timeout until `fence` is signaled.
    WaitForFence { fence: Handle },
    /// Reset `fence` to unsignaled.
    ResetFence { fence: Handle },
    /// Submit `command_buffer` to the graphics queue, waiting on `wait_semaphore` at the
    /// color-attachment-output stage, signaling `signal_semaphore` and then `fence`.
    Submit { command_buffer: Handle, wait_semaphore: Handle, signal_semaphore: Handle, fence: Handle },
    /// Present image `image_index` once `wait_semaphore` is signaled.
    Present { swapchain: Handle, image_index: u32, wait_semaphore: Handle },
}

/// How the GPU answered the last action.
#[derive(Clone, Copy, Debug, PartialEq, Eq, Structural)]
pub enum FrameEvent {
    /// The acquire returned this image index.
    ImageAcquired(u32),
    /// The wait, reset, submission or presentation succeeded.
    Completed,
    /// The surface changed and the swapchain no longer matches it.
    OutOfDate,
    /// The operation failed with this raw result code.
    Failed(i32),
}

/// Why a frame could not go on.
#[derive(Clone, Copy, Debug, PartialEq, Eq, Structural)]
pub enum FrameError {
    /// The swapchain is out of date: it has to be made anew.
    OutOfDate(FramePhase),
    /// The operation of this phase failed with this result code.
    Failed(FramePhase, i32),
    /// The event does not answer the action of this phase.
    UnexpectedEvent(FramePhase),
    /// The acquired image index names no image of the swapchain.
    ImageIndexOutOfRange(u32),
}

impl FrameError {
    /// Only an out-of-date swapchain can be recovered from, by making it anew.
    pub fn is_recoverable(&self) -> (r: bool)
        ensures
            r == (*self is OutOfDate),
    {
        match self {
            FrameError::OutOfDate(_) => true,
            _ => false,
        }
    }

    /// The phase in which the frame stopped.
    pub fn phase(&self) -> (r: FramePhase)
        ensures
            r == match *self {
                FrameError::OutOfDate(p) => p,
                FrameError::Failed(p, _) => p,
                FrameError::UnexpectedEvent(p) => p,
                FrameError::ImageIndexOutOfRange(_) => FramePhase::Acquire,
            },
    {
        match self {
            FrameError::OutOfDate(p) => *p,
            FrameError::Failed(p, _) => *p,
            FrameError::UnexpectedEvent(p) => *p,
            FrameError::ImageIndexOutOfRange(_) => FramePhase::Acquire,
        }
    }
}

/// The slot the cursor stands on after `frames` presented frames, starting on slot 0
/// and moving one slot on, modulo `amount`, per presented frame.
pub open spec fn cursor_after(amount: nat, frames: nat) -> nat
    decreases frames,
{
    if frames == 0 {
        0
    } else {
        (cursor_after(amount, (frames - 1) as nat) + 1) % amount
    }
}

/// After `frames` presented frames the cursor stands on slot `frames mod amount`.
pub proof fn lemma_cursor_after_frames(amount: nat, frames: nat)
    requires
        amount > 0,
    ensures
        cursor_after(amount, frames) == frames % amount,
    decreases frames,
{
    if frames == 0 {
        vstd::arithmetic::div_mod::lemma_small_mod(0, amount);
    } else {
        let prev = (frames - 1) as nat;
        lemma_cursor_after_frames(amount, prev);
        vstd::arithmetic::div_mod::lemma_add_mod_noop(prev as int, 1, amount as int);
        vstd::arithmetic::div_mod::lemma_mod_twice(prev as int + 1, amount as int);
        if amount == 1 {
            vstd::arithmetic::div_mod::lemma_mod_self_0(1);
        } else {
            vstd::arithmetic::div_mod::lemma_small_mod(1, amount);
        }
    }
}

/// The cursor of a well-formed swapchain stands on slot `N mod amount_of_images`,
/// where `N` is the number of frames presented so far.
pub proof fn lemma_cursor_is_frames_mod_count(s: Swapchain)
    requires
        s.wf(),
    ensures
        s.current_image == s.frames_presented@ % (s.amount_of_images as nat),
{
    lemma_cursor_after_frames(s.amount_of_images as nat, s.frames_presented@);
}

/// The fence the frame loop waits on is never one that was reset and not handed to a
/// submission since: every such wait ends.
pub proof fn lemma_waited_fence_will_signal(s: Swapchain)
    requires
        s.wf(),
        s.phase == FramePhase::WaitFence,
    ensures
        s.fence_states@[s.current_image as int] != FenceState::Reset,
{
}

impl Swapchain {
    /// The action of the current phase. Synchronization objects are those of the
    /// cursor's slot; the command buffer and the presented image are those of the
    /// acquired image index.
    pub open spec fn action_spec(&self, command_buffers: Seq<Handle>) -> FrameAction {
        let c = self.current_image as int;
        match self.phase {
            FramePhase::Acquire => FrameAction::AcquireImage {
                swapchain: self.swapchain,
                signal_semaphore: self.image_available@[c],
            },
            FramePhase::WaitFence => FrameAction::WaitForFence { fence: self.may_begin_drawing@[c] },
            FramePhase::ResetFence => FrameAction::ResetFence { fence: self.may_begin_drawing@[c] },
            FramePhase::Submit => FrameAction::Submit {
                command_buffer: command_buffers[self.acquired_image as int],
                wait_semaphore: self.image_available@[c],
                signal_semaphore: self.rendering_finished@[c],
                fence: self.may_begin_drawing@[c],
            },
            FramePhase::Present => FrameAction::Present {
                swapchain: self.swapchain,
                image_index: self.acquired_image,
                wait_semaphore: self.rendering_finished@[c],
            },
        }
    }

    /// The error that `event` brings in the current phase, if any.
    pub open spec fn event_error(&self, event: FrameEvent) -> Option<FrameError> {
        match event {
            FrameEvent::OutOfDate => Some(FrameError::OutOfDate(self.phase)),
            FrameEvent::Failed(code) => Some(FrameError::Failed(self.phase, code)),
            FrameEvent::ImageAcquired(i) => if self.phase != FramePhase::Acquire {
                Some(FrameError::UnexpectedEvent(self.phase))
            } else if i >= self.amount_of_images {
                Some(FrameError::ImageIndexOutOfRange(i))
            } else {
                None
            },
            FrameEvent::Completed => if self.phase == FramePhase::Acquire {
                Some(FrameError::UnexpectedEvent(self.phase))
            } else {
                None
            },
        }
    }

    /// The objects of the swapchain are those of `other`; only the frame state may differ.
    pub open spec fn same_objects(&self, other: Swapchain) -> bool {
        &&& self.swapchain == other.swapchain
        &&& self.images == other.images
        &&& self.image_views == other.image_views
        &&& self.framebuffers == other.framebuffers
        &&& self.surface_format == other.surface_format
        &&& self.extent == other.extent
        &&& self.image_available == other.image_available
        &&& self.may_begin_drawing == other.may_begin_drawing
        &&& self.rendering_finished == other.rendering_finished
        &&& self.amount_of_images == other.amount_of_images
        &&& self.released == other.released
    }

    /// The frame state after `old` took `event` without error.
    pub open spec fn frame_state_after(&self, old: Swapchain, event: FrameEvent) -> bool {
        let c = old.current_image as int;
        match event {
            FrameEvent::ImageAcquired(i) => {
                &&& self.phase == FramePhase::WaitFence
                &&& self.acquired_image == i
                &&& self.current_image == old.current_image
                &&& self.fence_states@ == old.fence_states@
                &&& self.frames_presented@ == old.frames_presented@
            },
            FrameEvent::Completed => {
                &&& self.acquired_image == old.acquired_image
                &&& match old.phase {
                    FramePhase::WaitFence => {
                        &&& self.phase == FramePhase::ResetFence
                        &&& self.fence_states@ == old.fence_states@.update(c, FenceState::Signaled)
                        &&& self.current_image == old.current_image
                        &&& self.frames_presented@ == old.frames_presented@
                    },
                    FramePhase::ResetFence => {
                        &&& self.phase == FramePhase::Submit
                        &&& self.fence_states@ == old.fence_states@.update(c, FenceState::Reset)
                        &&& self.current_image == old.current_image
                        &&& self.frames_presented@ == old.frames_presented@
                    },
                    FramePhase::Submit => {
                        &&& self.phase == FramePhase::Present
                        &&& self.fence_states@ == old.fence_states@.update(c, FenceState::InFlight)
                        &&& self.current_image == old.current_image
                        &&& self.frames_presented@ == old.frames_presented@
                    },
                    FramePhase::Present => {
                        &&& self.phase == FramePhase::Acquire
                        &&& self.fence_states@ == old.fence_states@
                        &&& self.current_image == (old.current_image + 1) % (
                        old.amount_of_images as int)
                        &&& self.frames_presented@ == old.frames_presented@ + 1
                    },
                    FramePhase::Acquire => false,
                }
            },
            _ => false,
        }
    }

    /// The action the frame loop asks for now.
    pub fn next_action(&self, command_buffers: &Vec<Handle>) -> (r: FrameAction)
        requires
            self.wf(),
            command_buffers.len() == self.amount_of_images,
        ensures
            r == self.action_spec(command_buffers@),
    {
        let c = self.current_image;
        match self.phase {
            FramePhase::Acquire => FrameAction::AcquireImage {
                swapchain: self.swapchain,
                signal_semaphore: self.image_available[c],
            },
            FramePhase::WaitFence => FrameAction::WaitForFence { fence: self.may_begin_drawing[c] },
            FramePhase::ResetFence => FrameAction::ResetFence { fence: self.may_begin_drawing[c] },
            FramePhase::Submit => FrameAction::Submit {
                command_buffer: command_buffers[self.acquired_image as usize],
                wait_semaphore: self.image_available[c],
                signal_semaphore: self.rendering_finished[c],
                fence: self.may_begin_drawing[c],
            },
            FramePhase::Present => FrameAction::Present {
                swapchain: self.swapchain,
                image_index: self.acquired_image,
                wait_semaphore: self.rendering_finished[c],
            },
        }
    }

    /// Takes the GPU's answer to the last action and moves the frame on. On an error
    /// nothing changes; after a presentation the cursor moves one slot on.
    pub fn handle_event(&mut self, event: FrameEvent) -> (r: Result<(), FrameError>)
        requires
            old(self).wf(),
        ensures
            final(self).wf(),
            old(self).event_error(event) matches Some(e) ==> r == Err::<(), FrameError>(e)
                && *final(self) == *old(self),
            old(self).event_error(event) is None ==> r is Ok && final(self).same_objects(
                *old(self),
            ) && final(self).frame_state_after(*old(self), event),
    {
        let c = self.current_image;
        match event {
            FrameEvent::OutOfDate => Err(FrameError::OutOfDate(self.phase)),
            FrameEvent::Failed(code) => Err(FrameError::Failed(self.phase, code)),
            FrameEvent::ImageAcquired(i) => {
                if self.phase != FramePhase::Acquire {
                    return Err(FrameError::UnexpectedEvent(self.phase));
                }
                if i >= self.amount_of_images {
                    return Err(FrameError::ImageIndexOutOfRange(i));
                }
                self.acquired_image = i;
                self.phase = FramePhase::WaitFence;
                Ok(())
            },
            FrameEvent::Completed => {
                match self.phase {
                    FramePhase::Acquire => Err(FrameError::UnexpectedEvent(FramePhase::Acquire)),
                    FramePhase::WaitFence => {
                        self.fence_states.set(c, FenceState::Signaled);
                        self.phase = FramePhase::ResetFence;
                        Ok(())
                    },
                    FramePhase::ResetFence => {
                        self.fence_states.set(c, FenceState::Reset);
                        self.phase = FramePhase::Submit;
                        Ok(())
                    },
                    FramePhase::Submit => {
                        self.fence_states.set(c, FenceState::InFlight);
                        self.phase = FramePhase::Present;
                        Ok(())
                    },
                    FramePhase::Present => {
                        let next = (c + 1) % (self.amount_of_images as usize);
                        self.current_image = next;
                        self.frames_presented = Ghost((self.frames_presented@ + 1) as nat);
                        self.phase = FramePhase::Acquire;
                        Ok(())
                    },
                }
            },
        }
    }
}

} // verus!
