use vstd::prelude::*;

use crate::error::RendererError;

verus! {

/// The queue flag bit of families that run graphics work.
pub const QUEUE_GRAPHICS_BIT: u32 = 0x1;

/// The queue flag bit of families that run transfer work.
pub const QUEUE_TRANSFER_BIT: u32 = 0x4;

/// What the library reads of one queue family reported by a physical device: its
/// number of queues and its raw queue flags.
#[derive(Clone, Copy, Debug, PartialEq, Eq, Structural)]
pub struct QueueFamilyInfo {
    pub queue_count: u32,
    pub queue_flags: u32,
}

pub open spec fn has_flag(flags: u32, bit: u32) -> bool {
    flags & bit == bit
}

impl QueueFamilyInfo {
    pub open spec fn graphics(self) -> bool {
        has_flag(self.queue_flags, QUEUE_GRAPHICS_BIT)
    }

    pub open spec fn transfer(self) -> bool {
        has_flag(self.queue_flags, QUEUE_TRANSFER_BIT)
    }

    pub open spec fn usable_for_graphics(self) -> bool {
        self.queue_count > 0 && self.graphics()
    }

    pub open spec fn usable_for_transfer(self) -> bool {
        self.queue_count > 0 && self.transfer()
    }

    /// A transfer family that does not also do graphics.
    pub open spec fn dedicated_transfer(self) -> bool {
        self.usable_for_transfer() && !self.graphics()
    }
}

/// `g` is the first family of `s` usable for graphics, or `None` when there is none.
pub open spec fn is_graphics_choice(s: Seq<QueueFamilyInfo>, g: Option<u32>) -> bool {
    match g {
        Some(i) => i < s.len() && s[i as int].usable_for_graphics()
            && forall|j: int| 0 <= j < i ==> !(#[trigger] s[j]).usable_for_graphics(),
        None => forall|j: int| 0 <= j < s.len() ==> !(#[trigger] s[j]).usable_for_graphics(),
    }
}

pub open spec fn has_dedicated_transfer(s: Seq<QueueFamilyInfo>) -> bool {
    exists|j: int| 0 <= j < s.len() && (#[trigger] s[j]).dedicated_transfer()
}

/// `t` is the transfer family: the last dedicated transfer family where one exists,
/// else the first family usable for transfer, else `None`.
pub open spec fn is_transfer_choice(s: Seq<QueueFamilyInfo>, t: Option<u32>) -> bool {
    match t {
        Some(i) => i < s.len() && if has_dedicated_transfer(s) {
            s[i as int].dedicated_transfer()
                && forall|j: int| i < j < s.len() ==> !(#[trigger] s[j]).dedicated_transfer()
        } else {
            s[i as int].usable_for_transfer()
                && forall|j: int| 0 <= j < i ==> !(#[trigger] s[j]).usable_for_transfer()
        },
        None => forall|j: int| 0 <= j < s.len() ==> !(#[trigger] s[j]).usable_for_transfer(),
    }
}

/// The queue families a device was set up with.
#[derive(Clone, Copy, Debug, PartialEq, Eq, Structural)]
pub struct QueueFamilies {
    pub graphics_q_index: Option<u32>,
    pub transfer_q_index: Option<u32>,
}

impl QueueFamilies {
    /// Picks the graphics and the transfer family out of a device's queue families,
    /// in one pass over them.
    pub fn init(families: &Vec<QueueFamilyInfo>) -> (r: QueueFamilies)
        requires
            families.len() <= u32::MAX,
        ensures
            is_graphics_choice(families@, r.graphics_q_index),
            is_transfer_choice(families@, r.transfer_q_index),
    {
        let mut found_graphics: Option<u32> = None;
        let mut found_transfer: Option<u32> = None;
        let mut index: usize = 0;
        while index < families.len()
            invariant
                index <= families.len() <= u32::MAX,
                is_graphics_choice(families@.subrange(0, index as int), found_graphics),
                is_transfer_choice(families@.subrange(0, index as int), found_transfer),
            decreases families.len() - index,
        {
            let qfam = families[index];
            let ghost before = families@.subrange(0, index as int);
            let ghost after = families@.subrange(0, index + 1);
            assert(after =~= before.push(qfam));
            let graphics = qfam.queue_flags & QUEUE_GRAPHICS_BIT == QUEUE_GRAPHICS_BIT;
            let transfer = qfam.queue_flags & QUEUE_TRANSFER_BIT == QUEUE_TRANSFER_BIT;
            if qfam.queue_count > 0 && graphics && found_graphics.is_none() {
                found_graphics = Some(index as u32);
            }
            if qfam.queue_count > 0 && transfer {
                if found_transfer.is_none() || !graphics {
                    found_transfer = Some(index as u32);
                }
            }
            proof {
                assert(after[index as int] == qfam);
                assert forall|j: int| 0 <= j < index implies after[j] == before[j] by {}
                if qfam.dedicated_transfer() {
                    assert(has_dedicated_transfer(after));
                } else if has_dedicated_transfer(before) {
                    let w = choose|j: int| 0 <= j < before.len() && (#[trigger] before[j]).dedicated_transfer();
                    assert(after[w].dedicated_transfer());
                } else {
                    assert forall|j: int| 0 <= j < after.len() implies !(#[trigger] after[j]).dedicated_transfer() by {
                        if j < index {
                            assert(before[j] == after[j]);
                        }
                    }
                }
            }
            index = index + 1;
        }
        assert(families@.subrange(0, families.len() as int) =~= families@);
        QueueFamilies { graphics_q_index: found_graphics, transfer_q_index: found_transfer }
    }

    /// The graphics and the transfer family, which a device cannot be set up without.
    pub fn required_indices(&self) -> (r: Result<(u32, u32), RendererError>)
        ensures
            match (self.graphics_q_index, self.transfer_q_index) {
                (Some(g), Some(t)) => r == Ok::<(u32, u32), RendererError>((g, t)),
                _ => r == Err::<(u32, u32), RendererError>(RendererError::NoSuitableQueueFamily),
            },
    {
        match (self.graphics_q_index, self.transfer_q_index) {
            (Some(g), Some(t)) => Ok((g, t)),
            _ => Err(RendererError::NoSuitableQueueFamily),
        }
    }
}

} // verus!
