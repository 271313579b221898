//! The memory an xHCI controller hands out to devices: device contexts,
//! three to a page, and input contexts, two to a page, each taken in order
//! from the current page and a new page taken when it is full; and slots
//! for devices and endpoints.
use vstd::prelude::*;
use crate::allocator::{alloc_outcome, Allocator, MemoryBlock};
use crate::memory::{alloc_succeeds, alloc_zero_or_crash};

verus! {

/// Bytes of a device context.
pub const DEVICE_CONTEXT_SIZE: u64 = 0x400;

/// Bytes of an input context.
pub const INPUT_CONTEXT_SIZE: u64 = 0x420;

/// Where the controller's device and input contexts come from, and how
/// many devices and endpoints it has handed out.
pub struct XhciControllerInterfaceData {
    pub active_devices: u32,
    pub current_device_context: u64,
    pub current_device_context_index: u8,
    pub current_input_context: u64,
    pub current_input_context_index: u8,
    pub current_endpoint_index: u8,
    pub current_hid_index: u8,
}

impl XhciControllerInterfaceData {
    /// Contexts from the pages at `device_contexts` and `input_contexts`,
    /// nothing handed out.
    pub fn new(device_contexts: u64, input_contexts: u64) -> (r: Self)
        ensures
            r == (XhciControllerInterfaceData {
                active_devices: 0,
                current_device_context: device_contexts,
                current_device_context_index: 0,
                current_input_context: input_contexts,
                current_input_context_index: 0,
                current_endpoint_index: 0,
                current_hid_index: 0,
            }),
    {
        XhciControllerInterfaceData {
            active_devices: 0,
            current_device_context: device_contexts,
            current_device_context_index: 0,
            current_input_context: input_contexts,
            current_input_context_index: 0,
            current_endpoint_index: 0,
            current_hid_index: 0,
        }
    }

    /// The address of the next device context: the next of the three on
    /// the current page, or the first on a page taken from `allocator`
    /// when those three are used.
    pub fn request_device_context(&mut self, allocator: &mut Allocator) -> (r: u64)
        requires
            old(self).current_device_context_index <= 3,
            old(self).current_device_context + 0x800 <= u64::MAX,
            old(allocator).wf(),
            old(self).current_device_context_index == 3 ==> alloc_succeeds(*old(allocator), 1),
        ensures
            final(allocator).wf(),
            final(self).active_devices == old(self).active_devices,
            final(self).current_input_context == old(self).current_input_context,
            final(self).current_input_context_index == old(self).current_input_context_index,
            final(self).current_endpoint_index == old(self).current_endpoint_index,
            old(self).current_device_context_index < 3 ==> {
                &&& r == old(self).current_device_context + DEVICE_CONTEXT_SIZE * old(self).current_device_context_index
                &&& final(self).current_device_context == old(self).current_device_context
                &&& final(self).current_device_context_index == old(self).current_device_context_index + 1
                &&& *final(allocator) == *old(allocator)
            },
            old(self).current_device_context_index == 3 ==> {
                &&& exists|mb: MemoryBlock| alloc_outcome(*old(allocator), *final(allocator), 1, Ok(mb)) && mb.base == r
                &&& final(self).current_device_context == r
                &&& final(self).current_device_context_index == 1
            },
    {
        if self.current_device_context_index == 3 {
            let mb = alloc_zero_or_crash(allocator, 1);
            self.current_device_context = mb.as_mut_ptr();
            self.current_device_context_index = 0;
        }
        let r = self.current_device_context + DEVICE_CONTEXT_SIZE * self.current_device_context_index as u64;
        self.current_device_context_index = self.current_device_context_index + 1;
        r
    }
    /// The address of the next input context: the next of the two on the
    /// current page, or the first on a page taken from `allocator` when
    /// those two are used.
    pub fn request_input_context(&mut self, allocator: &mut Allocator) -> (r: u64)
        requires
            old(self).current_input_context_index <= 2,
            old(self).current_input_context + 0x420 <= u64::MAX,
            old(allocator).wf(),
            old(self).current_input_context_index == 2 ==> alloc_succeeds(*old(allocator), 1),
        ensures
            final(allocator).wf(),
            final(self).active_devices == old(self).active_devices,
            final(self).current_device_context == old(self).current_device_context,
            final(self).current_device_context_index == old(self).current_device_context_index,
            final(self).current_endpoint_index == old(self).current_endpoint_index,
            old(self).current_input_context_index < 2 ==> {
                &&& r == old(self).current_input_context + INPUT_CONTEXT_SIZE * old(self).current_input_context_index
                &&& final(self).current_input_context == old(self).current_input_context
                &&& final(self).current_input_context_index == old(self).current_input_context_index + 1
                &&& *final(allocator) == *old(allocator)
            },
            old(self).current_input_context_index == 2 ==> {
                &&& exists|mb: MemoryBlock| alloc_outcome(*old(allocator), *final(allocator), 1, Ok(mb)) && mb.base == r
                &&& final(self).current_input_context == r
                &&& final(self).current_input_context_index == 1
            },
    {
        if self.current_input_context_index == 2 {
            let mb = alloc_zero_or_crash(allocator, 1);
            self.current_input_context = mb.as_mut_ptr();
            self.current_input_context_index = 0;
        }
        let r = self.current_input_context + INPUT_CONTEXT_SIZE * self.current_input_context_index as u64;
        self.current_input_context_index = self.current_input_context_index + 1;
        r
    }

    /// The slot of the next device.
    pub fn request_device(&mut self) -> (r: u32)
        requires
            old(self).active_devices < u32::MAX,
        ensures
            r == old(self).active_devices,
            *final(self) == (XhciControllerInterfaceData { active_devices: (old(self).active_devices + 1) as u32, ..*old(self) }),
    {
        let r = self.active_devices;
        self.active_devices = self.active_devices + 1;
        r
    }

    /// The slot of the next endpoint.
    pub fn request_endpoint(&mut self) -> (r: u8)
        requires
            old(self).current_endpoint_index < u8::MAX,
        ensures
            r == old(self).current_endpoint_index,
            *final(self) == (XhciControllerInterfaceData {
                current_endpoint_index: (old(self).current_endpoint_index + 1) as u8,
                ..*old(self)
            }),
    {
        let r = self.current_endpoint_index;
        self.current_endpoint_index = self.current_endpoint_index + 1;
        r
    }
}

} // verus!
