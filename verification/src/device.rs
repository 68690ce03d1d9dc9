//! What the protocol has to know of the device it talks to.

use vstd::prelude::*;

verus! {

/// The part of a device's DFU functional descriptor that the protocol reads.
#[derive(Debug, Clone, Copy, PartialEq, Eq, Structural)]
pub struct FunctionalDescriptor {
    /// Greatest number of bytes that the device accepts in one transfer.
    pub transfer_size: u16,
    /// Whether the device still answers requests after the manifestation phase.
    pub manifestation_tolerant: bool,
    /// Whether the device detaches by itself once it has to be reset.
    pub will_detach: bool,
}

/// Handle on a DFU session. Every step borrows it and none changes it: the
/// state of the protocol lives in the values that the steps return.
#[derive(Debug, Clone, Copy, PartialEq, Eq, Structural)]
pub struct DfuSansIo {
    descriptor: FunctionalDescriptor,
}

impl DfuSansIo {
    /// The functional descriptor of the device behind a handle.
    pub closed spec fn descriptor(&self) -> FunctionalDescriptor {
        self.descriptor
    }

    /// Makes the handle of a session with a device of the given descriptor.
    pub fn new(descriptor: FunctionalDescriptor) -> (dfu: DfuSansIo)
        ensures
            dfu.descriptor() == descriptor,
    {
        DfuSansIo { descriptor }
    }

    /// The functional descriptor of the device.
    pub fn functional_descriptor(&self) -> (descriptor: &FunctionalDescriptor)
        ensures
            *descriptor == self.descriptor(),
    {
        &self.descriptor
    }
}

} // verus!
