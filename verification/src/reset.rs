//! The command that asks for a USB reset of the device.

use crate::device::DfuSansIo;
use vstd::prelude::*;

verus! {

/// Command that resets the device over USB. How the reset is done is up to
/// the caller: the protocol only says when one is due.
#[must_use]
pub struct UsbReset<'dfu, T> {
    dfu: &'dfu DfuSansIo,
    chained_command: T,
}

impl<'dfu, T> UsbReset<'dfu, T> {
    /// The session that the command belongs to.
    pub closed spec fn dfu(self) -> DfuSansIo {
        *self.dfu
    }

    /// The command that follows the reset.
    pub closed spec fn chained_command(self) -> T {
        self.chained_command
    }

    /// Makes the command that resets the device and goes on with `chained_command`.
    pub fn new(dfu: &'dfu DfuSansIo, chained_command: T) -> (command: Self)
        ensures
            command.dfu() == *dfu,
            command.chained_command() == chained_command,
    {
        UsbReset { dfu, chained_command }
    }

    /// Gives the command that follows, once the caller has reset the device.
    pub fn reset(self) -> (next: T)
        ensures
            next == self.chained_command(),
    {
        self.chained_command
    }
}

} // verus!
