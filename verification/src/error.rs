//! Errors that a step of the protocol can end in.

use crate::status::{State, Status};
use vstd::prelude::*;

verus! {

/// Reason for which a step of the protocol gave up.
#[derive(Debug, Clone, Copy, PartialEq, Eq, Structural)]
#[allow(inconsistent_fields)]
pub enum Error {
    /// The device is in another state than the one that the step needs.
    InvalidState {
        /// State that the device reported.
        got: State,
        /// State that the step needs.
        expected: State,
    },
    /// The chunk is longer than a transfer can ever be.
    BufferTooBig {
        /// Length of the chunk.
        got: usize,
        /// Greatest length that can be represented.
        expected: usize,
    },
    /// Behind the bytes to send, the position in the firmware would lie
    /// above the greatest address.
    MaximumTransferSizeExceeded {
        /// Address of the next byte to write.
        copied_pos: u32,
        /// Number of bytes to send.
        len: u32,
        /// Greatest address.
        limit: u32,
    },
    /// Behind the page to erase, the erased position would lie above the
    /// greatest address.
    EraseLimitReached {
        /// Address of the page to erase.
        erased_pos: u32,
        /// Size of the page to erase.
        page_size: u32,
        /// Greatest address.
        limit: u32,
    },
    /// No block number follows the one of the block to send.
    MaximumChunksExceeded {
        /// Number of the block to send.
        block_num: u16,
        /// Greatest block number.
        limit: u16,
    },
    /// The memory layout has no page left although more has to be erased.
    NoSpaceLeft,
    /// The device answered with fewer bytes than a status report has.
    ResponseTooShort {
        /// Number of bytes received.
        got: usize,
        /// Number of bytes of a status report.
        expected: usize,
    },
    /// The device reported that its last operation failed.
    StatusError(Status),
    /// The device reported that it is in its error state.
    StateError(State),
}

} // verus!
