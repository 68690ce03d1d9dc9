//! Control transfers that the caller performs on behalf of the protocol.

use vstd::prelude::*;

verus! {

/// Request type of every DFU request: class request, addressed to an interface.
pub const REQUEST_TYPE: u8 = 0b00100001;

/// Request code of DFU_DNLOAD.
pub const DFU_DNLOAD: u8 = 1;

/// Request code of DFU_GETSTATUS.
pub const DFU_GETSTATUS: u8 = 3;

/// Request code of DFU_CLRSTATUS.
pub const DFU_CLRSTATUS: u8 = 4;

/// A control transfer from the host to the device, still to be performed.
#[derive(Debug, PartialEq, Eq)]
pub struct ControlWrite {
    /// Value of bmRequestType.
    pub request_type: u8,
    /// Value of bRequest.
    pub request: u8,
    /// Value of wValue.
    pub value: u16,
    /// Bytes to send in the data stage.
    pub payload: Vec<u8>,
}

/// A control transfer from the device to the host, still to be performed.
#[derive(Debug, Clone, Copy, PartialEq, Eq, Structural)]
pub struct ControlRead {
    /// Value of bmRequestType.
    pub request_type: u8,
    /// Value of bRequest.
    pub request: u8,
    /// Value of wValue.
    pub value: u16,
    /// Number of bytes that the caller's buffer can take.
    pub length: usize,
}

impl ControlWrite {
    /// Whether this is the DFU request with the given code, value and payload.
    pub open spec fn is_request(&self, request: u8, value: u16, payload: Seq<u8>) -> bool {
        &&& self.request_type == REQUEST_TYPE
        &&& self.request == request
        &&& self.value == value
        &&& self.payload@ == payload
    }
}

impl ControlRead {
    /// Whether this is the DFU request with the given code, value and room.
    pub open spec fn is_request(&self, request: u8, value: u16, length: usize) -> bool {
        &&& self.request_type == REQUEST_TYPE
        &&& self.request == request
        &&& self.value == value
        &&& self.length == length
    }
}

} // verus!
