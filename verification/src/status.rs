//! Status and state codes reported by a device in a GETSTATUS response.

use crate::error::Error;
use vstd::prelude::*;

verus! {

/// Outcome of the last operation, as reported by the device.
#[derive(Debug, Clone, Copy, PartialEq, Eq, Structural)]
pub enum Status {
    /// No error condition is present.
    OK,
    /// File is not targeted for use by this device.
    ErrTarget,
    /// File is for this device but fails some vendor-specific verification test.
    ErrFile,
    /// Device is unable to write memory.
    ErrWrite,
    /// Memory erase function failed.
    ErrErase,
    /// Memory erase check failed.
    ErrCheckErased,
    /// Program memory function failed.
    ErrProg,
    /// Programmed memory failed verification.
    ErrVerify,
    /// Cannot program memory due to received address that is out of range.
    ErrAddress,
    /// Received a zero-length download, but the device does not think it has all of the data yet.
    ErrNotdone,
    /// Device's firmware is corrupt.
    ErrFirmware,
    /// Vendor-specific error.
    ErrVendor,
    /// Device detected unexpected USB reset signaling.
    ErrUsbr,
    /// Device detected unexpected power on reset.
    ErrPor,
    /// Something went wrong, but the device does not know what it was.
    ErrUnknown,
    /// Device stalled an unexpected request.
    ErrStalledpkt,
    /// A code that the protocol does not define.
    Other(u8),
}

/// Position of the device in its DFU life cycle.
#[derive(Debug, Clone, Copy, PartialEq, Eq, Structural)]
pub enum State {
    /// Device is running its normal application.
    AppIdle,
    /// Device has received a detach request and waits for a USB reset.
    AppDetach,
    /// Device is in DFU mode and waits for requests.
    DfuIdle,
    /// Device has received a block and waits for the host to ask for the status.
    DfuDnloadSync,
    /// Device is programming a block into its memory.
    DfuDnbusy,
    /// Device is processing a download and expects more blocks.
    DfuDnloadIdle,
    /// Device has received the last block and waits for the host to ask for the status.
    DfuManifestSync,
    /// Device is in the manifestation phase.
    DfuManifest,
    /// Device has programmed its memory and waits for a USB reset.
    DfuManifestWaitReset,
    /// Device is processing an upload and expects more requests.
    DfuUploadIdle,
    /// An error has occurred.
    DfuError,
    /// A code that the protocol does not define.
    Other(u8),
}

impl Status {
    /// The status that a code stands for.
    pub open spec fn spec_from_code(code: u8) -> Status {
        match code {
            0x00 => Status::OK,
            0x01 => Status::ErrTarget,
            0x02 => Status::ErrFile,
            0x03 => Status::ErrWrite,
            0x04 => Status::ErrErase,
            0x05 => Status::ErrCheckErased,
            0x06 => Status::ErrProg,
            0x07 => Status::ErrVerify,
            0x08 => Status::ErrAddress,
            0x09 => Status::ErrNotdone,
            0x0a => Status::ErrFirmware,
            0x0b => Status::ErrVendor,
            0x0c => Status::ErrUsbr,
            0x0d => Status::ErrPor,
            0x0e => Status::ErrUnknown,
            0x0f => Status::ErrStalledpkt,
            other => Status::Other(other),
        }
    }

    /// The code that stands for a status on the wire.
    pub open spec fn spec_code(self) -> u8 {
        match self {
            Status::OK => 0x00,
            Status::ErrTarget => 0x01,
            Status::ErrFile => 0x02,
            Status::ErrWrite => 0x03,
            Status::ErrErase => 0x04,
            Status::ErrCheckErased => 0x05,
            Status::ErrProg => 0x06,
            Status::ErrVerify => 0x07,
            Status::ErrAddress => 0x08,
            Status::ErrNotdone => 0x09,
            Status::ErrFirmware => 0x0a,
            Status::ErrVendor => 0x0b,
            Status::ErrUsbr => 0x0c,
            Status::ErrPor => 0x0d,
            Status::ErrUnknown => 0x0e,
            Status::ErrStalledpkt => 0x0f,
            Status::Other(other) => other,
        }
    }

    /// Whether a status is the form in which decoding yields it: the
    /// catch-all variant never carries a code that has a name.
    pub open spec fn canonical(self) -> bool {
        self matches Status::Other(code) ==> code > 0x0f
    }

    /// Decodes a status code.
    #[verifier::when_used_as_spec(spec_from_code)]
    pub fn from_code(code: u8) -> (status: Status)
        ensures
            status == Status::spec_from_code(code),
            status.canonical(),
            status.spec_code() == code,
    {
        match code {
            0x00 => Status::OK,
            0x01 => Status::ErrTarget,
            0x02 => Status::ErrFile,
            0x03 => Status::ErrWrite,
            0x04 => Status::ErrErase,
            0x05 => Status::ErrCheckErased,
            0x06 => Status::ErrProg,
            0x07 => Status::ErrVerify,
            0x08 => Status::ErrAddress,
            0x09 => Status::ErrNotdone,
            0x0a => Status::ErrFirmware,
            0x0b => Status::ErrVendor,
            0x0c => Status::ErrUsbr,
            0x0d => Status::ErrPor,
            0x0e => Status::ErrUnknown,
            0x0f => Status::ErrStalledpkt,
            other => Status::Other(other),
        }
    }

    /// Encodes a status as its code.
    #[verifier::when_used_as_spec(spec_code)]
    pub fn code(self) -> (code: u8)
        ensures
            code == self.spec_code(),
    {
        match self {
            Status::OK => 0x00,
            Status::ErrTarget => 0x01,
            Status::ErrFile => 0x02,
            Status::ErrWrite => 0x03,
            Status::ErrErase => 0x04,
            Status::ErrCheckErased => 0x05,
            Status::ErrProg => 0x06,
            Status::ErrVerify => 0x07,
            Status::ErrAddress => 0x08,
            Status::ErrNotdone => 0x09,
            Status::ErrFirmware => 0x0a,
            Status::ErrVendor => 0x0b,
            Status::ErrUsbr => 0x0c,
            Status::ErrPor => 0x0d,
            Status::ErrUnknown => 0x0e,
            Status::ErrStalledpkt => 0x0f,
            Status::Other(other) => other,
        }
    }
    /// Fails unless the device reports that its last operation went well.
    pub fn raise_error(&self) -> (r: Result<(), Error>)
        ensures
            r == self.spec_raise_error(),
    {
        match self {
            Status::OK => Ok(()),
            _ => Err(Error::StatusError(*self)),
        }
    }

    /// The error, if any, that a reported status stands for.
    pub open spec fn spec_raise_error(&self) -> Result<(), Error> {
        if *self == Status::OK {
            Ok(())
        } else {
            Err(Error::StatusError(*self))
        }
    }
}

impl State {
    /// The state that a code stands for.
    pub open spec fn spec_from_code(code: u8) -> State {
        match code {
            0 => State::AppIdle,
            1 => State::AppDetach,
            2 => State::DfuIdle,
            3 => State::DfuDnloadSync,
            4 => State::DfuDnbusy,
            5 => State::DfuDnloadIdle,
            6 => State::DfuManifestSync,
            7 => State::DfuManifest,
            8 => State::DfuManifestWaitReset,
            9 => State::DfuUploadIdle,
            10 => State::DfuError,
            other => State::Other(other),
        }
    }

    /// The code that stands for a state on the wire.
    pub open spec fn spec_code(self) -> u8 {
        match self {
            State::AppIdle => 0,
            State::AppDetach => 1,
            State::DfuIdle => 2,
            State::DfuDnloadSync => 3,
            State::DfuDnbusy => 4,
            State::DfuDnloadIdle => 5,
            State::DfuManifestSync => 6,
            State::DfuManifest => 7,
            State::DfuManifestWaitReset => 8,
            State::DfuUploadIdle => 9,
            State::DfuError => 10,
            State::Other(other) => other,
        }
    }

    /// Whether a state is the form in which decoding yields it: the
    /// catch-all variant never carries a code that has a name.
    pub open spec fn canonical(self) -> bool {
        self matches State::Other(code) ==> code > 10
    }

    /// Decodes a state code.
    #[verifier::when_used_as_spec(spec_from_code)]
    pub fn from_code(code: u8) -> (state: State)
        ensures
            state == State::spec_from_code(code),
            state.canonical(),
            state.spec_code() == code,
    {
        match code {
            0 => State::AppIdle,
            1 => State::AppDetach,
            2 => State::DfuIdle,
            3 => State::DfuDnloadSync,
            4 => State::DfuDnbusy,
            5 => State::DfuDnloadIdle,
            6 => State::DfuManifestSync,
            7 => State::DfuManifest,
            8 => State::DfuManifestWaitReset,
            9 => State::DfuUploadIdle,
            10 => State::DfuError,
            other => State::Other(other),
        }
    }

    /// Encodes a state as its code.
    #[verifier::when_used_as_spec(spec_code)]
    pub fn code(self) -> (code: u8)
        ensures
            code == self.spec_code(),
    {
        match self {
            State::AppIdle => 0,
            State::AppDetach => 1,
            State::DfuIdle => 2,
            State::DfuDnloadSync => 3,
            State::DfuDnbusy => 4,
            State::DfuDnloadIdle => 5,
            State::DfuManifestSync => 6,
            State::DfuManifest => 7,
            State::DfuManifestWaitReset => 8,
            State::DfuUploadIdle => 9,
            State::DfuError => 10,
            State::Other(other) => other,
        }
    }

    /// Fails if the device reports that it is in its error state.
    pub fn raise_error(&self) -> (r: Result<(), Error>)
        ensures
            r == self.spec_raise_error(),
    {
        match self {
            State::DfuError => Err(Error::StateError(*self)),
            _ => Ok(()),
        }
    }

    /// The error, if any, that a reported state stands for.
    pub open spec fn spec_raise_error(&self) -> Result<(), Error> {
        if *self == State::DfuError {
            Err(Error::StateError(*self))
        } else {
            Ok(())
        }
    }
}

/// Decoding a code and encoding the result gives the code back, for a named
/// code and for one that the catch-all variant carries.
pub proof fn lemma_status_code_round_trip(code: u8)
    ensures
        Status::spec_from_code(code).spec_code() == code,
        Status::spec_from_code(code).canonical(),
        code <= 0x0f ==> !(Status::spec_from_code(code) is Other),
        code > 0x0f ==> Status::spec_from_code(code) == Status::Other(code),
{
}

/// Encoding a canonical status and decoding the code gives the status back.
pub proof fn lemma_status_round_trip(status: Status)
    requires
        status.canonical(),
    ensures
        Status::spec_from_code(status.spec_code()) == status,
{
}

/// Decoding a code and encoding the result gives the code back, for a named
/// code and for one that the catch-all variant carries.
pub proof fn lemma_state_code_round_trip(code: u8)
    ensures
        State::spec_from_code(code).spec_code() == code,
        State::spec_from_code(code).canonical(),
        code <= 10 ==> !(State::spec_from_code(code) is Other),
        code > 10 ==> State::spec_from_code(code) == State::Other(code),
{
}

/// Encoding a canonical state and decoding the code gives the state back.
pub proof fn lemma_state_round_trip(state: State)
    requires
        state.canonical(),
    ensures
        State::spec_from_code(state.spec_code()) == state,
{
}

} // verus!
