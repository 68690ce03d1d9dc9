//! Polling the status of the device until it reaches a state.

use crate::chained::ChainedCommand;
use crate::device::DfuSansIo;
use crate::error::Error;
use crate::report::{check_response, parse_status_report, GetStatusMessage, PollTimeout};
use crate::request::{ControlRead, ControlWrite, DFU_CLRSTATUS, DFU_GETSTATUS, REQUEST_TYPE};
use crate::reset::UsbReset;
use crate::status::State;
use vstd::prelude::*;

verus! {

/// Command that queries the status of the device.
#[must_use]
pub struct GetStatus<'dfu, T: ChainedCommand<Arg = GetStatusMessage>> {
    dfu: &'dfu DfuSansIo,
    chained_command: T,
}

impl<'dfu, T: ChainedCommand<Arg = GetStatusMessage>> GetStatus<'dfu, T> {
    /// The session that the command belongs to.
    pub closed spec fn dfu(self) -> DfuSansIo {
        *self.dfu
    }

    /// The command that is resumed with the status report.
    pub closed spec fn chained_command(self) -> T {
        self.chained_command
    }

    /// Makes the command that queries the status and hands it to `chained_command`.
    pub fn new(dfu: &'dfu DfuSansIo, chained_command: T) -> (command: Self)
        ensures
            command.dfu() == *dfu,
            command.chained_command() == chained_command,
    {
        GetStatus { dfu, chained_command }
    }

    /// Query the status of the device: gives the GETSTATUS request that the
    /// caller has to perform into `buffer`, and the command that takes the
    /// response.
    pub fn get_status(self, buffer: &mut [u8]) -> (r: (GetStatusRecv<T>, ControlRead))
        requires
            old(buffer)@.len() >= 6,
        ensures
            r.0.chained_command() == self.chained_command(),
            r.1.is_request(DFU_GETSTATUS, 0, old(buffer)@.len() as usize),
            final(buffer)@ == old(buffer)@,
    {
        let next = GetStatusRecv { chained_command: self.chained_command };
        let request = ControlRead {
            request_type: REQUEST_TYPE,
            request: DFU_GETSTATUS,
            value: 0,
            length: buffer.len(),
        };
        (next, request)
    }
}

/// Command that receives the status of the device and chain it into another command.
#[must_use]
pub struct GetStatusRecv<T: ChainedCommand<Arg = GetStatusMessage>> {
    chained_command: T,
}

impl<T: ChainedCommand<Arg = GetStatusMessage>> GetStatusRecv<T> {
    /// The command that is resumed with the status report.
    pub closed spec fn chained_command(self) -> T {
        self.chained_command
    }

    /// Receives the status of the device and chains the current command into
    /// another command. A response that is too short, a status other than
    /// `OK` and the state `DfuError` end in an error, and the chained command
    /// is not resumed.
    pub fn chain(self, bytes: &[u8]) -> (r: Result<T::Into, Error>)
        ensures
            match r {
                Ok(into) => check_response(bytes@) matches Ok(report)
                    && self.chained_command().chains_into(report, into),
                Err(error) => check_response(bytes@) == Err::<GetStatusMessage, Error>(error),
            },
    {
        let report = parse_status_report(bytes)?;
        report.0.raise_error()?;
        report.2.raise_error()?;
        Ok(self.chained_command.chain(report))
    }
}

/// Command that clears the status of the device.
#[must_use]
pub struct ClearStatus<'dfu, T> {
    dfu: &'dfu DfuSansIo,
    chained_command: T,
}

impl<'dfu, T> ClearStatus<'dfu, T> {
    /// The session that the command belongs to.
    pub closed spec fn dfu(self) -> DfuSansIo {
        *self.dfu
    }

    /// The command that follows once the status is cleared.
    pub closed spec fn chained_command(self) -> T {
        self.chained_command
    }

    /// Makes the command that clears the status and goes on with `chained_command`.
    pub fn new(dfu: &'dfu DfuSansIo, chained_command: T) -> (command: Self)
        ensures
            command.dfu() == *dfu,
            command.chained_command() == chained_command,
    {
        ClearStatus { dfu, chained_command }
    }

    /// Clear the status of the device: gives the command that follows,
    /// unchanged, and the CLRSTATUS request that the caller has to perform.
    pub fn clear(self) -> (r: (T, ControlWrite))
        ensures
            r.0 == self.chained_command(),
            r.1.is_request(DFU_CLRSTATUS, 0, Seq::<u8>::empty()),
    {
        let request = ControlWrite {
            request_type: REQUEST_TYPE,
            request: DFU_CLRSTATUS,
            value: 0,
            payload: Vec::new(),
        };
        let next = self.chained_command;
        (next, request)
    }
}

/// Command that waits for the device to enter a state.
#[must_use]
pub struct WaitState<'dfu, T> {
    dfu: &'dfu DfuSansIo,
    state: State,
    chained_command: T,
    end: bool,
    poll_timeout: PollTimeout,
    in_manifest: bool,
}

/// What a `WaitState` holds.
pub struct WaitStateView<T> {
    /// The session that the command belongs to.
    pub dfu: DfuSansIo,
    /// The state that is waited for.
    pub state: State,
    /// The command that follows once the state is reached.
    pub chained_command: T,
    /// Whether the last report showed the state that is waited for.
    pub end: bool,
    /// The poll timeout of the last report.
    pub poll_timeout: PollTimeout,
    /// Whether the last report showed the device in its manifestation phase.
    pub in_manifest: bool,
}

/// What is to be done after a status report.
pub enum Outcome {
    /// The state has been reached.
    Break,
    /// The state has not been reached; the status has to be queried again.
    Wait,
    /// The device is in its manifestation phase and will answer no more.
    ManifestWaitReset,
}

impl<T> WaitStateView<T> {
    /// What is to be done next: stop when the state is reached; else, when the
    /// device is in its manifestation phase and does not tolerate requests
    /// during it, see to a reset; else query again.
    pub open spec fn outcome(self) -> Outcome {
        if self.end {
            Outcome::Break
        } else if self.in_manifest && !self.dfu.descriptor().manifestation_tolerant {
            Outcome::ManifestWaitReset
        } else {
            Outcome::Wait
        }
    }

    /// What becomes of the command when a report comes in: it keeps its
    /// session, target and chained command, and takes from the report whether
    /// the target is reached, the poll timeout, and whether the device is in
    /// its manifestation phase.
    pub open spec fn received(self, report: GetStatusMessage) -> WaitStateView<T> {
        WaitStateView {
            dfu: self.dfu,
            state: self.state,
            chained_command: self.chained_command,
            end: report.2 == self.state,
            poll_timeout: report.1,
            in_manifest: report.2 == State::DfuManifest,
        }
    }
}

impl<'dfu, T> View for WaitState<'dfu, T> {
    type V = WaitStateView<T>;

    closed spec fn view(&self) -> WaitStateView<T> {
        WaitStateView {
            dfu: *self.dfu,
            state: self.state,
            chained_command: self.chained_command,
            end: self.end,
            poll_timeout: self.poll_timeout,
            in_manifest: self.in_manifest,
        }
    }
}

/// Step to take after waiting for a state.
pub enum Step<'dfu, T> {
    /// The state has been reached, the loop can be break.
    Break(T),
    /// The state has not been reached and the status of the device must be queried.
    Wait(GetStatus<'dfu, WaitState<'dfu, T>>, PollTimeout),
    /// The device is in manifest state and might require a USB reset.
    ManifestWaitReset(Option<UsbReset<'dfu, ()>>),
}

impl<'dfu, T> WaitState<'dfu, T> {
    /// Makes the command that waits for `state` and then goes on with
    /// `chained_command`. No report has come in yet.
    pub fn new(dfu: &'dfu DfuSansIo, state: State, chained_command: T) -> (command: Self)
        ensures
            command@ == (WaitStateView {
                dfu: *dfu,
                state,
                chained_command,
                end: false,
                poll_timeout: 0,
                in_manifest: false,
            }),
    {
        WaitState { dfu, state, chained_command, end: false, poll_timeout: 0, in_manifest: false }
    }

    /// Returns the next command after waiting for a state.
    pub fn next(self) -> (step: Step<'dfu, T>)
        ensures
            match step {
                Step::Break(chained_command) => {
                    &&& self@.outcome() is Break
                    &&& chained_command == self@.chained_command
                },
                Step::Wait(get_status, poll_timeout) => {
                    &&& self@.outcome() is Wait
                    &&& get_status.dfu() == self@.dfu
                    &&& get_status.chained_command() == self
                    &&& poll_timeout == self@.poll_timeout
                },
                Step::ManifestWaitReset(reset) => {
                    &&& self@.outcome() is ManifestWaitReset
                    &&& reset is None <==> self@.dfu.descriptor().will_detach
                    &&& reset matches Some(command) ==> command.dfu() == self@.dfu
                },
            },
    {
        let func_desc = self.dfu.functional_descriptor();

        if self.end {
            Step::Break(self.chained_command)
        } else if self.in_manifest && !func_desc.manifestation_tolerant {
            if func_desc.will_detach {
                Step::ManifestWaitReset(None)
            } else {
                Step::ManifestWaitReset(Some(UsbReset::new(self.dfu, ())))
            }
        } else {
            let poll_timeout = self.poll_timeout;

            Step::Wait(GetStatus { dfu: self.dfu, chained_command: self }, poll_timeout)
        }
    }
}

impl<'dfu, T> ChainedCommand for WaitState<'dfu, T> {
    type Arg = GetStatusMessage;

    type Into = Self;

    open spec fn chains_into(self, arg: GetStatusMessage, into: Self) -> bool {
        into@ == self@.received(arg)
    }

    fn chain(self, arg: GetStatusMessage) -> (into: Self) {
        let (_status, poll_timeout, state, _index) = arg;
        WaitState {
            dfu: self.dfu,
            chained_command: self.chained_command,
            state: self.state,
            end: state == self.state,
            poll_timeout,
            in_manifest: state == State::DfuManifest,
        }
    }
}

} // verus!
