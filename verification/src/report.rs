//! The answer of a device to GETSTATUS: six bytes on the wire.

use crate::error::Error;
use crate::status::{State, Status};
use crate::wire::{buf_get_u8, buf_get_uint_le, le_value, lemma_le_value_3};
use vstd::prelude::*;

verus! {

/// Time that the device asks the host to wait before the next request, in milliseconds.
pub type PollTimeout = u64;

/// Index of a string descriptor.
pub type Index = u8;

/// A decoded status report: status, poll timeout, state, and the index of the
/// string descriptor that describes the status.
pub type GetStatusMessage = (Status, PollTimeout, State, Index);

/// Number of bytes of a status report.
pub const STATUS_REPORT_LEN: usize = 6;

/// One more than the greatest poll timeout that three bytes can hold.
pub const POLL_TIMEOUT_LIMIT: u64 = 0x100_0000;

/// The report that the first six bytes of a response stand for: one byte of
/// status, three bytes of poll timeout with the least significant first, one
/// byte of state, one byte of string index.
pub open spec fn decode_report(bytes: Seq<u8>) -> GetStatusMessage
    recommends
        bytes.len() >= STATUS_REPORT_LEN,
{
    (
        Status::spec_from_code(bytes[0]),
        (bytes[1] + 256 * bytes[2] + 65536 * bytes[3]) as u64,
        State::spec_from_code(bytes[4]),
        bytes[5],
    )
}

/// The six bytes that stand for a report.
pub open spec fn encode_report(report: GetStatusMessage) -> Seq<u8>
    recommends
        report.1 < POLL_TIMEOUT_LIMIT,
{
    seq![
        report.0.spec_code(),
        (report.1 % 256) as u8,
        ((report.1 / 256) % 256) as u8,
        ((report.1 / 65536) % 256) as u8,
        report.2.spec_code(),
        report.3,
    ]
}

/// What a response amounts to: the error for which it is turned down, or the
/// report that is handed on. A response of fewer than six bytes is too short;
/// any status but `OK` and the state `DfuError` are failures of the device.
pub open spec fn check_response(bytes: Seq<u8>) -> Result<GetStatusMessage, Error> {
    if bytes.len() < STATUS_REPORT_LEN {
        Err(Error::ResponseTooShort { got: bytes.len() as usize, expected: STATUS_REPORT_LEN })
    } else {
        let report = decode_report(bytes);
        if report.0 != Status::OK {
            Err(Error::StatusError(report.0))
        } else if report.2 == State::DfuError {
            Err(Error::StateError(report.2))
        } else {
            Ok(report)
        }
    }
}

/// Decodes the status report at the front of a response. Fails only on a
/// response of fewer than six bytes.
pub fn parse_status_report(bytes: &[u8]) -> (r: Result<GetStatusMessage, Error>)
    ensures
        bytes@.len() < STATUS_REPORT_LEN ==> r == Err::<GetStatusMessage, Error>(
            Error::ResponseTooShort { got: bytes@.len() as usize, expected: STATUS_REPORT_LEN },
        ),
        bytes@.len() >= STATUS_REPORT_LEN ==> r == Ok::<GetStatusMessage, Error>(
            decode_report(bytes@),
        ),
{
    if bytes.len() < STATUS_REPORT_LEN {
        return Err(Error::ResponseTooShort { got: bytes.len(), expected: STATUS_REPORT_LEN });
    }
    let (status_code, rest) = buf_get_u8(bytes);
    let (poll_timeout, rest) = buf_get_uint_le(rest, 3);
    let (state_code, rest) = buf_get_u8(rest);
    let (i_string, _) = buf_get_u8(rest);
    proof {
        let timeout_bytes = bytes@.skip(1).take(3);
        lemma_le_value_3(timeout_bytes);
        assert(poll_timeout == le_value(timeout_bytes));
        assert(timeout_bytes[0] == bytes@[1]);
        assert(timeout_bytes[1] == bytes@[2]);
        assert(timeout_bytes[2] == bytes@[3]);
        assert(bytes@.skip(1).skip(3)[0] == bytes@[4]);
        assert(bytes@.skip(1).skip(3).skip(1)[0] == bytes@[5]);
    }
    Ok((Status::from_code(status_code), poll_timeout, State::from_code(state_code), i_string))
}

/// Encodes a report as the six bytes of a response. There are none for a
/// poll timeout that does not fit in three bytes.
pub fn encode_status_report(report: &GetStatusMessage) -> (r: Option<[u8; 6]>)
    ensures
        report.1 >= POLL_TIMEOUT_LIMIT <==> r is None,
        r matches Some(bytes) ==> bytes@ == encode_report(*report),
{
    let poll_timeout = report.1;
    if poll_timeout >= POLL_TIMEOUT_LIMIT {
        return None;
    }
    let bytes: [u8; 6] = [
        report.0.code(),
        (poll_timeout % 256) as u8,
        ((poll_timeout / 256) % 256) as u8,
        ((poll_timeout / 65536) % 256) as u8,
        report.2.code(),
        report.3,
    ];
    assert(bytes@ =~= encode_report(*report));
    Some(bytes)
}

/// Decoding six bytes and encoding the report again gives the same six bytes,
/// whatever codes they hold.
pub proof fn lemma_decode_encode(bytes: Seq<u8>)
    requires
        bytes.len() >= STATUS_REPORT_LEN,
    ensures
        decode_report(bytes).1 < POLL_TIMEOUT_LIMIT,
        decode_report(bytes).0.canonical(),
        decode_report(bytes).2.canonical(),
        encode_report(decode_report(bytes)) == bytes.take(STATUS_REPORT_LEN as int),
{
    let report = decode_report(bytes);
    let t = report.1;
    assert(t == bytes[1] + 256 * bytes[2] + 65536 * bytes[3]);
    assert((t % 256) as u8 == bytes[1]);
    assert(((t / 256) % 256) as u8 == bytes[2]);
    assert(((t / 65536) % 256) as u8 == bytes[3]);
    assert(encode_report(report) =~= bytes.take(STATUS_REPORT_LEN as int));
}

/// Encoding a report and decoding the bytes gives the report back, provided
/// that its poll timeout fits in three bytes and that its status and state
/// are in the form that decoding yields.
pub proof fn lemma_encode_decode(report: GetStatusMessage)
    requires
        report.1 < POLL_TIMEOUT_LIMIT,
        report.0.canonical(),
        report.2.canonical(),
    ensures
        encode_report(report).len() == STATUS_REPORT_LEN,
        decode_report(encode_report(report)) == report,
{
    let t = report.1;
    let bytes = encode_report(report);
    assert(bytes[1] + 256 * bytes[2] + 65536 * bytes[3] == t);
}

/// A response is handed on only if it holds a whole report whose status is
/// `OK` and whose state is not `DfuError`. Any other response ends in the
/// error that says why, and in nothing else: first too short, then the
/// status, then the state.
pub proof fn lemma_failure_stops_response(bytes: Seq<u8>)
    ensures
        check_response(bytes) is Ok <==> bytes.len() >= STATUS_REPORT_LEN && bytes[0] == 0
            && bytes[4] != 10,
        check_response(bytes) matches Ok(report) ==> report == decode_report(bytes),
        bytes.len() < STATUS_REPORT_LEN ==> check_response(bytes) == Err::<GetStatusMessage, Error>(
            Error::ResponseTooShort { got: bytes.len() as usize, expected: STATUS_REPORT_LEN },
        ),
        bytes.len() >= STATUS_REPORT_LEN && bytes[0] != 0 ==> check_response(bytes) == Err::<
            GetStatusMessage,
            Error,
        >(Error::StatusError(Status::spec_from_code(bytes[0]))),
        bytes.len() >= STATUS_REPORT_LEN && bytes[0] == 0 && bytes[4] == 10 ==> check_response(
            bytes,
        ) == Err::<GetStatusMessage, Error>(Error::StateError(State::DfuError)),
{
}

} // verus!
