use dfu_core::report::{encode_status_report, parse_status_report, GetStatusMessage};
use dfu_core::{Error, State, Status};

#[test]
fn parse_reads_every_field() {
    let bytes: [u8; 6] = [0x00, 0x10, 0x27, 0x00, 0x05, 0x07];
    assert_eq!(
        parse_status_report(&bytes),
        Ok((Status::OK, 10000, State::DfuDnloadIdle, 7))
    );
}

#[test]
fn parse_reads_the_poll_timeout_least_significant_byte_first() {
    let bytes: [u8; 6] = [0x00, 0x01, 0x02, 0x03, 0x02, 0x00];
    assert_eq!(
        parse_status_report(&bytes),
        Ok((Status::OK, 0x030201, State::DfuIdle, 0))
    );
    let bytes: [u8; 6] = [0x00, 0xff, 0xff, 0xff, 0x02, 0x00];
    assert_eq!(
        parse_status_report(&bytes),
        Ok((Status::OK, 0xff_ffff, State::DfuIdle, 0))
    );
}

#[test]
fn parse_does_not_judge_the_report() {
    let bytes: [u8; 6] = [0x03, 0x00, 0x00, 0x00, 0x0a, 0x01];
    assert_eq!(
        parse_status_report(&bytes),
        Ok((Status::ErrWrite, 0, State::DfuError, 1))
    );
}

#[test]
fn parse_keeps_undefined_codes() {
    let bytes: [u8; 6] = [0x10, 0x00, 0x00, 0x00, 0x0b, 0xff];
    assert_eq!(
        parse_status_report(&bytes),
        Ok((Status::Other(0x10), 0, State::Other(0x0b), 0xff))
    );
}

#[test]
fn parse_ignores_what_follows_the_report() {
    let bytes: [u8; 9] = [0x00, 0x64, 0x00, 0x00, 0x02, 0x00, 0xaa, 0xbb, 0xcc];
    assert_eq!(
        parse_status_report(&bytes),
        Ok((Status::OK, 100, State::DfuIdle, 0))
    );
}

#[test]
fn parse_turns_down_every_short_response() {
    let bytes: [u8; 6] = [0x00, 0x10, 0x27, 0x00, 0x05, 0x07];
    let mut len: usize = 0;
    while len < 6 {
        assert_eq!(
            parse_status_report(&bytes[..len]),
            Err(Error::ResponseTooShort { got: len, expected: 6 })
        );
        len += 1;
    }
}

#[test]
fn encode_writes_every_field() {
    let report: GetStatusMessage = (Status::ErrVerify, 0x123456, State::DfuManifestSync, 9);
    assert_eq!(
        encode_status_report(&report),
        Some([0x07, 0x56, 0x34, 0x12, 0x06, 0x09])
    );
}

#[test]
fn encode_has_no_bytes_for_a_timeout_of_more_than_three_bytes() {
    let report: GetStatusMessage = (Status::OK, 0x100_0000, State::DfuIdle, 0);
    assert_eq!(encode_status_report(&report), None);
    let report: GetStatusMessage = (Status::OK, u64::MAX, State::DfuIdle, 0);
    assert_eq!(encode_status_report(&report), None);
    let report: GetStatusMessage = (Status::OK, 0xff_ffff, State::DfuIdle, 0);
    assert_eq!(
        encode_status_report(&report),
        Some([0x00, 0xff, 0xff, 0xff, 0x02, 0x00])
    );
}

#[test]
fn decoding_then_encoding_gives_the_bytes_back() {
    let timeouts: [[u8; 3]; 5] = [
        [0x00, 0x00, 0x00],
        [0x01, 0x00, 0x00],
        [0x00, 0x01, 0x00],
        [0x00, 0x00, 0x01],
        [0xff, 0xfe, 0xfd],
    ];
    let mut status: u8 = 0;
    loop {
        let mut state: u8 = 0;
        loop {
            for timeout in timeouts.iter() {
                let bytes: [u8; 6] = [
                    status,
                    timeout[0],
                    timeout[1],
                    timeout[2],
                    state,
                    status ^ state,
                ];
                let report: GetStatusMessage = parse_status_report(&bytes).unwrap();
                assert_eq!(encode_status_report(&report), Some(bytes));
            }
            if state == u8::MAX {
                break;
            }
            state += 1;
        }
        if status == u8::MAX {
            break;
        }
        status += 1;
    }
}

#[test]
fn encoding_then_decoding_gives_the_report_back() {
    let report: GetStatusMessage = (Status::Other(0x80), 0xabcdef, State::Other(0x40), 3);
    let bytes: [u8; 6] = encode_status_report(&report).unwrap();
    assert_eq!(parse_status_report(&bytes), Ok(report));
    let report: GetStatusMessage = (Status::ErrNotdone, 1, State::DfuUploadIdle, 0);
    let bytes: [u8; 6] = encode_status_report(&report).unwrap();
    assert_eq!(parse_status_report(&bytes), Ok(report));
}
