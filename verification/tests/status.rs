use dfu_core::{Error, State, Status};

#[test]
fn status_codes_round_trip() {
    let mut code: u8 = 0;
    loop {
        let status: Status = Status::from_code(code);
        assert_eq!(status.code(), code);
        if code <= 0x0f {
            assert!(!matches!(status, Status::Other(_)));
        } else {
            assert_eq!(status, Status::Other(code));
        }
        if code == u8::MAX {
            break;
        }
        code += 1;
    }
}

#[test]
fn state_codes_round_trip() {
    let mut code: u8 = 0;
    loop {
        let state: State = State::from_code(code);
        assert_eq!(state.code(), code);
        if code <= 10 {
            assert!(!matches!(state, State::Other(_)));
        } else {
            assert_eq!(state, State::Other(code));
        }
        if code == u8::MAX {
            break;
        }
        code += 1;
    }
}

#[test]
fn status_codes_have_their_names() {
    assert_eq!(Status::from_code(0x00), Status::OK);
    assert_eq!(Status::from_code(0x01), Status::ErrTarget);
    assert_eq!(Status::from_code(0x02), Status::ErrFile);
    assert_eq!(Status::from_code(0x03), Status::ErrWrite);
    assert_eq!(Status::from_code(0x04), Status::ErrErase);
    assert_eq!(Status::from_code(0x05), Status::ErrCheckErased);
    assert_eq!(Status::from_code(0x06), Status::ErrProg);
    assert_eq!(Status::from_code(0x07), Status::ErrVerify);
    assert_eq!(Status::from_code(0x08), Status::ErrAddress);
    assert_eq!(Status::from_code(0x09), Status::ErrNotdone);
    assert_eq!(Status::from_code(0x0a), Status::ErrFirmware);
    assert_eq!(Status::from_code(0x0b), Status::ErrVendor);
    assert_eq!(Status::from_code(0x0c), Status::ErrUsbr);
    assert_eq!(Status::from_code(0x0d), Status::ErrPor);
    assert_eq!(Status::from_code(0x0e), Status::ErrUnknown);
    assert_eq!(Status::from_code(0x0f), Status::ErrStalledpkt);
    assert_eq!(Status::from_code(0x10), Status::Other(0x10));
}

#[test]
fn state_codes_have_their_names() {
    assert_eq!(State::from_code(0), State::AppIdle);
    assert_eq!(State::from_code(1), State::AppDetach);
    assert_eq!(State::from_code(2), State::DfuIdle);
    assert_eq!(State::from_code(3), State::DfuDnloadSync);
    assert_eq!(State::from_code(4), State::DfuDnbusy);
    assert_eq!(State::from_code(5), State::DfuDnloadIdle);
    assert_eq!(State::from_code(6), State::DfuManifestSync);
    assert_eq!(State::from_code(7), State::DfuManifest);
    assert_eq!(State::from_code(8), State::DfuManifestWaitReset);
    assert_eq!(State::from_code(9), State::DfuUploadIdle);
    assert_eq!(State::from_code(10), State::DfuError);
    assert_eq!(State::from_code(11), State::Other(11));
}

#[test]
fn only_ok_status_raises_no_error() {
    assert_eq!(Status::OK.raise_error(), Ok(()));
    assert_eq!(Status::ErrWrite.raise_error(), Err(Error::StatusError(Status::ErrWrite)));
    assert_eq!(Status::ErrStalledpkt.raise_error(), Err(Error::StatusError(Status::ErrStalledpkt)));
    assert_eq!(Status::Other(0x42).raise_error(), Err(Error::StatusError(Status::Other(0x42))));
}

#[test]
fn only_error_state_raises_an_error() {
    assert_eq!(State::DfuError.raise_error(), Err(Error::StateError(State::DfuError)));
    assert_eq!(State::DfuIdle.raise_error(), Ok(()));
    assert_eq!(State::AppIdle.raise_error(), Ok(()));
    assert_eq!(State::DfuManifest.raise_error(), Ok(()));
    assert_eq!(State::Other(200).raise_error(), Ok(()));
}
