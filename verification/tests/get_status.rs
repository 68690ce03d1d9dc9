use dfu_core::get_status::{ClearStatus, GetStatus, Step, WaitState};
use dfu_core::request::ControlRead;
use dfu_core::reset::UsbReset;
use dfu_core::{ChainedCommand, DfuSansIo, Error, FunctionalDescriptor, State, Status};

fn session(manifestation_tolerant: bool, will_detach: bool) -> DfuSansIo {
    DfuSansIo::new(FunctionalDescriptor {
        transfer_size: 2048,
        manifestation_tolerant,
        will_detach,
    })
}

#[test]
fn get_status_asks_for_the_status() {
    let dfu: DfuSansIo = session(true, false);
    let command = GetStatus::new(&dfu, WaitState::new(&dfu, State::DfuIdle, ()));
    let mut buffer: [u8; 6] = [0xee; 6];
    let (_recv, request) = command.get_status(&mut buffer);
    assert_eq!(
        request,
        ControlRead { request_type: 0b00100001, request: 3, value: 0, length: 6 }
    );
    assert_eq!(buffer, [0xee; 6]);
}

#[test]
fn get_status_offers_the_whole_buffer() {
    let dfu: DfuSansIo = session(true, false);
    let command = GetStatus::new(&dfu, WaitState::new(&dfu, State::DfuIdle, ()));
    let mut buffer: [u8; 64] = [0; 64];
    let (_recv, request) = command.get_status(&mut buffer);
    assert_eq!(request.length, 64);
    assert_eq!(request.request_type, 0x21);
    assert_eq!(request.request, 3);
    assert_eq!(request.value, 0);
}

#[test]
fn chain_turns_down_a_short_response() {
    let dfu: DfuSansIo = session(true, false);
    let mut len: usize = 0;
    while len < 6 {
        let command = GetStatus::new(&dfu, WaitState::new(&dfu, State::DfuIdle, ()));
        let mut buffer: [u8; 6] = [0; 6];
        let (recv, _request) = command.get_status(&mut buffer);
        let response: [u8; 6] = [0x00, 0x00, 0x00, 0x00, 0x02, 0x00];
        match recv.chain(&response[..len]) {
            Err(error) => assert_eq!(error, Error::ResponseTooShort { got: len, expected: 6 }),
            Ok(_) => panic!("a response of {} bytes was taken", len),
        }
        len += 1;
    }
}

#[test]
fn chain_stops_at_a_failed_status() {
    let dfu: DfuSansIo = session(true, false);
    let mut code: u8 = 1;
    loop {
        let command = GetStatus::new(&dfu, WaitState::new(&dfu, State::DfuIdle, ()));
        let mut buffer: [u8; 6] = [0; 6];
        let (recv, _request) = command.get_status(&mut buffer);
        let response: [u8; 6] = [code, 0x00, 0x00, 0x00, 0x02, 0x00];
        match recv.chain(&response) {
            Err(error) => assert_eq!(error, Error::StatusError(Status::from_code(code))),
            Ok(_) => panic!("status {} was taken", code),
        }
        if code == u8::MAX {
            break;
        }
        code += 1;
    }
}

#[test]
fn chain_stops_at_the_error_state() {
    let dfu: DfuSansIo = session(true, false);
    let command = GetStatus::new(&dfu, WaitState::new(&dfu, State::DfuError, ()));
    let mut buffer: [u8; 6] = [0; 6];
    let (recv, _request) = command.get_status(&mut buffer);
    let response: [u8; 6] = [0x00, 0x00, 0x00, 0x00, 0x0a, 0x00];
    match recv.chain(&response) {
        Err(error) => assert_eq!(error, Error::StateError(State::DfuError)),
        Ok(_) => panic!("the error state was taken"),
    }
}

#[test]
fn chain_reports_the_status_before_the_state() {
    let dfu: DfuSansIo = session(true, false);
    let command = GetStatus::new(&dfu, WaitState::new(&dfu, State::DfuIdle, ()));
    let mut buffer: [u8; 6] = [0; 6];
    let (recv, _request) = command.get_status(&mut buffer);
    let response: [u8; 6] = [0x0e, 0x00, 0x00, 0x00, 0x0a, 0x00];
    match recv.chain(&response) {
        Err(error) => assert_eq!(error, Error::StatusError(Status::ErrUnknown)),
        Ok(_) => panic!("a failed status was taken"),
    }
}

#[test]
fn chain_hands_the_report_on() {
    let dfu: DfuSansIo = session(true, false);
    let command = GetStatus::new(&dfu, WaitState::new(&dfu, State::DfuDnloadIdle, 17u32));
    let mut buffer: [u8; 6] = [0; 6];
    let (recv, _request) = command.get_status(&mut buffer);
    let response: [u8; 6] = [0x00, 0x2c, 0x01, 0x00, 0x04, 0x00];
    let wait = match recv.chain(&response) {
        Ok(wait) => wait,
        Err(error) => panic!("{:?}", error),
    };
    match wait.next() {
        Step::Wait(_get_status, poll_timeout) => assert_eq!(poll_timeout, 300),
        _ => panic!("the device is busy: the status has to be queried again"),
    }
}

#[test]
fn clear_asks_to_clear_the_status_and_keeps_the_command() {
    let dfu: DfuSansIo = session(true, false);
    let command = ClearStatus::new(&dfu, 42u32);
    let (next, request) = command.clear();
    assert_eq!(next, 42);
    assert_eq!(request.request_type, 0b00100001);
    assert_eq!(request.request, 4);
    assert_eq!(request.value, 0);
    assert_eq!(request.payload, Vec::<u8>::new());
}

#[test]
fn wait_state_first_queries_the_status() {
    let dfu: DfuSansIo = session(false, false);
    let wait = WaitState::new(&dfu, State::DfuIdle, 5u8);
    match wait.next() {
        Step::Wait(_get_status, poll_timeout) => assert_eq!(poll_timeout, 0),
        _ => panic!("no report has come in yet"),
    }
}

#[test]
fn wait_state_breaks_when_the_state_is_reached() {
    let dfu: DfuSansIo = session(false, false);
    let wait = WaitState::new(&dfu, State::DfuDnloadIdle, 5u8);
    let wait = wait.chain((Status::OK, 250, State::DfuDnloadIdle, 0));
    match wait.next() {
        Step::Break(chained_command) => assert_eq!(chained_command, 5),
        _ => panic!("the state is reached"),
    }
}

#[test]
fn wait_state_breaks_on_the_manifest_state_if_it_is_waited_for() {
    let dfu: DfuSansIo = session(false, false);
    let wait = WaitState::new(&dfu, State::DfuManifest, 5u8);
    let wait = wait.chain((Status::OK, 0, State::DfuManifest, 0));
    match wait.next() {
        Step::Break(chained_command) => assert_eq!(chained_command, 5),
        _ => panic!("the state is reached"),
    }
}

#[test]
fn wait_state_waits_with_the_timeout_of_the_last_report() {
    let dfu: DfuSansIo = session(false, false);
    let wait = WaitState::new(&dfu, State::DfuDnloadIdle, ());
    let wait = wait.chain((Status::OK, 250, State::DfuDnbusy, 0));
    let get_status = match wait.next() {
        Step::Wait(get_status, poll_timeout) => {
            assert_eq!(poll_timeout, 250);
            get_status
        }
        _ => panic!("the device is busy"),
    };
    let mut buffer: [u8; 6] = [0; 6];
    let (recv, _request) = get_status.get_status(&mut buffer);
    let response: [u8; 6] = [0x00, 0x05, 0x00, 0x00, 0x05, 0x00];
    let wait = match recv.chain(&response) {
        Ok(wait) => wait,
        Err(error) => panic!("{:?}", error),
    };
    match wait.next() {
        Step::Break(()) => {}
        _ => panic!("the state is reached"),
    }
}

#[test]
fn wait_state_in_manifest_with_a_device_that_detaches_asks_for_no_reset() {
    let dfu: DfuSansIo = session(false, true);
    let wait = WaitState::new(&dfu, State::DfuIdle, ());
    let wait = wait.chain((Status::OK, 0, State::DfuManifest, 0));
    match wait.next() {
        Step::ManifestWaitReset(None) => {}
        _ => panic!("the device detaches by itself"),
    }
}

#[test]
fn wait_state_in_manifest_with_a_device_that_stays_asks_for_a_reset() {
    let dfu: DfuSansIo = session(false, false);
    let wait = WaitState::new(&dfu, State::DfuIdle, ());
    let wait = wait.chain((Status::OK, 0, State::DfuManifest, 0));
    match wait.next() {
        Step::ManifestWaitReset(Some(reset)) => {
            let reset: UsbReset<()> = reset;
            reset.reset()
        }
        _ => panic!("the device has to be reset"),
    }
}

#[test]
fn wait_state_in_manifest_with_a_tolerant_device_goes_on_polling() {
    let dfu: DfuSansIo = session(true, false);
    let wait = WaitState::new(&dfu, State::DfuIdle, ());
    let wait = wait.chain((Status::OK, 30, State::DfuManifest, 0));
    match wait.next() {
        Step::Wait(_get_status, poll_timeout) => assert_eq!(poll_timeout, 30),
        _ => panic!("the device tolerates requests during manifestation"),
    }
}

#[test]
fn wait_state_forgets_the_manifest_state_with_the_next_report() {
    let dfu: DfuSansIo = session(false, false);
    let wait = WaitState::new(&dfu, State::DfuIdle, ());
    let wait = wait.chain((Status::OK, 0, State::DfuManifest, 0));
    let wait = wait.chain((Status::OK, 7, State::DfuManifestSync, 0));
    match wait.next() {
        Step::Wait(_get_status, poll_timeout) => assert_eq!(poll_timeout, 7),
        _ => panic!("the device has left the manifest state"),
    }
}

struct Flag<'a> {
    reached: &'a std::cell::Cell<bool>,
}

impl<'a> ChainedCommand for Flag<'a> {
    type Arg = dfu_core::report::GetStatusMessage;
    type Into = u64;

    fn chain(self, arg: Self::Arg) -> u64 {
        self.reached.set(true);
        arg.1
    }
}

#[test]
fn chain_does_not_reach_the_chained_command_on_failure() {
    let dfu: DfuSansIo = session(true, false);
    let responses: [&[u8]; 5] = [
        &[0x00, 0x00, 0x00, 0x00, 0x02],
        &[],
        &[0x01, 0x00, 0x00, 0x00, 0x02, 0x00],
        &[0x00, 0x00, 0x00, 0x00, 0x0a, 0x00],
        &[0xff, 0x00, 0x00, 0x00, 0x0a, 0x00],
    ];
    for response in responses.iter() {
        let reached = std::cell::Cell::new(false);
        let command = GetStatus::new(&dfu, Flag { reached: &reached });
        let mut buffer: [u8; 6] = [0; 6];
        let (recv, _request) = command.get_status(&mut buffer);
        assert!(recv.chain(response).is_err());
        assert!(!reached.get());
    }
    let reached = std::cell::Cell::new(false);
    let command = GetStatus::new(&dfu, Flag { reached: &reached });
    let mut buffer: [u8; 6] = [0; 6];
    let (recv, _request) = command.get_status(&mut buffer);
    assert_eq!(recv.chain(&[0x00, 0x39, 0x30, 0x00, 0x02, 0x00]), Ok(12345));
    assert!(reached.get());
}
