use std::io;
use termbg::restore_raw_status;
use termbg::Answer;
use termbg::Error;
use termbg::RawModeChange;
use termbg::Request;
use termbg::Rgb;
use termbg::Session;
use termbg::Step;

// A terminal that does what it is asked, and keeps a record of it.
struct Device {
    raw: bool,
    raw_after_probe: bool,
    fail_set: bool,
    fail_read_after_probe: bool,
    probed: bool,
    log: Vec<Request>,
}

impl Device {
    fn new(raw: bool, raw_after_probe: bool) -> Self {
        Device {
            raw,
            raw_after_probe,
            fail_set: false,
            fail_read_after_probe: false,
            probed: false,
            log: Vec::new(),
        }
    }

    fn failed() -> Error {
        Error::Io { source: io::Error::new(io::ErrorKind::Other, "device") }
    }

    fn serve(&mut self, request: Request, probe: &mut Option<Result<Rgb, Error>>) -> Answer<Rgb> {
        self.log.push(request);
        match request {
            Request::ReadRawMode => {
                if self.probed && self.fail_read_after_probe {
                    Answer::RawMode(Err(Device::failed()))
                } else {
                    Answer::RawMode(Ok(self.raw))
                }
            }
            Request::SetRawMode(raw) => {
                if self.fail_set {
                    Answer::Done(Err(Device::failed()))
                } else {
                    self.raw = raw;
                    Answer::Done(Ok(()))
                }
            }
            Request::Probe => {
                self.probed = true;
                self.raw = self.raw_after_probe;
                Answer::Probed(probe.take().expect("probed once"))
            }
            Request::Drain => Answer::Done(Ok(())),
        }
    }

    fn run(&mut self, interactive: bool, probe: Result<Rgb, Error>) -> Result<Rgb, Error> {
        let mut probe = Some(probe);
        let mut step = Session::begin(interactive, true, true);
        for _ in 0..10 {
            match step {
                Step::Finished(result) => return result,
                Step::Ask(session, request) => {
                    let answer = self.serve(request, &mut probe);
                    step = session.advance(answer);
                }
            }
        }
        panic!("the session did not end");
    }
}

const COLOR: Rgb = Rgb { r: 1, g: 2, b: 3 };

#[test]
fn restore_raw_status_names_the_change_back() {
    assert_eq!(restore_raw_status(false, false), RawModeChange::Keep);
    assert_eq!(restore_raw_status(true, true), RawModeChange::Keep);
    assert_eq!(restore_raw_status(true, false), RawModeChange::Enable);
    assert_eq!(restore_raw_status(false, true), RawModeChange::Disable);
}

#[test]
fn raw_mode_is_as_before_after_every_probe() {
    for raw_before in [false, true] {
        for raw_after_probe in [false, true] {
            for ok in [false, true] {
                let mut device = Device::new(raw_before, raw_after_probe);
                let probe = if ok { Ok(COLOR) } else { Err(Error::Timeout) };
                let result = device.run(true, probe);
                assert_eq!(device.raw, raw_before);
                if ok {
                    assert_eq!(result.unwrap(), COLOR);
                } else {
                    assert!(matches!(result, Err(Error::Timeout)));
                }
                assert_eq!(device.log.last(), Some(&Request::Drain));
            }
        }
    }
}

#[test]
fn the_requests_of_a_probe_from_cooked_mode() {
    let mut device = Device::new(false, true);
    device.run(true, Ok(COLOR)).unwrap();
    assert_eq!(
        device.log,
        vec![
            Request::ReadRawMode,
            Request::SetRawMode(true),
            Request::Probe,
            Request::ReadRawMode,
            Request::SetRawMode(false),
            Request::Drain,
        ]
    );
}

#[test]
fn the_requests_of_a_probe_from_raw_mode() {
    let mut device = Device::new(true, true);
    device.run(true, Ok(COLOR)).unwrap();
    assert_eq!(
        device.log,
        vec![Request::ReadRawMode, Request::Probe, Request::ReadRawMode, Request::Drain]
    );

    let mut device = Device::new(true, false);
    device.run(true, Ok(COLOR)).unwrap();
    assert_eq!(
        device.log,
        vec![
            Request::ReadRawMode,
            Request::Probe,
            Request::ReadRawMode,
            Request::SetRawMode(true),
            Request::Drain,
        ]
    );
}

#[test]
fn without_an_interactive_terminal_nothing_is_touched() {
    let mut device = Device::new(false, false);
    let result = device.run(false, Ok(COLOR));
    assert!(matches!(result, Err(Error::Unsupported)));
    assert!(device.log.is_empty());

    for (stdin, stdout, stderr) in [
        (false, true, true),
        (true, false, true),
        (true, true, false),
        (false, false, false),
    ] {
        let step: Step<Rgb> = Session::begin(stdin, stdout, stderr);
        assert!(matches!(step, Step::Finished(Err(Error::Unsupported))));
    }
}

#[test]
fn a_flag_that_cannot_be_read_on_arrival_ends_the_probe() {
    let step: Step<Rgb> = Session::begin(true, true, true);
    let session = match step {
        Step::Ask(session, Request::ReadRawMode) => session,
        other => panic!("unexpected {:?}", other),
    };
    match session.advance(Answer::RawMode(Err(Device::failed()))) {
        Step::Finished(Err(Error::Io { .. })) => {}
        other => panic!("unexpected {:?}", other),
    }
}

#[test]
fn failing_to_enter_raw_mode_is_the_result_and_the_way_out_is_taken() {
    let mut device = Device::new(false, false);
    device.fail_set = true;
    let result = device.run(true, Ok(COLOR));
    assert!(matches!(result, Err(Error::Io { .. })));
    assert_eq!(
        device.log,
        vec![Request::ReadRawMode, Request::SetRawMode(true), Request::ReadRawMode, Request::Drain]
    );
}

#[test]
fn a_flag_that_cannot_be_read_on_the_way_out_is_switched_back_all_the_same() {
    for raw_before in [false, true] {
        for raw_after_probe in [false, true] {
            let mut device = Device::new(raw_before, raw_after_probe);
            device.fail_read_after_probe = true;
            let result = device.run(true, Ok(COLOR));
            assert_eq!(result.unwrap(), COLOR);
            assert_eq!(device.raw, raw_before);
            let tail = &device.log[device.log.len() - 4..];
            assert_eq!(
                tail,
                &[
                    Request::Probe,
                    Request::ReadRawMode,
                    Request::SetRawMode(raw_before),
                    Request::Drain,
                ]
            );
        }
    }

    let step: Step<Rgb> = Session::Leaving { raw_before: false, result: Err(Error::Timeout) }
        .advance(Answer::RawMode(Err(Device::failed())));
    assert!(matches!(
        step,
        Step::Ask(
            Session::Restoring { raw_before: false, result: Err(Error::Timeout) },
            Request::SetRawMode(false)
        )
    ));
}

#[test]
fn failing_to_enter_raw_mode_and_to_read_the_flag_again_still_drains() {
    let step: Step<Rgb> = Session::Entering { raw_before: false }
        .advance(Answer::Done(Err(Device::failed())));
    let session = match step {
        Step::Ask(session, Request::ReadRawMode) => session,
        other => panic!("unexpected {:?}", other),
    };
    let session = match session.advance(Answer::RawMode(Err(Device::failed()))) {
        Step::Ask(session, Request::SetRawMode(false)) => session,
        other => panic!("unexpected {:?}", other),
    };
    let session = match session.advance(Answer::Done(Ok(()))) {
        Step::Ask(session, Request::Drain) => session,
        other => panic!("unexpected {:?}", other),
    };
    match session.advance(Answer::Done(Ok(()))) {
        Step::Finished(Err(Error::Io { .. })) => {}
        other => panic!("unexpected {:?}", other),
    }
}

#[test]
fn a_restore_that_fails_does_not_change_the_result() {
    let step: Step<Rgb> = Session::Leaving { raw_before: true, result: Ok(COLOR) }
        .advance(Answer::RawMode(Ok(false)));
    let session = match step {
        Step::Ask(session, Request::SetRawMode(true)) => session,
        other => panic!("unexpected {:?}", other),
    };
    let session = match session.advance(Answer::Done(Err(Device::failed()))) {
        Step::Ask(session, Request::Drain) => session,
        other => panic!("unexpected {:?}", other),
    };
    match session.advance(Answer::Done(Err(Device::failed()))) {
        Step::Finished(Ok(color)) => assert_eq!(color, COLOR),
        other => panic!("unexpected {:?}", other),
    }
}

#[test]
fn an_answer_that_was_not_asked_for_is_passed_over() {
    let step: Step<Rgb> = Session::Arriving.advance(Answer::Probed(Ok(COLOR)));
    assert!(matches!(step, Step::Ask(Session::Arriving, Request::ReadRawMode)));

    let step: Step<Rgb> = Session::Probing { raw_before: false }.advance(Answer::Done(Ok(())));
    assert!(matches!(step, Step::Ask(Session::Probing { raw_before: false }, Request::Probe)));

    let step: Step<Rgb> =
        Session::Restoring { raw_before: true, result: Ok(COLOR) }.advance(Answer::RawMode(Ok(true)));
    assert!(matches!(
        step,
        Step::Ask(Session::Restoring { raw_before: true, result: Ok(_) }, Request::SetRawMode(true))
    ));

    let step: Step<Rgb> = Session::Draining { result: Ok(COLOR) }.advance(Answer::Probed(Ok(COLOR)));
    assert!(matches!(step, Step::Ask(Session::Draining { result: Ok(_) }, Request::Drain)));
}
