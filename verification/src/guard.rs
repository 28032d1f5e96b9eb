//! The raw-mode guard. A probe of the terminal needs raw input mode, and
//! must leave the mode as it found it on every way out. The guard decides,
//! step by step, what is done to the terminal around the probe; the host
//! does it and reports back.

use vstd::prelude::*;
use crate::error::Error;

verus! {

/// What to do to the raw-mode flag of the terminal.
#[derive(Copy, Clone, Debug, PartialEq, Eq, Structural)]
pub enum RawModeChange {
    /// Leave it as it is.
    Keep,
    /// Switch raw mode on.
    Enable,
    /// Switch raw mode off.
    Disable,
}

/// The flag after a change that succeeded.
pub open spec fn apply(change: RawModeChange, raw: bool) -> bool {
    match change {
        RawModeChange::Keep => raw,
        RawModeChange::Enable => true,
        RawModeChange::Disable => false,
    }
}

/// The change that takes the flag from `raw_now` back to `raw_before`.
pub open spec fn restore_spec(raw_before: bool, raw_now: bool) -> RawModeChange {
    if raw_now == raw_before {
        RawModeChange::Keep
    } else if raw_before {
        RawModeChange::Enable
    } else {
        RawModeChange::Disable
    }
}

/// The change that brings the raw-mode flag back to what it was: none where
/// `raw_now` is `raw_before` already.
pub fn restore_raw_status(raw_before: bool, raw_now: bool) -> (change: RawModeChange)
    ensures
        change == restore_spec(raw_before, raw_now),
        apply(change, raw_now) == raw_before,
{
    if raw_now == raw_before {
        RawModeChange::Keep
    } else if raw_before {
        RawModeChange::Enable
    } else {
        RawModeChange::Disable
    }
}

/// The longest single wait for pending input while it is drained, in
/// milliseconds.
pub const DRAIN_QUANTUM_MS: u64 = 10;

/// What the guard asks of the host.
#[derive(Copy, Clone, Debug, PartialEq, Eq, Structural)]
pub enum Request {
    /// Say whether raw mode is on.
    ReadRawMode,
    /// Switch raw mode on (`true`) or off.
    SetRawMode(bool),
    /// Run the probe: send the query and read the reply.
    Probe,
    /// Discard the input that is still pending: take events for as long as
    /// one arrives within `DRAIN_QUANTUM_MS`.
    Drain,
}

/// What the host reports back.
#[derive(Debug)]
pub enum Answer<T> {
    /// To `ReadRawMode`: the flag, or why it could not be read.
    RawMode(Result<bool, Error>),
    /// To `SetRawMode` and to `Drain`: whether it was done.
    Done(Result<(), Error>),
    /// To `Probe`: what the probe gave.
    Probed(Result<T, Error>),
}

/// A probe under guard: where it stands, and with it the request that the
/// host has been handed and not yet answered.
#[derive(Debug)]
pub enum Session<T> {
    /// Asked for the flag, before anything was touched.
    Arriving,
    /// Asked to switch raw mode on.
    Entering { raw_before: bool },
    /// Asked to run the probe.
    Probing { raw_before: bool },
    /// Asked for the flag again, on the way out.
    Leaving { raw_before: bool, result: Result<T, Error> },
    /// Asked to switch the flag back.
    Restoring { raw_before: bool, result: Result<T, Error> },
    /// Asked to drain the input.
    Draining { result: Result<T, Error> },
}

/// The next thing to happen.
#[derive(Debug)]
pub enum Step<T> {
    /// The host is to serve the request and hand the answer to the session.
    Ask(Session<T>, Request),
    /// The probe is over, with this result.
    Finished(Result<T, Error>),
}

impl<T> Session<T> {
    /// The request that the session waits to have answered.
    pub open spec fn pending(self) -> Request {
        match self {
            Session::Arriving => Request::ReadRawMode,
            Session::Entering { .. } => Request::SetRawMode(true),
            Session::Probing { .. } => Request::Probe,
            Session::Leaving { .. } => Request::ReadRawMode,
            Session::Restoring { raw_before, .. } => Request::SetRawMode(raw_before),
            Session::Draining { .. } => Request::Drain,
        }
    }

    /// The way out with `result`: the flag is read again.
    pub open spec fn leave(raw_before: bool, result: Result<T, Error>) -> Step<T> {
        Step::Ask(Session::Leaving { raw_before, result }, Request::ReadRawMode)
    }

    /// How a probe begins. Unless standard input, output and error are all
    /// a terminal it is over at once, unsupported, and nothing is touched;
    /// else the flag is read.
    pub open spec fn begin_spec(stdin: bool, stdout: bool, stderr: bool) -> Step<T> {
        if stdin && stdout && stderr {
            Step::Ask(Session::Arriving, Request::ReadRawMode)
        } else {
            Step::Finished(Err(Error::Unsupported))
        }
    }

    /// What follows an answer.
    ///
    /// On arrival, a flag that cannot be read ends the probe with that
    /// error; a flag that is off is switched on, and the probe runs once raw
    /// mode is on. Where switching on fails, the error is the result and the
    /// way out is taken. After the probe, its result is kept and the way out
    /// is taken: the flag is read again; where it differs from what it was
    /// on arrival, and where it cannot be read, it is switched to what it
    /// was; then the input is drained, and the probe ends with the result,
    /// whether switching back and draining went well or not.
    ///
    /// An answer to another request than the pending one is passed over, and
    /// the pending request is made again.
    pub open spec fn advance_spec(self, answer: Answer<T>) -> Step<T> {
        match (self, answer) {
            (Session::Arriving, Answer::RawMode(Err(e))) => Step::Finished(Err(e)),
            (Session::Arriving, Answer::RawMode(Ok(raw_before))) => if raw_before {
                Step::Ask(Session::Probing { raw_before }, Request::Probe)
            } else {
                Step::Ask(Session::Entering { raw_before }, Request::SetRawMode(true))
            },
            (Session::Entering { raw_before }, Answer::Done(Ok(_))) => Step::Ask(
                Session::Probing { raw_before },
                Request::Probe,
            ),
            (Session::Entering { raw_before }, Answer::Done(Err(e))) => Self::leave(
                raw_before,
                Err(e),
            ),
            (Session::Probing { raw_before }, Answer::Probed(result)) => Self::leave(
                raw_before,
                result,
            ),
            (Session::Leaving { raw_before, result }, Answer::RawMode(Err(_))) => Step::Ask(
                Session::Restoring { raw_before, result },
                Request::SetRawMode(raw_before),
            ),
            (Session::Leaving { raw_before, result }, Answer::RawMode(Ok(raw_now))) => {
                match restore_spec(raw_before, raw_now) {
                    RawModeChange::Keep => Step::Ask(Session::Draining { result }, Request::Drain),
                    _ => Step::Ask(
                        Session::Restoring { raw_before, result },
                        Request::SetRawMode(raw_before),
                    ),
                }
            },
            (Session::Restoring { raw_before, result }, Answer::Done(_)) => Step::Ask(
                Session::Draining { result },
                Request::Drain,
            ),
            (Session::Draining { result }, Answer::Done(_)) => Step::Finished(result),
            (session, _) => Step::Ask(session, session.pending()),
        }
    }

    /// Begins a probe. The arguments say of standard input, output and error
    /// whether each is a terminal.
    pub fn begin(stdin: bool, stdout: bool, stderr: bool) -> (step: Step<T>)
        ensures
            step == Self::begin_spec(stdin, stdout, stderr),
    {
        if stdin && stdout && stderr {
            Step::Ask(Session::Arriving, Request::ReadRawMode)
        } else {
            Step::Finished(Err(Error::Unsupported))
        }
    }

    /// Takes the host's answer to the pending request and says what follows.
    pub fn advance(self, answer: Answer<T>) -> (step: Step<T>)
        ensures
            step == self.advance_spec(answer),
    {
        match (self, answer) {
            (Session::Arriving, Answer::RawMode(Err(e))) => Step::Finished(Err(e)),
            (Session::Arriving, Answer::RawMode(Ok(raw_before))) => if raw_before {
                Step::Ask(Session::Probing { raw_before }, Request::Probe)
            } else {
                Step::Ask(Session::Entering { raw_before }, Request::SetRawMode(true))
            },
            (Session::Entering { raw_before }, Answer::Done(Ok(_))) => Step::Ask(
                Session::Probing { raw_before },
                Request::Probe,
            ),
            (Session::Entering { raw_before }, Answer::Done(Err(e))) => Step::Ask(
                Session::Leaving { raw_before, result: Err(e) },
                Request::ReadRawMode,
            ),
            (Session::Probing { raw_before }, Answer::Probed(result)) => Step::Ask(
                Session::Leaving { raw_before, result },
                Request::ReadRawMode,
            ),
            (Session::Leaving { raw_before, result }, Answer::RawMode(Err(_))) => Step::Ask(
                Session::Restoring { raw_before, result },
                Request::SetRawMode(raw_before),
            ),
            (Session::Leaving { raw_before, result }, Answer::RawMode(Ok(raw_now))) => {
                match restore_raw_status(raw_before, raw_now) {
                    RawModeChange::Keep => Step::Ask(Session::Draining { result }, Request::Drain),
                    _ => Step::Ask(
                        Session::Restoring { raw_before, result },
                        Request::SetRawMode(raw_before),
                    ),
                }
            },
            (Session::Restoring { raw_before, result }, Answer::Done(_)) => Step::Ask(
                Session::Draining { result },
                Request::Drain,
            ),
            (Session::Draining { result }, Answer::Done(_)) => Step::Finished(result),
            (Session::Arriving, _) => Step::Ask(Session::Arriving, Request::ReadRawMode),
            (Session::Entering { raw_before }, _) => Step::Ask(
                Session::Entering { raw_before },
                Request::SetRawMode(true),
            ),
            (Session::Probing { raw_before }, _) => Step::Ask(
                Session::Probing { raw_before },
                Request::Probe,
            ),
            (Session::Leaving { raw_before, result }, _) => Step::Ask(
                Session::Leaving { raw_before, result },
                Request::ReadRawMode,
            ),
            (Session::Restoring { raw_before, result }, _) => Step::Ask(
                Session::Restoring { raw_before, result },
                Request::SetRawMode(raw_before),
            ),
            (Session::Draining { result }, _) => Step::Ask(
                Session::Draining { result },
                Request::Drain,
            ),
        }
    }
}

/// A terminal and the probe that runs on it, as the guard meets them: the
/// raw-mode flag, what the probe gives and how it leaves the flag, and what
/// goes wrong. Reading the flag may fail on arrival and on the way out,
/// switching raw mode on may fail before the probe, and draining may fail;
/// switching the flag back does not. The rest is the count of what has
/// been served.
pub ghost struct Device<T> {
    pub raw: bool,
    pub probe: Result<T, Error>,
    pub raw_after_probe: bool,
    pub arrive_fault: Option<Error>,
    pub enter_fault: Option<Error>,
    pub leave_fault: Option<Error>,
    pub drain_fault: Option<Error>,
    pub reads: nat,
    pub switches: nat,
    pub probes: nat,
    pub drains: nat,
}

/// A device on which nothing has been served yet.
pub open spec fn untouched<T>(device: Device<T>) -> bool {
    device.reads == 0 && device.switches == 0 && device.probes == 0 && device.drains == 0
}

/// The device serves a request: it reports its flag, sets it, runs the
/// probe, which leaves the flag as it will, or drains its input. A fault
/// leaves the flag as it is.
pub open spec fn serve<T>(device: Device<T>, request: Request) -> (Device<T>, Answer<T>) {
    match request {
        Request::ReadRawMode => {
            let fault = if device.reads == 0 {
                device.arrive_fault
            } else {
                device.leave_fault
            };
            (
                Device { reads: device.reads + 1, ..device },
                Answer::RawMode(
                    match fault {
                        Some(e) => Err(e),
                        None => Ok(device.raw),
                    },
                ),
            )
        },
        Request::SetRawMode(raw) => {
            if device.switches == 0 && device.probes == 0 && device.enter_fault is Some {
                (
                    Device { switches: device.switches + 1, ..device },
                    Answer::Done(Err(device.enter_fault.unwrap())),
                )
            } else {
                (Device { raw, switches: device.switches + 1, ..device }, Answer::Done(Ok(())))
            }
        },
        Request::Probe => (
            Device { raw: device.raw_after_probe, probes: device.probes + 1, ..device },
            Answer::Probed(device.probe),
        ),
        Request::Drain => (
            Device { drains: device.drains + 1, ..device },
            Answer::Done(
                match device.drain_fault {
                    Some(e) => Err(e),
                    None => Ok(()),
                },
            ),
        ),
    }
}

/// The device serves the guard's requests, `fuel` of them at most: the
/// device as it is left, and the result if the probe came to its end.
pub open spec fn drive<T>(step: Step<T>, device: Device<T>, fuel: nat) -> (
    Device<T>,
    Option<Result<T, Error>>,
)
    decreases fuel,
{
    match step {
        Step::Finished(result) => (device, Some(result)),
        Step::Ask(session, request) => if fuel == 0 {
            (device, None)
        } else {
            let (next, answer) = serve(device, request);
            drive(session.advance_spec(answer), next, (fuel - 1) as nat)
        },
    }
}

/// What a probe under guard gives on a device: the error of reading the
/// flag on arrival, else the error of switching raw mode on where it was
/// off, else what the probe gives.
pub open spec fn guarded_result<T>(device: Device<T>) -> Result<T, Error> {
    if device.arrive_fault is Some {
        Err(device.arrive_fault.unwrap())
    } else if !device.raw && device.enter_fault is Some {
        Err(device.enter_fault.unwrap())
    } else {
        device.probe
    }
}

/// A probe under guard comes to its end within six requests, and the
/// raw-mode flag is then what it was before: whatever the flag was,
/// whatever the probe gave and however it left the flag, and whether or
/// not reading the flag, switching raw mode on or draining failed. The
/// result is `guarded_result`. The probe runs once at most, and not at all
/// where the flag could not be read or raw mode not be switched on. Unless
/// the flag could not be read on arrival, in which case nothing is
/// touched, the input is drained once, after the probe.
pub proof fn lemma_raw_mode_restored<T>(device: Device<T>)
    requires
        untouched(device),
    ensures
        drive(Session::<T>::begin_spec(true, true, true), device, 6).0.raw == device.raw,
        drive(Session::<T>::begin_spec(true, true, true), device, 6).1 == Some(
            guarded_result(device),
        ),
        drive(Session::<T>::begin_spec(true, true, true), device, 6).0.probes
            == if device.arrive_fault is None && (device.raw || device.enter_fault is None) {
            1nat
        } else {
            0nat
        },
        drive(Session::<T>::begin_spec(true, true, true), device, 6).0.drains
            == if device.arrive_fault is None {
            1nat
        } else {
            0nat
        },
        device.arrive_fault is Some ==> drive(
            Session::<T>::begin_spec(true, true, true),
            device,
            6,
        ).0.switches == 0,
{
    reveal_with_fuel(drive, 7);
}

/// Where one of standard input, output and error is no terminal, a probe
/// is over before any request is made: it is unsupported and the terminal is
/// not touched.
pub proof fn lemma_not_interactive<T>(
    stdin: bool,
    stdout: bool,
    stderr: bool,
    device: Device<T>,
    fuel: nat,
)
    requires
        !(stdin && stdout && stderr),
    ensures
        drive(Session::<T>::begin_spec(stdin, stdout, stderr), device, fuel) == (
            device,
            Some(Err::<T, Error>(Error::Unsupported)),
        ),
{
}

} // verus!
