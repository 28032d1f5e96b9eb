//! The latency probe: a device status report is asked for, and the time
//! until its last byte arrives is the latency of the terminal.

use vstd::prelude::*;
use std::time::Duration;
use crate::clock::from_millis;
use crate::clock::millis;
use crate::error::Error;
use crate::terminal::Terminal;

verus! {

/// The byte that ends a device status report: `n`.
pub const REPORT_END: u8 = 0x6e;

/// The query for a device status report: `ESC [ 5 n`.
pub open spec fn latency_query_spec() -> Seq<char> {
    seq!['\x1b', '[', '5', 'n']
}

/// The query for a device status report.
pub fn latency_query() -> (query: &'static str)
    ensures
        query@ == latency_query_spec(),
{
    proof {
        reveal_strlit("\x1b[5n");
        assert("\x1b[5n"@ =~= latency_query_spec());
    }
    "\x1b[5n"
}

/// What the probe asks of the host.
#[derive(Copy, Clone, Debug, PartialEq, Eq, Structural)]
pub enum ProbeRequest {
    /// Write the query to the terminal and flush it; the clock starts.
    Send,
    /// Switch raw mode on.
    EnableRawMode,
    /// Say whether the deadline has passed.
    CheckDeadline,
    /// Read one byte of the report.
    ReadByte,
    /// Switch raw mode off.
    DisableRawMode,
}

/// What the host reports back.
#[derive(Debug)]
pub enum ProbeAnswer {
    /// To `Send`, `EnableRawMode` and `DisableRawMode`: whether it was done.
    Done(Result<(), Error>),
    /// To `CheckDeadline`: whether the deadline has passed.
    Deadline(bool),
    /// To `ReadByte`: the byte, or none where nothing could be read.
    Byte(Option<u8>),
}

/// Where a latency probe stands, and with it the request that the host has
/// been handed and not yet answered.
#[derive(Copy, Clone, Debug, PartialEq, Eq, Structural)]
pub enum LatencyProbe {
    /// Asked to send the query.
    Sending,
    /// Asked to switch raw mode on.
    Entering,
    /// Asked whether the deadline has passed.
    Checking,
    /// Asked for a byte.
    Reading,
    /// Asked to switch raw mode off, the deadline having passed.
    GivingUp,
}

/// The next thing to happen.
#[derive(Debug)]
pub enum ProbeStep {
    /// The host is to serve the request and hand the answer to the probe.
    Ask(LatencyProbe, ProbeRequest),
    /// The report is complete: the latency is the time since the query was
    /// sent.
    Complete,
    /// The probe has failed.
    Failed(Error),
}

impl LatencyProbe {
    /// The request that the probe waits to have answered.
    pub open spec fn pending(self) -> ProbeRequest {
        match self {
            LatencyProbe::Sending => ProbeRequest::Send,
            LatencyProbe::Entering => ProbeRequest::EnableRawMode,
            LatencyProbe::Checking => ProbeRequest::CheckDeadline,
            LatencyProbe::Reading => ProbeRequest::ReadByte,
            LatencyProbe::GivingUp => ProbeRequest::DisableRawMode,
        }
    }

    /// How a probe begins: the query is sent.
    pub open spec fn begin_spec() -> ProbeStep {
        ProbeStep::Ask(LatencyProbe::Sending, ProbeRequest::Send)
    }

    /// What follows an answer.
    ///
    /// The query is sent, then raw mode is switched on; where either fails,
    /// so does the probe, with that error. Then, in turn, the deadline is
    /// checked and a byte is read, until the byte is the `n` that ends the
    /// report, which completes the probe. A read that gives nothing is
    /// passed over. Once the deadline has passed, raw mode is switched off
    /// and the probe fails: with a timeout, or with the error of switching.
    ///
    /// An answer to another request than the pending one is passed over, and
    /// the pending request is made again.
    pub open spec fn advance_spec(self, answer: ProbeAnswer) -> ProbeStep {
        match (self, answer) {
            (LatencyProbe::Sending, ProbeAnswer::Done(Ok(_))) => ProbeStep::Ask(
                LatencyProbe::Entering,
                ProbeRequest::EnableRawMode,
            ),
            (LatencyProbe::Sending, ProbeAnswer::Done(Err(e))) => ProbeStep::Failed(e),
            (LatencyProbe::Entering, ProbeAnswer::Done(Ok(_))) => ProbeStep::Ask(
                LatencyProbe::Checking,
                ProbeRequest::CheckDeadline,
            ),
            (LatencyProbe::Entering, ProbeAnswer::Done(Err(e))) => ProbeStep::Failed(e),
            (LatencyProbe::Checking, ProbeAnswer::Deadline(passed)) => if passed {
                ProbeStep::Ask(LatencyProbe::GivingUp, ProbeRequest::DisableRawMode)
            } else {
                ProbeStep::Ask(LatencyProbe::Reading, ProbeRequest::ReadByte)
            },
            (LatencyProbe::Reading, ProbeAnswer::Byte(read)) => if read == Some(REPORT_END) {
                ProbeStep::Complete
            } else {
                ProbeStep::Ask(LatencyProbe::Checking, ProbeRequest::CheckDeadline)
            },
            (LatencyProbe::GivingUp, ProbeAnswer::Done(Ok(_))) => ProbeStep::Failed(
                Error::Timeout,
            ),
            (LatencyProbe::GivingUp, ProbeAnswer::Done(Err(e))) => ProbeStep::Failed(e),
            (probe, _) => ProbeStep::Ask(probe, probe.pending()),
        }
    }

    /// Begins a probe.
    pub fn begin() -> (step: ProbeStep)
        ensures
            step == Self::begin_spec(),
    {
        ProbeStep::Ask(LatencyProbe::Sending, ProbeRequest::Send)
    }

    /// The request that the probe waits to have answered.
    fn request(self) -> (request: ProbeRequest)
        ensures
            request == self.pending(),
    {
        match self {
            LatencyProbe::Sending => ProbeRequest::Send,
            LatencyProbe::Entering => ProbeRequest::EnableRawMode,
            LatencyProbe::Checking => ProbeRequest::CheckDeadline,
            LatencyProbe::Reading => ProbeRequest::ReadByte,
            LatencyProbe::GivingUp => ProbeRequest::DisableRawMode,
        }
    }

    /// Takes the host's answer to the pending request and says what follows.
    pub fn advance(self, answer: ProbeAnswer) -> (step: ProbeStep)
        ensures
            step == self.advance_spec(answer),
    {
        match (self, answer) {
            (LatencyProbe::Sending, ProbeAnswer::Done(Ok(_))) => ProbeStep::Ask(
                LatencyProbe::Entering,
                ProbeRequest::EnableRawMode,
            ),
            (LatencyProbe::Sending, ProbeAnswer::Done(Err(e))) => ProbeStep::Failed(e),
            (LatencyProbe::Entering, ProbeAnswer::Done(Ok(_))) => ProbeStep::Ask(
                LatencyProbe::Checking,
                ProbeRequest::CheckDeadline,
            ),
            (LatencyProbe::Entering, ProbeAnswer::Done(Err(e))) => ProbeStep::Failed(e),
            (LatencyProbe::Checking, ProbeAnswer::Deadline(passed)) => if passed {
                ProbeStep::Ask(LatencyProbe::GivingUp, ProbeRequest::DisableRawMode)
            } else {
                ProbeStep::Ask(LatencyProbe::Reading, ProbeRequest::ReadByte)
            },
            (LatencyProbe::Reading, ProbeAnswer::Byte(Some(byte))) => if byte == REPORT_END {
                ProbeStep::Complete
            } else {
                ProbeStep::Ask(LatencyProbe::Checking, ProbeRequest::CheckDeadline)
            },
            (LatencyProbe::Reading, ProbeAnswer::Byte(None)) => ProbeStep::Ask(
                LatencyProbe::Checking,
                ProbeRequest::CheckDeadline,
            ),
            (LatencyProbe::GivingUp, ProbeAnswer::Done(Ok(_))) => ProbeStep::Failed(
                Error::Timeout,
            ),
            (LatencyProbe::GivingUp, ProbeAnswer::Done(Err(e))) => ProbeStep::Failed(e),
            (probe, _) => ProbeStep::Ask(probe, probe.request()),
        }
    }
}

/// A terminal that does what it is asked, as a latency probe meets it: what
/// each read will give, in order, and the number of reads for which the
/// deadline leaves time.
pub ghost struct Line {
    pub reads: Seq<Option<u8>>,
    pub patience: nat,
}

/// The line serves a request. Each read takes the next of `reads`, or
/// nothing once they are used up, and uses up one of `patience`; the
/// deadline has passed when none is left.
pub open spec fn serve(line: Line, request: ProbeRequest) -> (Line, ProbeAnswer) {
    match request {
        ProbeRequest::CheckDeadline => (line, ProbeAnswer::Deadline(line.patience == 0)),
        ProbeRequest::ReadByte => (
            Line {
                reads: if line.reads.len() > 0 {
                    line.reads.drop_first()
                } else {
                    line.reads
                },
                patience: if line.patience > 0 {
                    (line.patience - 1) as nat
                } else {
                    0
                },
            },
            ProbeAnswer::Byte(
                if line.reads.len() > 0 {
                    line.reads[0]
                } else {
                    None
                },
            ),
        ),
        _ => (line, ProbeAnswer::Done(Ok(()))),
    }
}

/// The line serves the probe's requests, `fuel` of them at most: how the
/// probe ends, if it does.
pub open spec fn drive(step: ProbeStep, line: Line, fuel: nat) -> Option<Result<(), Error>>
    decreases fuel,
{
    match step {
        ProbeStep::Complete => Some(Ok(())),
        ProbeStep::Failed(e) => Some(Err(e)),
        ProbeStep::Ask(probe, request) => if fuel == 0 {
            None
        } else {
            let (next, answer) = serve(line, request);
            drive(probe.advance_spec(answer), next, (fuel - 1) as nat)
        },
    }
}

/// The report ends within the first `count` reads: one of them gives the
/// `n`.
pub open spec fn ends_within(reads: Seq<Option<u8>>, count: nat) -> bool {
    exists|i: int| 0 <= i < count && i < reads.len() && reads[i] == Some(REPORT_END)
}

/// From the first check of the deadline on, a probe completes where the
/// report ends within the reads that the deadline leaves time for, and
/// times out where it does not.
proof fn lemma_probe_from_check(line: Line, fuel: nat)
    requires
        fuel >= 2 * line.patience + 2,
    ensures
        drive(ProbeStep::Ask(LatencyProbe::Checking, ProbeRequest::CheckDeadline), line, fuel)
            == Some(
            if ends_within(line.reads, line.patience) {
                Ok::<(), Error>(())
            } else {
                Err::<(), Error>(Error::Timeout)
            },
        ),
    decreases line.patience,
{
    reveal_with_fuel(drive, 3);
    if line.patience == 0 {
    } else {
        let (next, answer) = serve(line, ProbeRequest::ReadByte);
        if line.reads.len() > 0 && line.reads[0] == Some(REPORT_END) {
            assert(ends_within(line.reads, line.patience));
        } else {
            lemma_probe_from_check(next, (fuel - 2) as nat);
            if ends_within(next.reads, next.patience) {
                let i = choose|i: int|
                    0 <= i < next.patience && i < next.reads.len() && next.reads[i] == Some(
                        REPORT_END,
                    );
                assert(line.reads[i + 1] == next.reads[i]);
            }
            if ends_within(line.reads, line.patience) {
                let i = choose|i: int|
                    0 <= i < line.patience && i < line.reads.len() && line.reads[i] == Some(
                        REPORT_END,
                    );
                assert(i > 0);
                assert(next.reads[i - 1] == line.reads[i]);
            }
        }
    }
}

/// On a terminal that does what it is asked, a latency probe completes
/// where the `n` that ends the report is among the bytes read before the
/// deadline, and else times out; one or the other within two requests for
/// each read and four more.
pub proof fn lemma_probe_outcome(line: Line)
    ensures
        drive(LatencyProbe::begin_spec(), line, 2 * line.patience + 4) == Some(
            if ends_within(line.reads, line.patience) {
                Ok::<(), Error>(())
            } else {
                Err::<(), Error>(Error::Timeout)
            },
        ),
{
    reveal_with_fuel(drive, 3);
    lemma_probe_from_check(line, 2 * line.patience + 2);
}

/// Whether the latency of a terminal of family `term` can be measured: not
/// that of Emacs, and not that of the legacy Windows console.
pub open spec fn measures_latency_spec(term: Terminal) -> bool {
    term != Terminal::Emacs && term != Terminal::Windows
}

/// Whether the latency of a terminal of family `term` can be measured.
pub fn measures_latency(term: Terminal) -> (measured: bool)
    ensures
        measured == measures_latency_spec(term),
{
    match term {
        Terminal::Emacs => false,
        Terminal::Windows => false,
        _ => true,
    }
}

/// get terminal latency
///
/// `measured` is what the probe gave. It counts for the families whose
/// latency can be measured; for the others the latency is zero, whatever
/// was given.
pub fn latency(term: Terminal, measured: Result<Duration, Error>) -> (res: Result<
    Duration,
    Error,
>)
    ensures
        res == if measures_latency_spec(term) {
            measured
        } else {
            Ok(millis(0))
        },
{
    if measures_latency(term) {
        measured
    } else {
        Ok(from_millis(0))
    }
}

} // verus!
