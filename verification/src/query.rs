//! The background-colour query: what is sent to each family of terminal,
//! and how the events that come back become a colour.

use vstd::prelude::*;
use std::time::Duration;
use crate::clock::Deadline;
use crate::clock::from_millis;
use crate::clock::longer;
use crate::clock::millis;
use crate::color::Rgb;
use crate::error::Error;
use crate::error::Failure;
use crate::error::outcome;
use crate::event::Call;
use crate::event::Event;
use crate::event::EventReader;
use crate::event::KeyCode;
use crate::event::KeyEvent;
use crate::event::KeyModifiers;
use crate::event::Recorded;
use crate::response::contains_marker;
use crate::response::decode_unterminated;
use crate::response::decode_unterminated_spec;
use crate::response::first_marker;
use crate::response::lemma_decode_unterminated_recovers;
use crate::response::lemma_parse_from_marker;
use crate::response::uniform_groups;
use crate::response::parse_response;
use crate::response::parse_response_spec;
use crate::terminal::Terminal;

verus! {

/// The longest single wait for an event, in milliseconds.
pub const POLL_QUANTUM_MS: u64 = 100;

/// The number of rounds after which a query ends as if its deadline had
/// passed, whatever the clock says.
pub const MAX_ROUNDS: u64 = 0xffff_ffff_ffff_ffff;

/// The bare query for the background colour: `ESC ] 1 1 ; ? ESC \`.
pub open spec fn bare_query() -> Seq<char> {
    seq!['\x1b', ']', '1', '1', ';', '?', '\x1b', '\\']
}

/// The query wrapped for passing through screen:
/// `ESC P ESC ] 1 1 ; ? BEL ESC \`.
pub open spec fn screen_query() -> Seq<char> {
    seq!['\x1b', 'P', '\x1b', ']', '1', '1', ';', '?', '\x07', '\x1b', '\\']
}

/// The query wrapped for passing through tmux:
/// `ESC P t m u x ; ESC ESC ] 1 1 ; ? BEL ESC \`.
pub open spec fn tmux_query() -> Seq<char> {
    seq![
        '\x1b',
        'P',
        't',
        'm',
        'u',
        'x',
        ';',
        '\x1b',
        '\x1b',
        ']',
        '1',
        '1',
        ';',
        '?',
        '\x07',
        '\x1b',
        '\\',
    ]
}

/// The query for the background colour, as the family of `term` takes it:
/// wrapped for passing through tmux or screen, bare for the others.
pub open spec fn query_sequence_spec(term: Terminal) -> Seq<char> {
    match term {
        Terminal::Tmux => tmux_query(),
        Terminal::Screen => screen_query(),
        _ => bare_query(),
    }
}

/// The escape sequence that asks a terminal of family `term` for its
/// background colour.
pub fn query_sequence(term: Terminal) -> (query: &'static str)
    ensures
        query@ == query_sequence_spec(term),
{
    proof {
        reveal_strlit("\x1bPtmux;\x1b\x1b]11;?\x07\x1b\\");
        reveal_strlit("\x1bP\x1b]11;?\x07\x1b\\");
        reveal_strlit("\x1b]11;?\x1b\\");
        assert("\x1bPtmux;\x1b\x1b]11;?\x07\x1b\\"@ =~= tmux_query());
        assert("\x1bP\x1b]11;?\x07\x1b\\"@ =~= screen_query());
        assert("\x1b]11;?\x1b\\"@ =~= bare_query());
    }
    match term {
        Terminal::Tmux => "\x1bPtmux;\x1b\x1b]11;?\x07\x1b\\",
        Terminal::Screen => "\x1bP\x1b]11;?\x07\x1b\\",
        _ => "\x1b]11;?\x1b\\",
    }
}

/// What an event means to a query.
#[derive(Copy, Clone, Debug, PartialEq, Eq, Structural)]
pub enum KeyClass {
    /// The reply is complete.
    Terminator,
    /// A character of the reply.
    Text(char),
    /// Nothing.
    Ignored,
}

/// The event ends a reply: the string terminator, which arrives as `\` with
/// alt or with no modifier, or the bell, which arrives as control-`g` or as
/// the bare character 7.
pub open spec fn is_terminator(event: Event) -> bool {
    match event {
        Event::Key(key) => {
            ||| key.code == KeyCode::Char('\\') && key.modifiers.bits == KeyModifiers::ALT_BIT
            ||| key.code == KeyCode::Char('\\') && key.modifiers.bits == 0
            ||| key.code == KeyCode::Char('g') && key.modifiers.bits
                == KeyModifiers::CONTROL_BIT
            ||| key.code == KeyCode::Char('\x07') && key.modifiers.bits == 0
        },
        Event::Other => false,
    }
}

/// What an event means to a query: a terminator, else the character of a key
/// pressed with no modifier, else nothing.
pub open spec fn classify_spec(event: Event) -> KeyClass {
    if is_terminator(event) {
        KeyClass::Terminator
    } else {
        match event {
            Event::Key(key) => match key.code {
                KeyCode::Char(c) => if key.modifiers.bits == 0 {
                    KeyClass::Text(c)
                } else {
                    KeyClass::Ignored
                },
                KeyCode::Other => KeyClass::Ignored,
            },
            Event::Other => KeyClass::Ignored,
        }
    }
}

/// What an event means to a query.
pub fn classify(event: &Event) -> (class: KeyClass)
    ensures
        class == classify_spec(*event),
{
    match event {
        Event::Key(key) => match key.code {
            KeyCode::Char(c) => {
                let bits = key.modifiers.bits;
                if (c == '\\' && (bits == KeyModifiers::ALT_BIT || bits == 0)) || (c == 'g'
                    && bits == KeyModifiers::CONTROL_BIT) || (c == '\x07' && bits == 0) {
                    KeyClass::Terminator
                } else if bits == 0 {
                    KeyClass::Text(c)
                } else {
                    KeyClass::Ignored
                }
            },
            KeyCode::Other => KeyClass::Ignored,
        },
        Event::Other => KeyClass::Ignored,
    }
}

/// What a query returns when its deadline passes with `buffer` gathered: the
/// colour recovered from a reply that holds the marker, and `Timeout`
/// where no marker came.
pub open spec fn deadline_outcome(buffer: Seq<char>) -> Result<Rgb, Failure> {
    if first_marker(buffer) is Some {
        match decode_unterminated_spec(buffer) {
            Ok(reply) => parse_response_spec(reply),
            Err(f) => Err(f),
        }
    } else {
        Err(Failure::Timeout)
    }
}

/// How far a query has come.
pub ghost enum Progress {
    /// Still gathering; the text so far.
    Reading(Seq<char>),
    /// Ended by a terminator, with this result.
    Finished(Result<Rgb, Failure>),
}

/// One event on top of the text gathered so far.
pub open spec fn step(buffer: Seq<char>, event: Event) -> Progress {
    match classify_spec(event) {
        KeyClass::Terminator => Progress::Finished(parse_response_spec(buffer)),
        KeyClass::Text(c) => Progress::Reading(buffer.push(c)),
        KeyClass::Ignored => Progress::Reading(buffer),
    }
}

/// Where a query stands after `events`, taken in order from an empty buffer.
/// Events after the first terminator change nothing.
pub open spec fn run(events: Seq<Event>) -> Progress
    decreases events.len(),
{
    if events.len() == 0 {
        Progress::Reading(Seq::empty())
    } else {
        match run(events.drop_last()) {
            Progress::Finished(r) => Progress::Finished(r),
            Progress::Reading(buffer) => step(buffer, events.last()),
        }
    }
}

/// The result of a query that received `events` before its deadline.
pub open spec fn query_outcome(events: Seq<Event>) -> Result<Rgb, Failure> {
    match run(events) {
        Progress::Finished(r) => r,
        Progress::Reading(buffer) => deadline_outcome(buffer),
    }
}

/// Where a query stands after `events`, taken in order on top of the text
/// `buffer`.
pub open spec fn run_from(buffer: Seq<char>, events: Seq<Event>) -> Progress
    decreases events.len(),
{
    if events.len() == 0 {
        Progress::Reading(buffer)
    } else {
        match run_from(buffer, events.drop_last()) {
            Progress::Finished(r) => Progress::Finished(r),
            Progress::Reading(text) => step(text, events.last()),
        }
    }
}

/// The result of a query that held the text `buffer` and then received
/// `events` before its deadline.
pub open spec fn outcome_from(buffer: Seq<char>, events: Seq<Event>) -> Result<Rgb, Failure> {
    match run_from(buffer, events) {
        Progress::Finished(r) => r,
        Progress::Reading(text) => deadline_outcome(text),
    }
}

/// A query that starts on an empty buffer is a query.
pub proof fn lemma_run_from_empty(events: Seq<Event>)
    ensures
        run_from(Seq::empty(), events) == run(events),
        outcome_from(Seq::empty(), events) == query_outcome(events),
    decreases events.len(),
{
    if events.len() > 0 {
        lemma_run_from_empty(events.drop_last());
    }
}

/// What has been added to a record that was `before` and is `now`.
pub open spec fn since<T>(before: Seq<T>, now: Seq<T>) -> Seq<T> {
    now.skip(before.len() as int)
}

/// A record that had `added` appended begins as it was, and what it holds
/// since is `added`.
proof fn lemma_since<T>(before: Seq<T>, now: Seq<T>, added: Seq<T>)
    requires
        now == before + added,
    ensures
        before.is_prefix_of(now),
        since(before, now) == added,
{
    assert(now.skip(before.len() as int) =~= added);
    assert(now.subrange(0, before.len() as int) =~= before);
}

/// The text of a reply as it arrives, event by event.
pub struct ResponseBuffer {
    text: String,
}

impl View for ResponseBuffer {
    type V = Seq<char>;

    closed spec fn view(&self) -> Seq<char> {
        self.text@
    }
}

impl ResponseBuffer {
    /// An empty buffer.
    pub fn new() -> (buffer: ResponseBuffer)
        ensures
            buffer@ == Seq::<char>::empty(),
    {
        ResponseBuffer { text: String::new() }
    }

    /// The text gathered so far.
    pub fn as_str(&self) -> (text: &str)
        ensures
            text@ == self@,
    {
        self.text.as_str()
    }

    /// Takes one event. A terminator ends the query with the colour that the
    /// gathered text reports; a character is appended; anything else is
    /// passed over.
    pub fn on_event(&mut self, event: &Event) -> (done: Option<Result<Rgb, Error>>)
        ensures
            match step(old(self)@, *event) {
                Progress::Finished(r) => final(self)@ == old(self)@ && done is Some && outcome(
                    done.unwrap(),
                ) == r,
                Progress::Reading(buffer) => final(self)@ == buffer && done is None,
            },
    {
        match classify(event) {
            KeyClass::Terminator => Some(parse_response(self.text.as_str())),
            KeyClass::Text(c) => {
                self.text.push(c);
                None
            },
            KeyClass::Ignored => None,
        }
    }

    /// Ends the query at its deadline. A reply that holds the marker but
    /// lost its terminator is recovered; without a marker the query has
    /// timed out.
    pub fn on_deadline(&self) -> (res: Result<Rgb, Error>)
        ensures
            outcome(res) == deadline_outcome(self@),
    {
        let text = self.text.as_str();
        if contains_marker(text) {
            match decode_unterminated(text) {
                Ok(reply) => parse_response(reply),
                Err(e) => Err(e),
            }
        } else {
            Err(Error::Timeout)
        }
    }
}

/// The result of a query that receives `events`, all of them before its
/// deadline: what the text gathered reports when a terminator arrives, and
/// else what the deadline makes of the text of them all.
pub fn query_events(events: &Vec<Event>) -> (res: Result<Rgb, Error>)
    ensures
        outcome(res) == query_outcome(events@),
{
    let mut response = ResponseBuffer::new();
    let mut i: usize = 0;
    assert(events@.take(0) == Seq::<Event>::empty());
    while i < events.len()
        invariant
            i <= events.len(),
            run(events@.take(i as int)) == Progress::Reading(response@),
        decreases events.len() - i,
    {
        proof {
            let head = events@.take(i + 1);
            assert(head.drop_last() == events@.take(i as int));
            assert(head.last() == events@[i as int]);
        }
        match response.on_event(&events[i]) {
            Some(res) => {
                proof {
                    let head = events@.take(i + 1);
                    lemma_finished_stays(head, events@.skip(i + 1));
                    assert(head + events@.skip(i + 1) == events@);
                }
                return res;
            },
            None => {},
        }
        i += 1;
    }
    assert(events@.take(events.len() as int) == events@);
    response.on_deadline()
}

/// Where the rounds of a query stand after the calls it has made to its
/// reader.
pub ghost enum Stage {
    /// A round is over: the next call is a poll.
    Polling,
    /// A poll has reported an event: the next call takes it.
    Taking,
    /// A call has failed, with this error: there is no next call.
    Failed(Error),
    /// The calls are not the rounds of a query.
    Astray,
}

/// Where the rounds of a query stand after `calls`. A round is a poll with
/// the quantum and, where the poll reports an event, the read that takes
/// it; no read is made without such a poll before it, and no call after
/// one that failed.
pub open spec fn stage(calls: Seq<Call>) -> Stage
    decreases calls.len(),
{
    if calls.len() == 0 {
        Stage::Polling
    } else {
        match (stage(calls.drop_last()), calls.last()) {
            (Stage::Polling, Call::Polled { timeout, ready }) => {
                if timeout != millis(POLL_QUANTUM_MS) {
                    Stage::Astray
                } else {
                    match ready {
                        Ok(ready) => if ready {
                            Stage::Taking
                        } else {
                            Stage::Polling
                        },
                        Err(e) => Stage::Failed(e),
                    }
                }
            },
            (Stage::Taking, Call::Read { event }) => match event {
                Ok(_) => Stage::Polling,
                Err(e) => Stage::Failed(e),
            },
            _ => Stage::Astray,
        }
    }
}

/// The events that `calls` took from the reader, in order.
pub open spec fn events_of(calls: Seq<Call>) -> Seq<Event>
    decreases calls.len(),
{
    if calls.len() == 0 {
        Seq::empty()
    } else {
        match calls.last() {
            Call::Read { event: Ok(event) } => events_of(calls.drop_last()).push(event),
            _ => events_of(calls.drop_last()),
        }
    }
}

/// The number of polls among `calls`.
pub open spec fn polls_of(calls: Seq<Call>) -> nat
    decreases calls.len(),
{
    if calls.len() == 0 {
        0
    } else {
        polls_of(calls.drop_last()) + if calls.last() is Polled {
            1nat
        } else {
            0nat
        }
    }
}

/// The clock left time at a reading: the time gone by was not longer than
/// the time allowed.
pub open spec fn left_time(allowed: Duration, reading: Duration) -> bool {
    !longer(reading, allowed)
}

/// How a query keeps to its deadline, `readings` being the readings of the
/// clock that it made and `calls` its calls to the reader.
///
/// The clock is read at the start of each round, `MAX_ROUNDS` times at
/// most. Every reading but the last left time, and after each reading that
/// left time the reader was polled once. A query that ended with a failure
/// of the reader or with a terminator did so in a round whose reading left
/// time. A query that ended otherwise read the clock at least once, and
/// ended because its last reading left no time, or because it was the last
/// of `MAX_ROUNDS`.
pub open spec fn keeps_deadline(
    allowed: Duration,
    readings: Seq<Duration>,
    calls: Seq<Call>,
    terminated: bool,
) -> bool {
    &&& readings.len() <= MAX_ROUNDS
    &&& forall|i: int| 0 <= i < readings.len() - 1 ==> left_time(allowed, #[trigger] readings[i])
    &&& polls_of(calls) == if readings.len() > 0 && !left_time(allowed, readings.last()) {
        readings.len() - 1
    } else {
        readings.len() as int
    }
    &&& readings.len() > 0
    &&& if stage(calls) is Failed || terminated {
        left_time(allowed, readings.last())
    } else {
        !left_time(allowed, readings.last()) || readings.len() == MAX_ROUNDS
    }
}

/// Reads the reply to a query that has just been sent and returns the colour
/// that it reports.
///
/// In each round the clock is held against the deadline, and while time is
/// left the reader is polled for at most `POLL_QUANTUM_MS` and the event
/// that is there is taken: a terminator ends the query with the colour of
/// the text gathered, a character joins the text, anything else is passed
/// over. Once the clock shows the deadline passed, or after `MAX_ROUNDS`
/// rounds, the query ends as `ResponseBuffer::on_deadline` says. An error
/// of the reader ends it at once and is returned as it came.
///
/// The text is gathered in `response`, after what it holds already. What
/// the clock shows and what the reader gives is theirs to say; the records
/// of the deadline and of the reader hold what they said, and the contract
/// says what the query made of it: which calls it made and when it ended,
/// the text that the events taken leave, and the result.
pub fn query_xterm<R: EventReader>(
    deadline: &mut Deadline,
    event_reader: &mut Recorded<R>,
    response: &mut ResponseBuffer,
) -> (res: Result<Rgb, Error>)
    ensures
        final(deadline).allowed() == old(deadline).allowed(),
        final(event_reader).source() == old(event_reader).source(),
        old(deadline).readings().is_prefix_of(final(deadline).readings()),
        old(event_reader).calls().is_prefix_of(final(event_reader).calls()),
        stage(since(old(event_reader).calls(), final(event_reader).calls())) is Polling || stage(
            since(old(event_reader).calls(), final(event_reader).calls()),
        ) is Failed,
        keeps_deadline(
            old(deadline).allowed(),
            since(old(deadline).readings(), final(deadline).readings()),
            since(old(event_reader).calls(), final(event_reader).calls()),
            run_from(
                old(response)@,
                events_of(since(old(event_reader).calls(), final(event_reader).calls())),
            ) is Finished,
        ),
        match run_from(
            old(response)@,
            events_of(since(old(event_reader).calls(), final(event_reader).calls())),
        ) {
            Progress::Reading(text) => final(response)@ == text,
            Progress::Finished(_) => {
                let calls = since(old(event_reader).calls(), final(event_reader).calls());
                &&& calls.len() > 0
                &&& calls.last() is Read
                &&& events_of(calls).len() > 0
                &&& run_from(old(response)@, events_of(calls).drop_last()) == Progress::Reading(
                    final(response)@,
                )
            },
        },
        match stage(since(old(event_reader).calls(), final(event_reader).calls())) {
            Stage::Failed(e) => res == Err::<Rgb, Error>(e) && run_from(
                old(response)@,
                events_of(since(old(event_reader).calls(), final(event_reader).calls())),
            ) is Reading,
            _ => outcome(res) == outcome_from(
                old(response)@,
                events_of(since(old(event_reader).calls(), final(event_reader).calls())),
            ),
        },
        old(response)@.is_prefix_of(final(response)@),
        res matches Ok(rgb) ==> parse_response_spec(final(response)@) == Ok::<Rgb, Failure>(rgb)
            || deadline_outcome(final(response)@) == Ok::<Rgb, Failure>(rgb),
{
    let mut rounds: u64 = 0;
    let ghost allowed = deadline.allowed();
    let ghost mut calls: Seq<Call> = Seq::empty();
    let ghost mut readings: Seq<Duration> = Seq::empty();
    let ghost mut events: Seq<Event> = Seq::empty();
    proof {
        assert(event_reader.calls() + calls == event_reader.calls());
        assert(deadline.readings() + readings == deadline.readings());
    }
    while rounds < MAX_ROUNDS
        invariant
            deadline.allowed() == allowed,
            allowed == old(deadline).allowed(),
            event_reader.source() == old(event_reader).source(),
            event_reader.calls() == old(event_reader).calls() + calls,
            deadline.readings() == old(deadline).readings() + readings,
            readings.len() == rounds,
            forall|i: int| 0 <= i < readings.len() ==> left_time(allowed, #[trigger] readings[i]),
            stage(calls) == Stage::Polling,
            polls_of(calls) == readings.len(),
            events_of(calls) == events,
            run_from(old(response)@, events) == Progress::Reading(response@),
            old(response)@.is_prefix_of(response@),
        decreases MAX_ROUNDS - rounds,
    {
        rounds += 1;
        let ghost readings_before = readings;
        let passed = deadline.passed();
        proof {
            let reading = deadline.readings().last();
            readings = readings.push(reading);
            assert(deadline.readings() == deadline.readings().drop_last().push(reading));
            assert(old(deadline).readings() + readings_before.push(reading) == (old(
                deadline,
            ).readings() + readings_before).push(reading));
            assert(readings.drop_last() == readings_before);
            lemma_since(old(event_reader).calls(), event_reader.calls(), calls);
            lemma_since(old(deadline).readings(), deadline.readings(), readings);
        }
        if passed {
            return response.on_deadline();
        }
        let quantum = from_millis(POLL_QUANTUM_MS);
        let ghost calls_before = calls;
        let polled = event_reader.poll(quantum);
        proof {
            let call = Call::Polled { timeout: quantum, ready: polled };
            calls = calls.push(call);
            assert(calls.drop_last() == calls_before);
            assert(calls.last() == call);
            assert(old(event_reader).calls() + calls_before.push(call) == (old(
                event_reader,
            ).calls() + calls_before).push(call));
            lemma_since(old(event_reader).calls(), event_reader.calls(), calls);
            assert(events_of(calls) == events);
            assert(polls_of(calls) == readings.len());
            assert(stage(calls) == match polled {
                Ok(ready) => if ready {
                    Stage::Taking
                } else {
                    Stage::Polling
                },
                Err(e) => Stage::Failed(e),
            });
        }
        let ready = match polled {
            Ok(ready) => ready,
            Err(e) => {
                return Err(e);
            },
        };
        if ready {
            let ghost calls_polled = calls;
            let taken = event_reader.read_event();
            proof {
                let call = Call::Read { event: taken };
                calls = calls.push(call);
                assert(calls.drop_last() == calls_polled);
                assert(calls.last() == call);
                assert(old(event_reader).calls() + calls_polled.push(call) == (old(
                    event_reader,
                ).calls() + calls_polled).push(call));
                lemma_since(old(event_reader).calls(), event_reader.calls(), calls);
                assert(polls_of(calls) == readings.len());
                assert(stage(calls) == match taken {
                    Ok(_) => Stage::Polling,
                    Err(e) => Stage::Failed(e),
                });
                assert(events_of(calls) == match taken {
                    Ok(event) => events.push(event),
                    Err(_) => events,
                });
            }
            let event = match taken {
                Ok(event) => event,
                Err(e) => {
                    return Err(e);
                },
            };
            let ghost events_before = events;
            let ghost text_before = response@;
            proof {
                events = events.push(event);
                assert(events.drop_last() == events_before);
            }
            let done = response.on_event(&event);
            assert(text_before.is_prefix_of(response@)) by {
                assert(response@.subrange(0, text_before.len() as int) =~= text_before);
            }
            match done {
                Some(res) => {
                    return res;
                },
                None => {},
            }
        }
    }
    proof {
        lemma_since(old(event_reader).calls(), event_reader.calls(), calls);
        lemma_since(old(deadline).readings(), deadline.readings(), readings);
    }
    response.on_deadline()
}

/// The events that end a reply: `\` with alt, `\` alone, `g` with control,
/// and the bell character alone.
pub proof fn lemma_terminator_classes()
    ensures
        is_terminator(
            Event::Key(
                KeyEvent {
                    code: KeyCode::Char('\\'),
                    modifiers: KeyModifiers { bits: KeyModifiers::ALT_BIT },
                },
            ),
        ),
        is_terminator(
            Event::Key(KeyEvent { code: KeyCode::Char('\\'), modifiers: KeyModifiers { bits: 0 } }),
        ),
        is_terminator(
            Event::Key(
                KeyEvent {
                    code: KeyCode::Char('g'),
                    modifiers: KeyModifiers { bits: KeyModifiers::CONTROL_BIT },
                },
            ),
        ),
        is_terminator(
            Event::Key(
                KeyEvent { code: KeyCode::Char('\x07'), modifiers: KeyModifiers { bits: 0 } },
            ),
        ),
{
}

/// Every terminator ends a reply alike: after the same events, two queries
/// that each receive a terminator give the same result, whichever
/// terminators they are, and it is what the text gathered reports. Nothing
/// that arrives after the terminator changes it.
pub proof fn lemma_terminators_agree(
    events: Seq<Event>,
    first: Event,
    second: Event,
    later: Seq<Event>,
)
    requires
        is_terminator(first),
        is_terminator(second),
    ensures
        query_outcome(events.push(first)) == query_outcome(events.push(second)),
        run(events) matches Progress::Reading(buffer) ==> query_outcome(events.push(first))
            == parse_response_spec(buffer),
        query_outcome(events.push(first) + later) == query_outcome(events.push(first)),
{
    assert(events.push(first).drop_last() == events);
    assert(events.push(second).drop_last() == events);
    lemma_finished_stays(events.push(first), later);
}

/// Once a query has ended, further events change nothing.
pub proof fn lemma_finished_stays(events: Seq<Event>, later: Seq<Event>)
    requires
        run(events) is Finished,
    ensures
        run(events + later) == run(events),
    decreases later.len(),
{
    if later.len() == 0 {
        assert(events + later == events);
    } else {
        lemma_finished_stays(events, later.drop_last());
        assert((events + later).drop_last() == events + later.drop_last());
    }
}

/// A query that gathers no text before its deadline times out: it does not
/// fail to parse. So does one that received no event at all.
pub proof fn lemma_silence_times_out(events: Seq<Event>)
    requires
        forall|i: int| 0 <= i < events.len() ==> classify_spec(#[trigger] events[i])
            == KeyClass::Ignored,
    ensures
        run(events) == Progress::Reading(Seq::empty()),
        query_outcome(events) == Err::<Rgb, Failure>(Failure::Timeout),
        query_outcome(Seq::empty()) == Err::<Rgb, Failure>(Failure::Timeout),
    decreases events.len(),
{
    if events.len() > 0 {
        let head = events.drop_last();
        assert forall|i: int| 0 <= i < head.len() implies classify_spec(#[trigger] head[i])
            == KeyClass::Ignored by {
            assert(head[i] == events[i]);
        }
        lemma_silence_times_out(head);
        assert(classify_spec(events[events.len() - 1]) == KeyClass::Ignored);
    }
}

/// At the deadline a text without the marker is a timeout, and a text with
/// the marker is a colour or a parse error, never a timeout.
pub proof fn lemma_deadline_timeout_or_parse(buffer: Seq<char>)
    ensures
        first_marker(buffer) is None ==> deadline_outcome(buffer) == Err::<Rgb, Failure>(
            Failure::Timeout,
        ),
        first_marker(buffer) is Some ==> (deadline_outcome(buffer) is Ok || (deadline_outcome(
            buffer,
        ) matches Err(f) && f is Parse)),
        first_marker(buffer) is Some && decode_unterminated_spec(buffer) is Err ==> (
        deadline_outcome(buffer) matches Err(f) && f is Parse),
{
}

/// A reply that lost its terminator is recovered: where the three groups
/// after the marker have one length, the text gathered at the deadline,
/// reply and whatever trails it, gives what the reply gives when a
/// terminator ends it.
pub proof fn lemma_salvage_matches_terminated(reply: Seq<char>, trailing: Seq<char>, len: int)
    requires
        first_marker(reply) is Some,
        uniform_groups(reply.skip(first_marker(reply).unwrap() + 4), len),
    ensures
        deadline_outcome(reply + trailing) == parse_response_spec(reply),
{
    lemma_decode_unterminated_recovers(reply, trailing, len);
    lemma_parse_from_marker(reply);
}

} // verus!
