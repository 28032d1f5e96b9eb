//! Input events, as far as a query reads them, and the source they come from.

use vstd::prelude::*;
use std::time::Duration;
use crate::error::Error;

verus! {

/// The key that was pressed.
#[derive(Copy, Clone, Debug, PartialEq, Eq, Structural)]
pub enum KeyCode {
    /// A character key.
    Char(char),
    /// Any other key.
    Other,
}

/// The modifier keys held with a key, as a set of bits.
#[derive(Copy, Clone, Debug, PartialEq, Eq, Structural)]
pub struct KeyModifiers {
    pub bits: u8,
}

impl KeyModifiers {
    /// The bit of the shift key.
    pub const SHIFT_BIT: u8 = 1;

    /// The bit of the control key.
    pub const CONTROL_BIT: u8 = 2;

    /// The bit of the alt key.
    pub const ALT_BIT: u8 = 4;

    /// No modifier.
    pub fn none() -> (m: KeyModifiers)
        ensures
            m.bits == 0,
    {
        KeyModifiers { bits: 0 }
    }

    /// Shift alone.
    pub fn shift() -> (m: KeyModifiers)
        ensures
            m.bits == KeyModifiers::SHIFT_BIT,
    {
        KeyModifiers { bits: KeyModifiers::SHIFT_BIT }
    }

    /// Control alone.
    pub fn control() -> (m: KeyModifiers)
        ensures
            m.bits == KeyModifiers::CONTROL_BIT,
    {
        KeyModifiers { bits: KeyModifiers::CONTROL_BIT }
    }

    /// Alt alone.
    pub fn alt() -> (m: KeyModifiers)
        ensures
            m.bits == KeyModifiers::ALT_BIT,
    {
        KeyModifiers { bits: KeyModifiers::ALT_BIT }
    }
}

/// A key press.
#[derive(Copy, Clone, Debug, PartialEq, Eq, Structural)]
pub struct KeyEvent {
    pub code: KeyCode,
    pub modifiers: KeyModifiers,
}

impl KeyEvent {
    /// A key press of `code` with `modifiers` held.
    pub fn new(code: KeyCode, modifiers: KeyModifiers) -> (key: KeyEvent)
        ensures
            key == (KeyEvent { code, modifiers }),
    {
        KeyEvent { code, modifiers }
    }
}

/// An input event.
#[derive(Copy, Clone, Debug, PartialEq, Eq, Structural)]
pub enum Event {
    /// A key press.
    Key(KeyEvent),
    /// Anything else: the mouse, a resize, a paste, focus.
    Other,
}

/// A source of input events.
pub trait EventReader {
    /// Takes the next event from the source, waiting for it if need be.
    fn read_event(&self) -> Result<Event, Error>;

    /// Waits up to `timeout` for an event and says whether one is there,
    /// without taking it.
    fn poll(&self, timeout: Duration) -> Result<bool, Error>;
}

/// One call to a source of events, with what came back.
pub ghost enum Call {
    /// A poll with `timeout`, and whether an event was there.
    Polled { timeout: Duration, ready: Result<bool, Error> },
    /// A read, and the event.
    Read { event: Result<Event, Error> },
}

/// A source of events together with the record of the calls made to it
/// through this wrapper, in order.
pub struct Recorded<R> {
    inner: R,
    calls: Ghost<Seq<Call>>,
}

impl<R: EventReader> Recorded<R> {
    /// The source.
    pub closed spec fn source(&self) -> R {
        self.inner
    }

    /// The calls made to the source, in order, each with what came back.
    pub closed spec fn calls(&self) -> Seq<Call> {
        self.calls@
    }

    /// Starts the record of `inner`, with nothing in it.
    pub fn new(inner: R) -> (reader: Recorded<R>)
        ensures
            reader.source() == inner,
            reader.calls() == Seq::<Call>::empty(),
    {
        Recorded { inner, calls: Ghost(Seq::empty()) }
    }

    /// The source.
    pub fn get_ref(&self) -> (inner: &R)
        ensures
            *inner == self.source(),
    {
        &self.inner
    }

    /// Takes the next event from the source and enters the call in the
    /// record, with the event or the error that came back.
    pub fn read_event(&mut self) -> (r: Result<Event, Error>)
        ensures
            final(self).source() == old(self).source(),
            final(self).calls() == old(self).calls().push(Call::Read { event: r }),
    {
        let r = self.inner.read_event();
        proof {
            self.calls@ = self.calls@.push(Call::Read { event: r });
        }
        r
    }

    /// Polls the source with `timeout` and enters the call in the record,
    /// with the answer or the error that came back.
    pub fn poll(&mut self, timeout: Duration) -> (r: Result<bool, Error>)
        ensures
            final(self).source() == old(self).source(),
            final(self).calls() == old(self).calls().push(Call::Polled { timeout, ready: r }),
    {
        let r = self.inner.poll(timeout);
        proof {
            self.calls@ = self.calls@.push(Call::Polled { timeout, ready: r });
        }
        r
    }
}

} // verus!
