//! Detection of a terminal's background colour: the query sent to the
//! emulator, the decoding of its reply, and the fallbacks when it stays silent.
//!
//! The library decides and computes; its host reads the environment, talks
//! to the terminal and hands over what came back.

use vstd::prelude::*;

pub mod clock;
pub mod color;
pub mod error;
pub mod event;
pub mod fallback;
pub mod guard;
pub mod latency;
pub mod query;
pub mod response;
pub mod terminal;
pub mod text;
pub mod x11;

pub use clock::Deadline;
pub use color::theme;
pub use color::Rgb;
pub use color::Theme;
pub use error::Error;
pub use event::Event;
pub use event::EventReader;
pub use event::KeyCode;
pub use event::KeyEvent;
pub use event::KeyModifiers;
pub use event::Recorded;
pub use fallback::color_source;
pub use fallback::from_env_colorfgbg;
pub use fallback::from_winapi;
pub use fallback::query_or_console;
pub use fallback::rgb;
pub use fallback::ColorSource;
pub use guard::restore_raw_status;
pub use guard::Answer;
pub use guard::RawModeChange;
pub use guard::Request;
pub use guard::Session;
pub use guard::Step;
pub use latency::latency;
pub use latency::latency_query;
pub use latency::measures_latency;
pub use latency::LatencyProbe;
pub use latency::ProbeAnswer;
pub use latency::ProbeRequest;
pub use latency::ProbeStep;
pub use query::classify;
pub use query::query_events;
pub use query::query_sequence;
pub use query::query_xterm;
pub use query::KeyClass;
pub use query::ResponseBuffer;
pub use response::decode_unterminated;
pub use response::extract_rgb;
pub use response::parse_response;
pub use terminal::terminal;
pub use terminal::Environment;
pub use terminal::Host;
pub use terminal::Terminal;
pub use x11::decode_x11_color;

verus! {

} // verus!
