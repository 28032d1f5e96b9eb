//! The families of terminal, and how the environment tells them apart.

use vstd::prelude::*;
use crate::text::same_text;
use crate::text::starts_with;

verus! {

/// Terminal
#[derive(Copy, Clone, Debug, PartialEq, Eq, Structural)]
pub enum Terminal {
    Screen,
    Tmux,
    XtermCompatible,
    Windows,
    Emacs,
}

/// The kind of system that the process runs on.
#[derive(Copy, Clone, Debug, PartialEq, Eq, Structural)]
pub enum Host {
    Posix,
    Windows,
}

/// The part of the process environment that tells the families apart: the
/// host, and the value of each variable that is set.
#[derive(Debug)]
pub struct Environment {
    pub host: Host,
    /// `INSIDE_EMACS`
    pub inside_emacs: Option<String>,
    /// `TMUX`
    pub tmux: Option<String>,
    /// `TERM`
    pub term: Option<String>,
    /// `TERM_PROGRAM`
    pub term_program: Option<String>,
}

/// `TERM` is set and begins with `prefix`.
pub open spec fn term_starts_with(env: &Environment, prefix: Seq<char>) -> bool {
    env.term matches Some(term) && prefix.is_prefix_of(term@)
}

/// The family that the environment alone decides, first match first:
/// `INSIDE_EMACS` set is Emacs; on Windows, `TERM_PROGRAM` equal to `vscode`
/// is an xterm; `TMUX` set, or `TERM` beginning with `tmux-`, is tmux; `TERM`
/// beginning with `screen` is screen; any other on a POSIX host is an xterm.
/// On Windows the console decides the rest.
pub open spec fn from_environment_spec(env: &Environment) -> Option<Terminal> {
    if env.inside_emacs is Some {
        Some(Terminal::Emacs)
    } else if env.host == Host::Windows && (env.term_program matches Some(p) && p@
        == "vscode"@) {
        Some(Terminal::XtermCompatible)
    } else if env.tmux is Some || term_starts_with(env, "tmux-"@) {
        Some(Terminal::Tmux)
    } else if term_starts_with(env, "screen"@) {
        Some(Terminal::Screen)
    } else if env.host == Host::Posix {
        Some(Terminal::XtermCompatible)
    } else {
        None
    }
}

/// The family of the terminal: what the environment decides, and else, on
/// Windows, an xterm where the console processes escape sequences and the
/// legacy console where it does not.
pub open spec fn terminal_spec(env: &Environment, vt_enabled: bool) -> Terminal {
    match from_environment_spec(env) {
        Some(term) => term,
        None => if vt_enabled {
            Terminal::XtermCompatible
        } else {
            Terminal::Windows
        },
    }
}

/// Whether `TERM` is set and begins with `prefix`.
fn term_has_prefix(env: &Environment, prefix: &str) -> (b: bool)
    ensures
        b == term_starts_with(env, prefix@),
{
    match &env.term {
        Some(term) => starts_with(term.as_str(), prefix),
        None => false,
    }
}

/// The family that the environment alone decides; none where, on Windows,
/// only the console can tell.
pub fn from_environment(env: &Environment) -> (family: Option<Terminal>)
    ensures
        family == from_environment_spec(env),
        family is None ==> env.host == Host::Windows,
{
    if env.inside_emacs.is_some() {
        return Some(Terminal::Emacs);
    }
    if env.host == Host::Windows {
        if let Some(program) = &env.term_program {
            if same_text(program.as_str(), "vscode") {
                return Some(Terminal::XtermCompatible);
            }
        }
    }
    if env.tmux.is_some() || term_has_prefix(env, "tmux-") {
        Some(Terminal::Tmux)
    } else if term_has_prefix(env, "screen") {
        Some(Terminal::Screen)
    } else if env.host == Host::Posix {
        Some(Terminal::XtermCompatible)
    } else {
        None
    }
}

/// get detected terminal
///
/// `vt_enabled` says whether the Windows console processes escape sequences;
/// it is read only where the environment does not decide.
pub fn terminal(env: &Environment, vt_enabled: bool) -> (term: Terminal)
    ensures
        term == terminal_spec(env, vt_enabled),
        env.inside_emacs is Some ==> term == Terminal::Emacs,
        env.host == Host::Posix ==> term != Terminal::Windows,
{
    match from_environment(env) {
        Some(term) => term,
        None => if vt_enabled {
            Terminal::XtermCompatible
        } else {
            Terminal::Windows
        },
    }
}

} // verus!
