use termbg::terminal;
use termbg::terminal::from_environment;
use termbg::Environment;
use termbg::Host;
use termbg::Terminal;

fn env(host: Host) -> Environment {
    Environment {
        host,
        inside_emacs: None,
        tmux: None,
        term: None,
        term_program: None,
    }
}

fn set(value: &str) -> Option<String> {
    Some(String::from(value))
}

#[test]
fn emacs_comes_before_tmux() {
    let mut e = env(Host::Posix);
    e.inside_emacs = set("29.1,comint");
    e.tmux = set("/tmp/tmux-1000/default,1234,0");
    assert_eq!(terminal(&e, false), Terminal::Emacs);
    e.term = set("screen-256color");
    assert_eq!(terminal(&e, false), Terminal::Emacs);
}

#[test]
fn emacs_comes_before_vscode_on_windows() {
    let mut e = env(Host::Windows);
    e.inside_emacs = set("");
    e.term_program = set("vscode");
    assert_eq!(terminal(&e, true), Terminal::Emacs);
    assert_eq!(terminal(&e, false), Terminal::Emacs);
}

#[test]
fn tmux_by_variable_or_by_term() {
    let mut e = env(Host::Posix);
    e.tmux = set("");
    assert_eq!(terminal(&e, false), Terminal::Tmux);

    let mut e = env(Host::Posix);
    e.term = set("tmux-256color");
    assert_eq!(terminal(&e, false), Terminal::Tmux);

    let mut e = env(Host::Posix);
    e.term = set("tmux");
    assert_eq!(terminal(&e, false), Terminal::XtermCompatible);

    let mut e = env(Host::Posix);
    e.tmux = set("x");
    e.term = set("screen");
    assert_eq!(terminal(&e, false), Terminal::Tmux);
}

#[test]
fn screen_by_term() {
    let mut e = env(Host::Posix);
    e.term = set("screen");
    assert_eq!(terminal(&e, false), Terminal::Screen);
    e.term = set("screen.xterm-256color");
    assert_eq!(terminal(&e, false), Terminal::Screen);
    e.term = set("scree");
    assert_eq!(terminal(&e, false), Terminal::XtermCompatible);
    e.term = set("xterm-screen");
    assert_eq!(terminal(&e, false), Terminal::XtermCompatible);
}

#[test]
fn any_other_on_posix_is_an_xterm() {
    let mut e = env(Host::Posix);
    assert_eq!(terminal(&e, false), Terminal::XtermCompatible);
    assert_eq!(terminal(&e, true), Terminal::XtermCompatible);
    e.term = set("xterm-256color");
    e.term_program = set("vscode");
    assert_eq!(terminal(&e, false), Terminal::XtermCompatible);
    assert_eq!(from_environment(&e), Some(Terminal::XtermCompatible));
}

#[test]
fn vscode_on_windows_is_an_xterm() {
    let mut e = env(Host::Windows);
    e.term_program = set("vscode");
    assert_eq!(terminal(&e, false), Terminal::XtermCompatible);
    e.tmux = set("x");
    assert_eq!(terminal(&e, false), Terminal::XtermCompatible);
    e.term_program = set("vscodium");
    assert_eq!(terminal(&e, false), Terminal::Tmux);
}

#[test]
fn the_console_decides_the_rest_on_windows() {
    let mut e = env(Host::Windows);
    assert_eq!(from_environment(&e), None);
    assert_eq!(terminal(&e, true), Terminal::XtermCompatible);
    assert_eq!(terminal(&e, false), Terminal::Windows);
    e.term = set("xterm");
    e.term_program = set("Hyper");
    assert_eq!(from_environment(&e), None);
    assert_eq!(terminal(&e, false), Terminal::Windows);
    e.term = set("screen");
    assert_eq!(terminal(&e, false), Terminal::Screen);
}
