use vstd::prelude::*;

verus! {

/// A command bound to a character key of the viewer.
#[derive(Clone, Copy, Debug, PartialEq, Eq, Structural)]
pub enum KeyCommand {
    /// `h` / `H`: open the help window.
    Help,
    /// `q` / `Q`: quit the application.
    Quit,
    /// `d` / `D`: toggle the debug overlay.
    ToggleDebug,
    /// `p` / `P`: pause or resume.
    TogglePause,
    /// `w` / `W`: toggle wireframe mode.
    ToggleWireframe,
    /// `r` / `R`: reset the view.
    Reset,
}

/// The command bound to the text of a key press: a single letter, in either case.
pub open spec fn spec_key_command(key: Seq<char>) -> Option<KeyCommand> {
    if key.len() != 1 {
        None
    } else if key[0] == 'h' || key[0] == 'H' {
        Some(KeyCommand::Help)
    } else if key[0] == 'q' || key[0] == 'Q' {
        Some(KeyCommand::Quit)
    } else if key[0] == 'd' || key[0] == 'D' {
        Some(KeyCommand::ToggleDebug)
    } else if key[0] == 'p' || key[0] == 'P' {
        Some(KeyCommand::TogglePause)
    } else if key[0] == 'w' || key[0] == 'W' {
        Some(KeyCommand::ToggleWireframe)
    } else if key[0] == 'r' || key[0] == 'R' {
        Some(KeyCommand::Reset)
    } else {
        None
    }
}

/// One of the twelve letters bound to a command: h, q, d, p, w, r in
/// either case.
pub open spec fn is_bound_letter(c: char) -> bool {
    c == 'h' || c == 'H' || c == 'q' || c == 'Q' || c == 'd' || c == 'D' || c == 'p' || c == 'P'
        || c == 'w' || c == 'W' || c == 'r' || c == 'R'
}

/// A key is bound only when it is one of the twelve letters, and each
/// command is bound to exactly its letter in lower and upper case.
pub proof fn lemma_key_bindings(key: Seq<char>)
    ensures
        spec_key_command(key) is Some ==> key.len() == 1 && is_bound_letter(key[0]),
        (spec_key_command(key) == Some(KeyCommand::Quit)) <==> (key == seq!['q'] || key == seq!['Q']),
        (spec_key_command(key) == Some(KeyCommand::Help)) <==> (key == seq!['h'] || key == seq!['H']),
        (spec_key_command(key) == Some(KeyCommand::ToggleDebug)) <==> (key == seq!['d'] || key
            == seq!['D']),
        (spec_key_command(key) == Some(KeyCommand::TogglePause)) <==> (key == seq!['p'] || key
            == seq!['P']),
        (spec_key_command(key) == Some(KeyCommand::ToggleWireframe)) <==> (key == seq!['w'] || key
            == seq!['W']),
        (spec_key_command(key) == Some(KeyCommand::Reset)) <==> (key == seq!['r'] || key
            == seq!['R']),
{
    if key.len() == 1 {
        assert(key =~= seq![key[0]]);
    }
}

/// Looks up the command bound to the text of a character key.
pub fn key_command(key: &str) -> (cmd: Option<KeyCommand>)
    ensures
        cmd == spec_key_command(key@),
        cmd is Some ==> key@.len() == 1 && is_bound_letter(key@[0]),
        (cmd == Some(KeyCommand::Quit)) <==> (key@ == seq!['q'] || key@ == seq!['Q']),
        (cmd == Some(KeyCommand::Help)) <==> (key@ == seq!['h'] || key@ == seq!['H']),
        (cmd == Some(KeyCommand::ToggleDebug)) <==> (key@ == seq!['d'] || key@ == seq!['D']),
        (cmd == Some(KeyCommand::TogglePause)) <==> (key@ == seq!['p'] || key@ == seq!['P']),
        (cmd == Some(KeyCommand::ToggleWireframe)) <==> (key@ == seq!['w'] || key@ == seq!['W']),
        (cmd == Some(KeyCommand::Reset)) <==> (key@ == seq!['r'] || key@ == seq!['R']),
{
    proof {
        lemma_key_bindings(key@);
    }
    if key.unicode_len() != 1 {
        return None;
    }
    let c = key.get_char(0);
    match c {
        'h' | 'H' => Some(KeyCommand::Help),
        'q' | 'Q' => Some(KeyCommand::Quit),
        'd' | 'D' => Some(KeyCommand::ToggleDebug),
        'p' | 'P' => Some(KeyCommand::TogglePause),
        'w' | 'W' => Some(KeyCommand::ToggleWireframe),
        'r' | 'R' => Some(KeyCommand::Reset),
        _ => None,
    }
}

} // verus!
