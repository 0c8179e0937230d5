use vstd::prelude::*;

use crate::{reconciled, Thresholds, NEVER};

verus! {

/// A keystroke read at the control panel.
#[derive(Clone, Copy, Debug)]
pub enum KeyPress {
    /// A printable key, space or enter (`'\n'`).
    Char(char),
    /// A key pressed with control held.
    Ctrl(char),
    /// Any other key, or an event that could not be read.
    Other,
}

/// What a keystroke asks of the control panel.
#[derive(Clone, Copy, Debug, PartialEq, Eq, Structural)]
pub enum Command {
    /// Set the print threshold, raising the pause threshold if needed.
    Print(u8),
    /// Set the pause threshold, lowering the print threshold if needed.
    Pause(u8),
    /// Leave the panel with the thresholds as they are.
    Resume,
    /// Turn everything off and leave the panel.
    Quit,
    /// Do nothing; stay at the panel.
    Ignore,
}

/// Where the control panel stands after a keystroke.
#[derive(Clone, Copy, Debug, PartialEq, Eq, Structural)]
pub enum PanelState {
    /// Still waiting; the status line is redrawn.
    AwaitingKey,
    /// Finished; the status line is cleared and the caller resumes.
    Done,
}

/// The pause threshold that a shifted digit key stands for, on the US layout:
/// `!` for 1 through `(` for 9.
pub open spec fn shifted_digit(c: char) -> Option<u8> {
    if c == '!' {
        Some(1u8)
    } else if c == '@' {
        Some(2u8)
    } else if c == '#' {
        Some(3u8)
    } else if c == '$' {
        Some(4u8)
    } else if c == '%' {
        Some(5u8)
    } else if c == '^' {
        Some(6u8)
    } else if c == '&' {
        Some(7u8)
    } else if c == '*' {
        Some(8u8)
    } else if c == '(' {
        Some(9u8)
    } else {
        None
    }
}

/// The command of a keystroke: `q` or control-c quit, space or enter resume,
/// a digit sets the print threshold, a shifted digit the pause threshold, and
/// anything else is ignored.
pub open spec fn command_for(key: KeyPress) -> Command {
    match key {
        KeyPress::Char(c) => {
            if c == 'q' {
                Command::Quit
            } else if c == ' ' || c == '\n' {
                Command::Resume
            } else if '0' <= c <= '9' {
                Command::Print((c as u32 - '0' as u32) as u8)
            } else {
                match shifted_digit(c) {
                    Some(n) => Command::Pause(n),
                    None => Command::Ignore,
                }
            }
        },
        KeyPress::Ctrl(c) => {
            if c == 'c' {
                Command::Quit
            } else {
                Command::Ignore
            }
        },
        KeyPress::Other => Command::Ignore,
    }
}

/// The thresholds after `command` is carried out on `t`.
pub open spec fn after_command(t: (u8, u8), command: Command) -> (u8, u8) {
    match command {
        Command::Print(d) => reconciled(d, t.1, true),
        Command::Pause(n) => reconciled(t.0, n, false),
        Command::Quit => reconciled(NEVER, NEVER, true),
        Command::Resume => t,
        Command::Ignore => t,
    }
}

/// The thresholds after the keystroke `key` at the control panel.
pub open spec fn after_key(t: (u8, u8), key: KeyPress) -> (u8, u8) {
    after_command(t, command_for(key))
}

/// Whether `command` ends the control panel.
pub open spec fn leaves_panel(command: Command) -> bool {
    command == Command::Resume || command == Command::Quit
}

/// The pause threshold of a shifted digit key, if `c` is one.
fn shifted_digit_of(c: char) -> (r: Option<u8>)
    ensures
        r == shifted_digit(c),
{
    if c == '!' {
        Some(1)
    } else if c == '@' {
        Some(2)
    } else if c == '#' {
        Some(3)
    } else if c == '$' {
        Some(4)
    } else if c == '%' {
        Some(5)
    } else if c == '^' {
        Some(6)
    } else if c == '&' {
        Some(7)
    } else if c == '*' {
        Some(8)
    } else if c == '(' {
        Some(9)
    } else {
        None
    }
}

/// The command of the keystroke `key`.
pub fn command_of(key: &KeyPress) -> (r: Command)
    ensures
        r == command_for(*key),
{
    match key {
        KeyPress::Char(c) => {
            let c = *c;
            if c == 'q' {
                Command::Quit
            } else if c == ' ' || c == '\n' {
                Command::Resume
            } else if '0' <= c && c <= '9' {
                Command::Print((c as u32 - '0' as u32) as u8)
            } else {
                match shifted_digit_of(c) {
                    Some(n) => Command::Pause(n),
                    None => Command::Ignore,
                }
            }
        },
        KeyPress::Ctrl(c) => {
            if *c == 'c' {
                Command::Quit
            } else {
                Command::Ignore
            }
        },
        KeyPress::Other => Command::Ignore,
    }
}

/// Handles one keystroke at the control panel: carries out its command on the
/// store and says whether the panel is done.
pub fn press_key(t: &mut Thresholds, key: &KeyPress) -> (r: PanelState)
    ensures
        final(t)@ == after_key(old(t)@, *key),
        (r == PanelState::Done) == leaves_panel(command_for(*key)),
{
    let current = crate::get(t);
    match command_of(key) {
        Command::Print(d) => {
            crate::set(t, d, current.1, true);
            PanelState::AwaitingKey
        },
        Command::Pause(n) => {
            crate::set(t, current.0, n, false);
            PanelState::AwaitingKey
        },
        Command::Quit => {
            crate::set(t, NEVER, NEVER, true);
            PanelState::Done
        },
        Command::Resume => PanelState::Done,
        Command::Ignore => PanelState::AwaitingKey,
    }
}

/// Quitting at the control panel, by `q` or by control-c, turns everything
/// off from any state: afterwards no level is printed or pauses.
pub proof fn lemma_quit_turns_all_off(t: (u8, u8), level: u8)
    ensures
        after_key(t, KeyPress::Char('q')) == (NEVER, NEVER),
        after_key(t, KeyPress::Ctrl('c')) == (NEVER, NEVER),
        leaves_panel(command_for(KeyPress::Char('q'))),
        leaves_panel(command_for(KeyPress::Ctrl('c'))),
        !crate::gate::emits(after_key(t, KeyPress::Char('q')), level),
        !crate::gate::emits(after_key(t, KeyPress::Ctrl('c')), level),
{
}

/// Space and enter leave the panel without changing the thresholds.
pub proof fn lemma_resume_keeps_thresholds(t: (u8, u8))
    ensures
        after_key(t, KeyPress::Char(' ')) == t,
        after_key(t, KeyPress::Char('\n')) == t,
        leaves_panel(command_for(KeyPress::Char(' '))),
        leaves_panel(command_for(KeyPress::Char('\n'))),
{
}

} // verus!
