use vstd::prelude::*;

verus! {

use crate::song::Note;

/// A key press as the control loop sees it: a character key, one of the four
/// arrow keys, or anything else.
#[derive(Debug, Copy, Clone, PartialEq, Eq, Structural)]
pub enum KeyPress {
    Char(char),
    ArrowUp,
    ArrowDown,
    ArrowLeft,
    ArrowRight,
    Other,
}

/// The note a key press maps to: `a` plays A, the arrows play their
/// directions, `h j k l` double for left, down, up and right, and every other
/// key is "no note".
pub open spec fn spec_note_from_key(k: KeyPress) -> Option<Note> {
    match k {
        KeyPress::Char(c) => if c == 'a' {
            Some(Note::A)
        } else if c == 'j' {
            Some(Note::Down)
        } else if c == 'l' {
            Some(Note::Right)
        } else if c == 'h' {
            Some(Note::Left)
        } else if c == 'k' {
            Some(Note::Up)
        } else {
            None
        },
        KeyPress::ArrowUp => Some(Note::Up),
        KeyPress::ArrowDown => Some(Note::Down),
        KeyPress::ArrowLeft => Some(Note::Left),
        KeyPress::ArrowRight => Some(Note::Right),
        KeyPress::Other => None,
    }
}

pub fn note_from_key(k: &KeyPress) -> (r: Option<Note>)
    ensures
        r == spec_note_from_key(*k),
{
    match k {
        KeyPress::Char(c) => match *c {
            'a' => Some(Note::A),
            'j' => Some(Note::Down),
            'l' => Some(Note::Right),
            'h' => Some(Note::Left),
            'k' => Some(Note::Up),
            _ => None,
        },
        KeyPress::ArrowUp => Some(Note::Up),
        KeyPress::ArrowDown => Some(Note::Down),
        KeyPress::ArrowLeft => Some(Note::Left),
        KeyPress::ArrowRight => Some(Note::Right),
        KeyPress::Other => None,
    }
}

/// Whether a key press asks the program to terminate: `q`, or `c` with the
/// control modifier alone held.
pub open spec fn spec_is_quit(k: KeyPress, ctrl: bool) -> bool {
    k == KeyPress::Char('q') || (ctrl && k == KeyPress::Char('c'))
}

pub fn is_quit_key(k: &KeyPress, ctrl: bool) -> (r: bool)
    ensures
        r == spec_is_quit(*k, ctrl),
{
    match k {
        KeyPress::Char(c) => *c == 'q' || (ctrl && *c == 'c'),
        _ => false,
    }
}

} // verus!
