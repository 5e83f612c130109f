//! Key-symbol mapping for sinks that synthesize input by symbol rather
//! than by raw display key code: captured key codes that stand for a
//! printable character map to that character, and captured key codes that
//! stand for a named control key map to a portable key name. Codes
//! covered by neither table are not translated by such a sink.

use vstd::prelude::*;

verus! {

/// A named, non-printing key of the destination session's keyboard.
#[derive(Clone, Copy, PartialEq, Eq, Structural, Debug)]
pub enum NamedKey {
    Alt,
    Meta,
    LShift,
    RShift,
    CapsLock,
    LControl,
    RControl,
    Backspace,
    Delete,
    UpArrow,
    DownArrow,
    LeftArrow,
    RightArrow,
    Home,
    End,
    Escape,
    Insert,
    Numlock,
    PageUp,
    PageDown,
    SysReq,
    F1,
    F2,
    F3,
    F4,
    F5,
    F6,
    F7,
    F8,
    F9,
    F10,
    F11,
    F12,
}

/// The printable character a captured key code stands for, if any.
pub open spec fn spec_char_of_key(code: u16) -> Option<char> {
    if code == 30 {
        Some('a')
    } else if code == 48 {
        Some('b')
    } else if code == 46 {
        Some('c')
    } else if code == 32 {
        Some('d')
    } else if code == 18 {
        Some('e')
    } else if code == 33 {
        Some('f')
    } else if code == 34 {
        Some('g')
    } else if code == 35 {
        Some('h')
    } else if code == 23 {
        Some('i')
    } else if code == 36 {
        Some('j')
    } else if code == 37 {
        Some('k')
    } else if code == 38 {
        Some('l')
    } else if code == 50 {
        Some('m')
    } else if code == 49 {
        Some('n')
    } else if code == 24 {
        Some('o')
    } else if code == 25 {
        Some('p')
    } else if code == 16 {
        Some('q')
    } else if code == 19 {
        Some('r')
    } else if code == 31 {
        Some('s')
    } else if code == 20 {
        Some('t')
    } else if code == 22 {
        Some('u')
    } else if code == 47 {
        Some('v')
    } else if code == 17 {
        Some('w')
    } else if code == 45 {
        Some('x')
    } else if code == 21 {
        Some('y')
    } else if code == 44 {
        Some('z')
    } else if code == 11 {
        Some('0')
    } else if code == 2 {
        Some('1')
    } else if code == 3 {
        Some('2')
    } else if code == 4 {
        Some('3')
    } else if code == 5 {
        Some('4')
    } else if code == 6 {
        Some('5')
    } else if code == 7 {
        Some('6')
    } else if code == 8 {
        Some('7')
    } else if code == 9 {
        Some('8')
    } else if code == 10 {
        Some('9')
    } else if code == 53 {
        Some('/')
    } else if code == 40 {
        Some('"')
    } else if code == 39 {
        Some(';')
    } else if code == 12 {
        Some('-')
    } else if code == 57 {
        Some(' ')
    } else {
        None
    }
}

/// Map a captured key code to the printable character it stands for.
pub fn char_of_key(code: u16) -> (r: Option<char>)
    ensures
        r == spec_char_of_key(code),
{
    if code == 30 {
        Some('a')
    } else if code == 48 {
        Some('b')
    } else if code == 46 {
        Some('c')
    } else if code == 32 {
        Some('d')
    } else if code == 18 {
        Some('e')
    } else if code == 33 {
        Some('f')
    } else if code == 34 {
        Some('g')
    } else if code == 35 {
        Some('h')
    } else if code == 23 {
        Some('i')
    } else if code == 36 {
        Some('j')
    } else if code == 37 {
        Some('k')
    } else if code == 38 {
        Some('l')
    } else if code == 50 {
        Some('m')
    } else if code == 49 {
        Some('n')
    } else if code == 24 {
        Some('o')
    } else if code == 25 {
        Some('p')
    } else if code == 16 {
        Some('q')
    } else if code == 19 {
        Some('r')
    } else if code == 31 {
        Some('s')
    } else if code == 20 {
        Some('t')
    } else if code == 22 {
        Some('u')
    } else if code == 47 {
        Some('v')
    } else if code == 17 {
        Some('w')
    } else if code == 45 {
        Some('x')
    } else if code == 21 {
        Some('y')
    } else if code == 44 {
        Some('z')
    } else if code == 11 {
        Some('0')
    } else if code == 2 {
        Some('1')
    } else if code == 3 {
        Some('2')
    } else if code == 4 {
        Some('3')
    } else if code == 5 {
        Some('4')
    } else if code == 6 {
        Some('5')
    } else if code == 7 {
        Some('6')
    } else if code == 8 {
        Some('7')
    } else if code == 9 {
        Some('8')
    } else if code == 10 {
        Some('9')
    } else if code == 53 {
        Some('/')
    } else if code == 40 {
        Some('"')
    } else if code == 39 {
        Some(';')
    } else if code == 12 {
        Some('-')
    } else if code == 57 {
        Some(' ')
    } else {
        None
    }
}

/// The named key a captured key code stands for, if any.
pub open spec fn spec_named_key_of(code: u16) -> Option<NamedKey> {
    if code == 56 || code == 100 {
        Some(NamedKey::Alt)
    } else if code == 125 || code == 126 {
        Some(NamedKey::Meta)
    } else if code == 42 {
        Some(NamedKey::LShift)
    } else if code == 54 {
        Some(NamedKey::RShift)
    } else if code == 58 {
        Some(NamedKey::CapsLock)
    } else if code == 29 {
        Some(NamedKey::LControl)
    } else if code == 97 {
        Some(NamedKey::RControl)
    } else if code == 14 {
        Some(NamedKey::Backspace)
    } else if code == 111 {
        Some(NamedKey::Delete)
    } else if code == 103 {
        Some(NamedKey::UpArrow)
    } else if code == 108 {
        Some(NamedKey::DownArrow)
    } else if code == 105 {
        Some(NamedKey::LeftArrow)
    } else if code == 106 {
        Some(NamedKey::RightArrow)
    } else if code == 102 {
        Some(NamedKey::Home)
    } else if code == 107 {
        Some(NamedKey::End)
    } else if code == 1 {
        Some(NamedKey::Escape)
    } else if code == 110 {
        Some(NamedKey::Insert)
    } else if code == 69 {
        Some(NamedKey::Numlock)
    } else if code == 104 {
        Some(NamedKey::PageUp)
    } else if code == 109 {
        Some(NamedKey::PageDown)
    } else if code == 210 {
        Some(NamedKey::SysReq)
    } else if code == 59 {
        Some(NamedKey::F1)
    } else if code == 60 {
        Some(NamedKey::F2)
    } else if code == 61 {
        Some(NamedKey::F3)
    } else if code == 62 {
        Some(NamedKey::F4)
    } else if code == 63 {
        Some(NamedKey::F5)
    } else if code == 64 {
        Some(NamedKey::F6)
    } else if code == 65 {
        Some(NamedKey::F7)
    } else if code == 66 {
        Some(NamedKey::F8)
    } else if code == 67 {
        Some(NamedKey::F9)
    } else if code == 68 {
        Some(NamedKey::F10)
    } else if code == 87 {
        Some(NamedKey::F11)
    } else if code == 88 {
        Some(NamedKey::F12)
    } else {
        None
    }
}

/// Map a captured key code to the named key it stands for.
pub fn named_key_of(code: u16) -> (r: Option<NamedKey>)
    ensures
        r == spec_named_key_of(code),
{
    if code == 56 || code == 100 {
        Some(NamedKey::Alt)
    } else if code == 125 || code == 126 {
        Some(NamedKey::Meta)
    } else if code == 42 {
        Some(NamedKey::LShift)
    } else if code == 54 {
        Some(NamedKey::RShift)
    } else if code == 58 {
        Some(NamedKey::CapsLock)
    } else if code == 29 {
        Some(NamedKey::LControl)
    } else if code == 97 {
        Some(NamedKey::RControl)
    } else if code == 14 {
        Some(NamedKey::Backspace)
    } else if code == 111 {
        Some(NamedKey::Delete)
    } else if code == 103 {
        Some(NamedKey::UpArrow)
    } else if code == 108 {
        Some(NamedKey::DownArrow)
    } else if code == 105 {
        Some(NamedKey::LeftArrow)
    } else if code == 106 {
        Some(NamedKey::RightArrow)
    } else if code == 102 {
        Some(NamedKey::Home)
    } else if code == 107 {
        Some(NamedKey::End)
    } else if code == 1 {
        Some(NamedKey::Escape)
    } else if code == 110 {
        Some(NamedKey::Insert)
    } else if code == 69 {
        Some(NamedKey::Numlock)
    } else if code == 104 {
        Some(NamedKey::PageUp)
    } else if code == 109 {
        Some(NamedKey::PageDown)
    } else if code == 210 {
        Some(NamedKey::SysReq)
    } else if code == 59 {
        Some(NamedKey::F1)
    } else if code == 60 {
        Some(NamedKey::F2)
    } else if code == 61 {
        Some(NamedKey::F3)
    } else if code == 62 {
        Some(NamedKey::F4)
    } else if code == 63 {
        Some(NamedKey::F5)
    } else if code == 64 {
        Some(NamedKey::F6)
    } else if code == 65 {
        Some(NamedKey::F7)
    } else if code == 66 {
        Some(NamedKey::F8)
    } else if code == 67 {
        Some(NamedKey::F9)
    } else if code == 68 {
        Some(NamedKey::F10)
    } else if code == 87 {
        Some(NamedKey::F11)
    } else if code == 88 {
        Some(NamedKey::F12)
    } else {
        None
    }
}

/// The two symbol tables never claim the same code: a code that maps to a
/// printable character maps to no named key, and the other way around.
pub proof fn lemma_symbol_tables_disjoint(code: u16)
    ensures
        !(spec_char_of_key(code) is Some && spec_named_key_of(code) is Some),
{
}

} // verus!
