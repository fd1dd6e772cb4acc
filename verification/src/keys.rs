//! Global shortcut strings such as `Alt+Shift+Space`: the key names, the
//! modifier names, and the parser that turns a string into a hotkey.

use vstd::prelude::*;

use crate::text::{chars_eq_str, chars_of};

verus! {

/// The keys that a global shortcut can end with.
#[derive(Clone, Copy, Debug, PartialEq, Eq, Structural)]
pub enum KeyCode {
    Space,
    Enter,
    Tab,
    Escape,
    Backspace,
    Delete,
    Home,
    End,
    PageUp,
    PageDown,
    ArrowUp,
    ArrowDown,
    ArrowLeft,
    ArrowRight,
    F1,
    F2,
    F3,
    F4,
    F5,
    F6,
    F7,
    F8,
    F9,
    F10,
    F11,
    F12,
    F13,
    F14,
    F15,
    F16,
    F17,
    F18,
    F19,
    F20,
    Digit0,
    Digit1,
    Digit2,
    Digit3,
    Digit4,
    Digit5,
    Digit6,
    Digit7,
    Digit8,
    Digit9,
    KeyA,
    KeyB,
    KeyC,
    KeyD,
    KeyE,
    KeyF,
    KeyG,
    KeyH,
    KeyI,
    KeyJ,
    KeyK,
    KeyL,
    KeyM,
    KeyN,
    KeyO,
    KeyP,
    KeyQ,
    KeyR,
    KeyS,
    KeyT,
    KeyU,
    KeyV,
    KeyW,
    KeyX,
    KeyY,
    KeyZ,
    Comma,
    Period,
    Minus,
    Equal,
    BracketLeft,
    BracketRight,
    Semicolon,
    Quote,
    Backslash,
    Backquote,
    Slash,
    IntlBackslash,
}

/// The name by which a shortcut string refers to a key.
pub open spec fn key_name(k: KeyCode) -> Seq<char> {
    match k {
        KeyCode::Space => "Space"@,
        KeyCode::Enter => "Enter"@,
        KeyCode::Tab => "Tab"@,
        KeyCode::Escape => "Escape"@,
        KeyCode::Backspace => "Backspace"@,
        KeyCode::Delete => "Delete"@,
        KeyCode::Home => "Home"@,
        KeyCode::End => "End"@,
        KeyCode::PageUp => "PageUp"@,
        KeyCode::PageDown => "PageDown"@,
        KeyCode::ArrowUp => "ArrowUp"@,
        KeyCode::ArrowDown => "ArrowDown"@,
        KeyCode::ArrowLeft => "ArrowLeft"@,
        KeyCode::ArrowRight => "ArrowRight"@,
        KeyCode::F1 => "F1"@,
        KeyCode::F2 => "F2"@,
        KeyCode::F3 => "F3"@,
        KeyCode::F4 => "F4"@,
        KeyCode::F5 => "F5"@,
        KeyCode::F6 => "F6"@,
        KeyCode::F7 => "F7"@,
        KeyCode::F8 => "F8"@,
        KeyCode::F9 => "F9"@,
        KeyCode::F10 => "F10"@,
        KeyCode::F11 => "F11"@,
        KeyCode::F12 => "F12"@,
        KeyCode::F13 => "F13"@,
        KeyCode::F14 => "F14"@,
        KeyCode::F15 => "F15"@,
        KeyCode::F16 => "F16"@,
        KeyCode::F17 => "F17"@,
        KeyCode::F18 => "F18"@,
        KeyCode::F19 => "F19"@,
        KeyCode::F20 => "F20"@,
        KeyCode::Digit0 => "0"@,
        KeyCode::Digit1 => "1"@,
        KeyCode::Digit2 => "2"@,
        KeyCode::Digit3 => "3"@,
        KeyCode::Digit4 => "4"@,
        KeyCode::Digit5 => "5"@,
        KeyCode::Digit6 => "6"@,
        KeyCode::Digit7 => "7"@,
        KeyCode::Digit8 => "8"@,
        KeyCode::Digit9 => "9"@,
        KeyCode::KeyA => "A"@,
        KeyCode::KeyB => "B"@,
        KeyCode::KeyC => "C"@,
        KeyCode::KeyD => "D"@,
        KeyCode::KeyE => "E"@,
        KeyCode::KeyF => "F"@,
        KeyCode::KeyG => "G"@,
        KeyCode::KeyH => "H"@,
        KeyCode::KeyI => "I"@,
        KeyCode::KeyJ => "J"@,
        KeyCode::KeyK => "K"@,
        KeyCode::KeyL => "L"@,
        KeyCode::KeyM => "M"@,
        KeyCode::KeyN => "N"@,
        KeyCode::KeyO => "O"@,
        KeyCode::KeyP => "P"@,
        KeyCode::KeyQ => "Q"@,
        KeyCode::KeyR => "R"@,
        KeyCode::KeyS => "S"@,
        KeyCode::KeyT => "T"@,
        KeyCode::KeyU => "U"@,
        KeyCode::KeyV => "V"@,
        KeyCode::KeyW => "W"@,
        KeyCode::KeyX => "X"@,
        KeyCode::KeyY => "Y"@,
        KeyCode::KeyZ => "Z"@,
        KeyCode::Comma => "Comma"@,
        KeyCode::Period => "Period"@,
        KeyCode::Minus => "Minus"@,
        KeyCode::Equal => "Equal"@,
        KeyCode::BracketLeft => "BracketLeft"@,
        KeyCode::BracketRight => "BracketRight"@,
        KeyCode::Semicolon => "Semicolon"@,
        KeyCode::Quote => "Quote"@,
        KeyCode::Backslash => "Backslash"@,
        KeyCode::Backquote => "Backquote"@,
        KeyCode::Slash => "Slash"@,
        KeyCode::IntlBackslash => "IntlBackslash"@,
    }
}

/// Two keys never share a name.
pub proof fn lemma_key_name_injective(a: KeyCode, b: KeyCode)
    requires
        key_name(a) == key_name(b),
    ensures
        a == b,
{
    reveal_strlit("Space");
    reveal_strlit("Enter");
    reveal_strlit("Tab");
    reveal_strlit("Escape");
    reveal_strlit("Backspace");
    reveal_strlit("Delete");
    reveal_strlit("Home");
    reveal_strlit("End");
    reveal_strlit("PageUp");
    reveal_strlit("PageDown");
    reveal_strlit("ArrowUp");
    reveal_strlit("ArrowDown");
    reveal_strlit("ArrowLeft");
    reveal_strlit("ArrowRight");
    reveal_strlit("F1");
    reveal_strlit("F2");
    reveal_strlit("F3");
    reveal_strlit("F4");
    reveal_strlit("F5");
    reveal_strlit("F6");
    reveal_strlit("F7");
    reveal_strlit("F8");
    reveal_strlit("F9");
    reveal_strlit("F10");
    reveal_strlit("F11");
    reveal_strlit("F12");
    reveal_strlit("F13");
    reveal_strlit("F14");
    reveal_strlit("F15");
    reveal_strlit("F16");
    reveal_strlit("F17");
    reveal_strlit("F18");
    reveal_strlit("F19");
    reveal_strlit("F20");
    reveal_strlit("0");
    reveal_strlit("1");
    reveal_strlit("2");
    reveal_strlit("3");
    reveal_strlit("4");
    reveal_strlit("5");
    reveal_strlit("6");
    reveal_strlit("7");
    reveal_strlit("8");
    reveal_strlit("9");
    reveal_strlit("A");
    reveal_strlit("B");
    reveal_strlit("C");
    reveal_strlit("D");
    reveal_strlit("E");
    reveal_strlit("F");
    reveal_strlit("G");
    reveal_strlit("H");
    reveal_strlit("I");
    reveal_strlit("J");
    reveal_strlit("K");
    reveal_strlit("L");
    reveal_strlit("M");
    reveal_strlit("N");
    reveal_strlit("O");
    reveal_strlit("P");
    reveal_strlit("Q");
    reveal_strlit("R");
    reveal_strlit("S");
    reveal_strlit("T");
    reveal_strlit("U");
    reveal_strlit("V");
    reveal_strlit("W");
    reveal_strlit("X");
    reveal_strlit("Y");
    reveal_strlit("Z");
    reveal_strlit("Comma");
    reveal_strlit("Period");
    reveal_strlit("Minus");
    reveal_strlit("Equal");
    reveal_strlit("BracketLeft");
    reveal_strlit("BracketRight");
    reveal_strlit("Semicolon");
    reveal_strlit("Quote");
    reveal_strlit("Backslash");
    reveal_strlit("Backquote");
    reveal_strlit("Slash");
    reveal_strlit("IntlBackslash");
    assert("Space"@.len() == 5 && "Space"@[0] == 'S' && "Space"@[1] == 'p' && "Space"@[2] == 'a' && "Space"@[3] == 'c' && "Space"@[4] == 'e');
    assert("Enter"@.len() == 5 && "Enter"@[0] == 'E' && "Enter"@[1] == 'n' && "Enter"@[2] == 't' && "Enter"@[3] == 'e' && "Enter"@[4] == 'r');
    assert("Tab"@.len() == 3 && "Tab"@[0] == 'T' && "Tab"@[1] == 'a' && "Tab"@[2] == 'b');
    assert("Escape"@.len() == 6 && "Escape"@[0] == 'E' && "Escape"@[1] == 's' && "Escape"@[2] == 'c' && "Escape"@[3] == 'a' && "Escape"@[4] == 'p' && "Escape"@[5] == 'e');
    assert("Backspace"@.len() == 9 && "Backspace"@[0] == 'B' && "Backspace"@[1] == 'a' && "Backspace"@[2] == 'c' && "Backspace"@[3] == 'k' && "Backspace"@[4] == 's' && "Backspace"@[5] == 'p' && "Backspace"@[6] == 'a' && "Backspace"@[7] == 'c' && "Backspace"@[8] == 'e');
    assert("Delete"@.len() == 6 && "Delete"@[0] == 'D' && "Delete"@[1] == 'e' && "Delete"@[2] == 'l' && "Delete"@[3] == 'e' && "Delete"@[4] == 't' && "Delete"@[5] == 'e');
    assert("Home"@.len() == 4 && "Home"@[0] == 'H' && "Home"@[1] == 'o' && "Home"@[2] == 'm' && "Home"@[3] == 'e');
    assert("End"@.len() == 3 && "End"@[0] == 'E' && "End"@[1] == 'n' && "End"@[2] == 'd');
    assert("PageUp"@.len() == 6 && "PageUp"@[0] == 'P' && "PageUp"@[1] == 'a' && "PageUp"@[2] == 'g' && "PageUp"@[3] == 'e' && "PageUp"@[4] == 'U' && "PageUp"@[5] == 'p');
    assert("PageDown"@.len() == 8 && "PageDown"@[0] == 'P' && "PageDown"@[1] == 'a' && "PageDown"@[2] == 'g' && "PageDown"@[3] == 'e' && "PageDown"@[4] == 'D' && "PageDown"@[5] == 'o' && "PageDown"@[6] == 'w' && "PageDown"@[7] == 'n');
    assert("ArrowUp"@.len() == 7 && "ArrowUp"@[0] == 'A' && "ArrowUp"@[1] == 'r' && "ArrowUp"@[2] == 'r' && "ArrowUp"@[3] == 'o' && "ArrowUp"@[4] == 'w' && "ArrowUp"@[5] == 'U' && "ArrowUp"@[6] == 'p');
    assert("ArrowDown"@.len() == 9 && "ArrowDown"@[0] == 'A' && "ArrowDown"@[1] == 'r' && "ArrowDown"@[2] == 'r' && "ArrowDown"@[3] == 'o' && "ArrowDown"@[4] == 'w' && "ArrowDown"@[5] == 'D' && "ArrowDown"@[6] == 'o' && "ArrowDown"@[7] == 'w' && "ArrowDown"@[8] == 'n');
    assert("ArrowLeft"@.len() == 9 && "ArrowLeft"@[0] == 'A' && "ArrowLeft"@[1] == 'r' && "ArrowLeft"@[2] == 'r' && "ArrowLeft"@[3] == 'o' && "ArrowLeft"@[4] == 'w' && "ArrowLeft"@[5] == 'L' && "ArrowLeft"@[6] == 'e' && "ArrowLeft"@[7] == 'f' && "ArrowLeft"@[8] == 't');
    assert("ArrowRight"@.len() == 10 && "ArrowRight"@[0] == 'A' && "ArrowRight"@[1] == 'r' && "ArrowRight"@[2] == 'r' && "ArrowRight"@[3] == 'o' && "ArrowRight"@[4] == 'w' && "ArrowRight"@[5] == 'R' && "ArrowRight"@[6] == 'i' && "ArrowRight"@[7] == 'g' && "ArrowRight"@[8] == 'h' && "ArrowRight"@[9] == 't');
    assert("F1"@.len() == 2 && "F1"@[0] == 'F' && "F1"@[1] == '1');
    assert("F2"@.len() == 2 && "F2"@[0] == 'F' && "F2"@[1] == '2');
    assert("F3"@.len() == 2 && "F3"@[0] == 'F' && "F3"@[1] == '3');
    assert("F4"@.len() == 2 && "F4"@[0] == 'F' && "F4"@[1] == '4');
    assert("F5"@.len() == 2 && "F5"@[0] == 'F' && "F5"@[1] == '5');
    assert("F6"@.len() == 2 && "F6"@[0] == 'F' && "F6"@[1] == '6');
    assert("F7"@.len() == 2 && "F7"@[0] == 'F' && "F7"@[1] == '7');
    assert("F8"@.len() == 2 && "F8"@[0] == 'F' && "F8"@[1] == '8');
    assert("F9"@.len() == 2 && "F9"@[0] == 'F' && "F9"@[1] == '9');
    assert("F10"@.len() == 3 && "F10"@[0] == 'F' && "F10"@[1] == '1' && "F10"@[2] == '0');
    assert("F11"@.len() == 3 && "F11"@[0] == 'F' && "F11"@[1] == '1' && "F11"@[2] == '1');
    assert("F12"@.len() == 3 && "F12"@[0] == 'F' && "F12"@[1] == '1' && "F12"@[2] == '2');
    assert("F13"@.len() == 3 && "F13"@[0] == 'F' && "F13"@[1] == '1' && "F13"@[2] == '3');
    assert("F14"@.len() == 3 && "F14"@[0] == 'F' && "F14"@[1] == '1' && "F14"@[2] == '4');
    assert("F15"@.len() == 3 && "F15"@[0] == 'F' && "F15"@[1] == '1' && "F15"@[2] == '5');
    assert("F16"@.len() == 3 && "F16"@[0] == 'F' && "F16"@[1] == '1' && "F16"@[2] == '6');
    assert("F17"@.len() == 3 && "F17"@[0] == 'F' && "F17"@[1] == '1' && "F17"@[2] == '7');
    assert("F18"@.len() == 3 && "F18"@[0] == 'F' && "F18"@[1] == '1' && "F18"@[2] == '8');
    assert("F19"@.len() == 3 && "F19"@[0] == 'F' && "F19"@[1] == '1' && "F19"@[2] == '9');
    assert("F20"@.len() == 3 && "F20"@[0] == 'F' && "F20"@[1] == '2' && "F20"@[2] == '0');
    assert("0"@.len() == 1 && "0"@[0] == '0');
    assert("1"@.len() == 1 && "1"@[0] == '1');
    assert("2"@.len() == 1 && "2"@[0] == '2');
    assert("3"@.len() == 1 && "3"@[0] == '3');
    assert("4"@.len() == 1 && "4"@[0] == '4');
    assert("5"@.len() == 1 && "5"@[0] == '5');
    assert("6"@.len() == 1 && "6"@[0] == '6');
    assert("7"@.len() == 1 && "7"@[0] == '7');
    assert("8"@.len() == 1 && "8"@[0] == '8');
    assert("9"@.len() == 1 && "9"@[0] == '9');
    assert("A"@.len() == 1 && "A"@[0] == 'A');
    assert("B"@.len() == 1 && "B"@[0] == 'B');
    assert("C"@.len() == 1 && "C"@[0] == 'C');
    assert("D"@.len() == 1 && "D"@[0] == 'D');
    assert("E"@.len() == 1 && "E"@[0] == 'E');
    assert("F"@.len() == 1 && "F"@[0] == 'F');
    assert("G"@.len() == 1 && "G"@[0] == 'G');
    assert("H"@.len() == 1 && "H"@[0] == 'H');
    assert("I"@.len() == 1 && "I"@[0] == 'I');
    assert("J"@.len() == 1 && "J"@[0] == 'J');
    assert("K"@.len() == 1 && "K"@[0] == 'K');
    assert("L"@.len() == 1 && "L"@[0] == 'L');
    assert("M"@.len() == 1 && "M"@[0] == 'M');
    assert("N"@.len() == 1 && "N"@[0] == 'N');
    assert("O"@.len() == 1 && "O"@[0] == 'O');
    assert("P"@.len() == 1 && "P"@[0] == 'P');
    assert("Q"@.len() == 1 && "Q"@[0] == 'Q');
    assert("R"@.len() == 1 && "R"@[0] == 'R');
    assert("S"@.len() == 1 && "S"@[0] == 'S');
    assert("T"@.len() == 1 && "T"@[0] == 'T');
    assert("U"@.len() == 1 && "U"@[0] == 'U');
    assert("V"@.len() == 1 && "V"@[0] == 'V');
    assert("W"@.len() == 1 && "W"@[0] == 'W');
    assert("X"@.len() == 1 && "X"@[0] == 'X');
    assert("Y"@.len() == 1 && "Y"@[0] == 'Y');
    assert("Z"@.len() == 1 && "Z"@[0] == 'Z');
    assert("Comma"@.len() == 5 && "Comma"@[0] == 'C' && "Comma"@[1] == 'o' && "Comma"@[2] == 'm' && "Comma"@[3] == 'm' && "Comma"@[4] == 'a');
    assert("Period"@.len() == 6 && "Period"@[0] == 'P' && "Period"@[1] == 'e' && "Period"@[2] == 'r' && "Period"@[3] == 'i' && "Period"@[4] == 'o' && "Period"@[5] == 'd');
    assert("Minus"@.len() == 5 && "Minus"@[0] == 'M' && "Minus"@[1] == 'i' && "Minus"@[2] == 'n' && "Minus"@[3] == 'u' && "Minus"@[4] == 's');
    assert("Equal"@.len() == 5 && "Equal"@[0] == 'E' && "Equal"@[1] == 'q' && "Equal"@[2] == 'u' && "Equal"@[3] == 'a' && "Equal"@[4] == 'l');
    assert("BracketLeft"@.len() == 11 && "BracketLeft"@[0] == 'B' && "BracketLeft"@[1] == 'r' && "BracketLeft"@[2] == 'a' && "BracketLeft"@[3] == 'c' && "BracketLeft"@[4] == 'k' && "BracketLeft"@[5] == 'e' && "BracketLeft"@[6] == 't' && "BracketLeft"@[7] == 'L' && "BracketLeft"@[8] == 'e' && "BracketLeft"@[9] == 'f' && "BracketLeft"@[10] == 't');
    assert("BracketRight"@.len() == 12 && "BracketRight"@[0] == 'B' && "BracketRight"@[1] == 'r' && "BracketRight"@[2] == 'a' && "BracketRight"@[3] == 'c' && "BracketRight"@[4] == 'k' && "BracketRight"@[5] == 'e' && "BracketRight"@[6] == 't' && "BracketRight"@[7] == 'R' && "BracketRight"@[8] == 'i' && "BracketRight"@[9] == 'g' && "BracketRight"@[10] == 'h' && "BracketRight"@[11] == 't');
    assert("Semicolon"@.len() == 9 && "Semicolon"@[0] == 'S' && "Semicolon"@[1] == 'e' && "Semicolon"@[2] == 'm' && "Semicolon"@[3] == 'i' && "Semicolon"@[4] == 'c' && "Semicolon"@[5] == 'o' && "Semicolon"@[6] == 'l' && "Semicolon"@[7] == 'o' && "Semicolon"@[8] == 'n');
    assert("Quote"@.len() == 5 && "Quote"@[0] == 'Q' && "Quote"@[1] == 'u' && "Quote"@[2] == 'o' && "Quote"@[3] == 't' && "Quote"@[4] == 'e');
    assert("Backslash"@.len() == 9 && "Backslash"@[0] == 'B' && "Backslash"@[1] == 'a' && "Backslash"@[2] == 'c' && "Backslash"@[3] == 'k' && "Backslash"@[4] == 's' && "Backslash"@[5] == 'l' && "Backslash"@[6] == 'a' && "Backslash"@[7] == 's' && "Backslash"@[8] == 'h');
    assert("Backquote"@.len() == 9 && "Backquote"@[0] == 'B' && "Backquote"@[1] == 'a' && "Backquote"@[2] == 'c' && "Backquote"@[3] == 'k' && "Backquote"@[4] == 'q' && "Backquote"@[5] == 'u' && "Backquote"@[6] == 'o' && "Backquote"@[7] == 't' && "Backquote"@[8] == 'e');
    assert("Slash"@.len() == 5 && "Slash"@[0] == 'S' && "Slash"@[1] == 'l' && "Slash"@[2] == 'a' && "Slash"@[3] == 's' && "Slash"@[4] == 'h');
    assert("IntlBackslash"@.len() == 13 && "IntlBackslash"@[0] == 'I' && "IntlBackslash"@[1] == 'n' && "IntlBackslash"@[2] == 't' && "IntlBackslash"@[3] == 'l' && "IntlBackslash"@[4] == 'B' && "IntlBackslash"@[5] == 'a' && "IntlBackslash"@[6] == 'c' && "IntlBackslash"@[7] == 'k' && "IntlBackslash"@[8] == 's' && "IntlBackslash"@[9] == 'l' && "IntlBackslash"@[10] == 'a' && "IntlBackslash"@[11] == 's' && "IntlBackslash"@[12] == 'h');
    assert(key_name(a).len() == key_name(b).len());
    assert(key_name(a)[0] == key_name(b)[0]);
    assert(key_name(a)[1] == key_name(b)[1]);
    assert(key_name(a)[2] == key_name(b)[2]);
    assert(key_name(a)[3] == key_name(b)[3]);
    assert(key_name(a)[4] == key_name(b)[4]);
    assert(key_name(a)[5] == key_name(b)[5]);
    assert(key_name(a)[6] == key_name(b)[6]);
    assert(key_name(a)[7] == key_name(b)[7]);
    assert(key_name(a)[8] == key_name(b)[8]);
    assert(key_name(a)[9] == key_name(b)[9]);
    assert(key_name(a)[10] == key_name(b)[10]);
    assert(key_name(a)[11] == key_name(b)[11]);
    assert(key_name(a)[12] == key_name(b)[12]);
}

/// The key that `s` names, if any.
pub open spec fn key_code_named(s: Seq<char>) -> Option<KeyCode> {
    if exists|k: KeyCode| key_name(k) == s {
        Some(choose|k: KeyCode| key_name(k) == s)
    } else {
        None
    }
}

/// A key's own name denotes that key.
pub proof fn lemma_key_code_named(k: KeyCode)
    ensures
        key_code_named(key_name(k)) == Some(k),
{
    let c = choose|j: KeyCode| key_name(j) == key_name(k);
    lemma_key_name_injective(c, k);
}

fn key_code_of_chars_table(seg: &Vec<char>) -> (r: Option<KeyCode>)
    ensures
        match r {
            Some(k) => key_name(k) == seg@,
            None => forall|k: KeyCode| key_name(k) != seg@,
        },
{
    if chars_eq_str(seg, "Space") {
        return Some(KeyCode::Space);
    }
    if chars_eq_str(seg, "Enter") {
        return Some(KeyCode::Enter);
    }
    if chars_eq_str(seg, "Tab") {
        return Some(KeyCode::Tab);
    }
    if chars_eq_str(seg, "Escape") {
        return Some(KeyCode::Escape);
    }
    if chars_eq_str(seg, "Backspace") {
        return Some(KeyCode::Backspace);
    }
    if chars_eq_str(seg, "Delete") {
        return Some(KeyCode::Delete);
    }
    if chars_eq_str(seg, "Home") {
        return Some(KeyCode::Home);
    }
    if chars_eq_str(seg, "End") {
        return Some(KeyCode::End);
    }
    if chars_eq_str(seg, "PageUp") {
        return Some(KeyCode::PageUp);
    }
    if chars_eq_str(seg, "PageDown") {
        return Some(KeyCode::PageDown);
    }
    if chars_eq_str(seg, "ArrowUp") {
        return Some(KeyCode::ArrowUp);
    }
    if chars_eq_str(seg, "ArrowDown") {
        return Some(KeyCode::ArrowDown);
    }
    if chars_eq_str(seg, "ArrowLeft") {
        return Some(KeyCode::ArrowLeft);
    }
    if chars_eq_str(seg, "ArrowRight") {
        return Some(KeyCode::ArrowRight);
    }
    if chars_eq_str(seg, "F1") {
        return Some(KeyCode::F1);
    }
    if chars_eq_str(seg, "F2") {
        return Some(KeyCode::F2);
    }
    if chars_eq_str(seg, "F3") {
        return Some(KeyCode::F3);
    }
    if chars_eq_str(seg, "F4") {
        return Some(KeyCode::F4);
    }
    if chars_eq_str(seg, "F5") {
        return Some(KeyCode::F5);
    }
    if chars_eq_str(seg, "F6") {
        return Some(KeyCode::F6);
    }
    if chars_eq_str(seg, "F7") {
        return Some(KeyCode::F7);
    }
    if chars_eq_str(seg, "F8") {
        return Some(KeyCode::F8);
    }
    if chars_eq_str(seg, "F9") {
        return Some(KeyCode::F9);
    }
    if chars_eq_str(seg, "F10") {
        return Some(KeyCode::F10);
    }
    if chars_eq_str(seg, "F11") {
        return Some(KeyCode::F11);
    }
    if chars_eq_str(seg, "F12") {
        return Some(KeyCode::F12);
    }
    if chars_eq_str(seg, "F13") {
        return Some(KeyCode::F13);
    }
    if chars_eq_str(seg, "F14") {
        return Some(KeyCode::F14);
    }
    if chars_eq_str(seg, "F15") {
        return Some(KeyCode::F15);
    }
    if chars_eq_str(seg, "F16") {
        return Some(KeyCode::F16);
    }
    if chars_eq_str(seg, "F17") {
        return Some(KeyCode::F17);
    }
    if chars_eq_str(seg, "F18") {
        return Some(KeyCode::F18);
    }
    if chars_eq_str(seg, "F19") {
        return Some(KeyCode::F19);
    }
    if chars_eq_str(seg, "F20") {
        return Some(KeyCode::F20);
    }
    if chars_eq_str(seg, "0") {
        return Some(KeyCode::Digit0);
    }
    if chars_eq_str(seg, "1") {
        return Some(KeyCode::Digit1);
    }
    if chars_eq_str(seg, "2") {
        return Some(KeyCode::Digit2);
    }
    if chars_eq_str(seg, "3") {
        return Some(KeyCode::Digit3);
    }
    if chars_eq_str(seg, "4") {
        return Some(KeyCode::Digit4);
    }
    if chars_eq_str(seg, "5") {
        return Some(KeyCode::Digit5);
    }
    if chars_eq_str(seg, "6") {
        return Some(KeyCode::Digit6);
    }
    if chars_eq_str(seg, "7") {
        return Some(KeyCode::Digit7);
    }
    if chars_eq_str(seg, "8") {
        return Some(KeyCode::Digit8);
    }
    if chars_eq_str(seg, "9") {
        return Some(KeyCode::Digit9);
    }
    if chars_eq_str(seg, "A") {
        return Some(KeyCode::KeyA);
    }
    if chars_eq_str(seg, "B") {
        return Some(KeyCode::KeyB);
    }
    if chars_eq_str(seg, "C") {
        return Some(KeyCode::KeyC);
    }
    if chars_eq_str(seg, "D") {
        return Some(KeyCode::KeyD);
    }
    if chars_eq_str(seg, "E") {
        return Some(KeyCode::KeyE);
    }
    if chars_eq_str(seg, "F") {
        return Some(KeyCode::KeyF);
    }
    if chars_eq_str(seg, "G") {
        return Some(KeyCode::KeyG);
    }
    if chars_eq_str(seg, "H") {
        return Some(KeyCode::KeyH);
    }
    if chars_eq_str(seg, "I") {
        return Some(KeyCode::KeyI);
    }
    if chars_eq_str(seg, "J") {
        return Some(KeyCode::KeyJ);
    }
    if chars_eq_str(seg, "K") {
        return Some(KeyCode::KeyK);
    }
    if chars_eq_str(seg, "L") {
        return Some(KeyCode::KeyL);
    }
    if chars_eq_str(seg, "M") {
        return Some(KeyCode::KeyM);
    }
    if chars_eq_str(seg, "N") {
        return Some(KeyCode::KeyN);
    }
    if chars_eq_str(seg, "O") {
        return Some(KeyCode::KeyO);
    }
    if chars_eq_str(seg, "P") {
        return Some(KeyCode::KeyP);
    }
    if chars_eq_str(seg, "Q") {
        return Some(KeyCode::KeyQ);
    }
    if chars_eq_str(seg, "R") {
        return Some(KeyCode::KeyR);
    }
    if chars_eq_str(seg, "S") {
        return Some(KeyCode::KeyS);
    }
    if chars_eq_str(seg, "T") {
        return Some(KeyCode::KeyT);
    }
    if chars_eq_str(seg, "U") {
        return Some(KeyCode::KeyU);
    }
    if chars_eq_str(seg, "V") {
        return Some(KeyCode::KeyV);
    }
    if chars_eq_str(seg, "W") {
        return Some(KeyCode::KeyW);
    }
    if chars_eq_str(seg, "X") {
        return Some(KeyCode::KeyX);
    }
    if chars_eq_str(seg, "Y") {
        return Some(KeyCode::KeyY);
    }
    if chars_eq_str(seg, "Z") {
        return Some(KeyCode::KeyZ);
    }
    if chars_eq_str(seg, "Comma") {
        return Some(KeyCode::Comma);
    }
    if chars_eq_str(seg, "Period") {
        return Some(KeyCode::Period);
    }
    if chars_eq_str(seg, "Minus") {
        return Some(KeyCode::Minus);
    }
    if chars_eq_str(seg, "Equal") {
        return Some(KeyCode::Equal);
    }
    if chars_eq_str(seg, "BracketLeft") {
        return Some(KeyCode::BracketLeft);
    }
    if chars_eq_str(seg, "BracketRight") {
        return Some(KeyCode::BracketRight);
    }
    if chars_eq_str(seg, "Semicolon") {
        return Some(KeyCode::Semicolon);
    }
    if chars_eq_str(seg, "Quote") {
        return Some(KeyCode::Quote);
    }
    if chars_eq_str(seg, "Backslash") {
        return Some(KeyCode::Backslash);
    }
    if chars_eq_str(seg, "Backquote") {
        return Some(KeyCode::Backquote);
    }
    if chars_eq_str(seg, "Slash") {
        return Some(KeyCode::Slash);
    }
    if chars_eq_str(seg, "IntlBackslash") {
        return Some(KeyCode::IntlBackslash);
    }
    assert forall|k: KeyCode| key_name(k) != seg@ by {
        match k {
            KeyCode::Space => {},
            KeyCode::Enter => {},
            KeyCode::Tab => {},
            KeyCode::Escape => {},
            KeyCode::Backspace => {},
            KeyCode::Delete => {},
            KeyCode::Home => {},
            KeyCode::End => {},
            KeyCode::PageUp => {},
            KeyCode::PageDown => {},
            KeyCode::ArrowUp => {},
            KeyCode::ArrowDown => {},
            KeyCode::ArrowLeft => {},
            KeyCode::ArrowRight => {},
            KeyCode::F1 => {},
            KeyCode::F2 => {},
            KeyCode::F3 => {},
            KeyCode::F4 => {},
            KeyCode::F5 => {},
            KeyCode::F6 => {},
            KeyCode::F7 => {},
            KeyCode::F8 => {},
            KeyCode::F9 => {},
            KeyCode::F10 => {},
            KeyCode::F11 => {},
            KeyCode::F12 => {},
            KeyCode::F13 => {},
            KeyCode::F14 => {},
            KeyCode::F15 => {},
            KeyCode::F16 => {},
            KeyCode::F17 => {},
            KeyCode::F18 => {},
            KeyCode::F19 => {},
            KeyCode::F20 => {},
            KeyCode::Digit0 => {},
            KeyCode::Digit1 => {},
            KeyCode::Digit2 => {},
            KeyCode::Digit3 => {},
            KeyCode::Digit4 => {},
            KeyCode::Digit5 => {},
            KeyCode::Digit6 => {},
            KeyCode::Digit7 => {},
            KeyCode::Digit8 => {},
            KeyCode::Digit9 => {},
            KeyCode::KeyA => {},
            KeyCode::KeyB => {},
            KeyCode::KeyC => {},
            KeyCode::KeyD => {},
            KeyCode::KeyE => {},
            KeyCode::KeyF => {},
            KeyCode::KeyG => {},
            KeyCode::KeyH => {},
            KeyCode::KeyI => {},
            KeyCode::KeyJ => {},
            KeyCode::KeyK => {},
            KeyCode::KeyL => {},
            KeyCode::KeyM => {},
            KeyCode::KeyN => {},
            KeyCode::KeyO => {},
            KeyCode::KeyP => {},
            KeyCode::KeyQ => {},
            KeyCode::KeyR => {},
            KeyCode::KeyS => {},
            KeyCode::KeyT => {},
            KeyCode::KeyU => {},
            KeyCode::KeyV => {},
            KeyCode::KeyW => {},
            KeyCode::KeyX => {},
            KeyCode::KeyY => {},
            KeyCode::KeyZ => {},
            KeyCode::Comma => {},
            KeyCode::Period => {},
            KeyCode::Minus => {},
            KeyCode::Equal => {},
            KeyCode::BracketLeft => {},
            KeyCode::BracketRight => {},
            KeyCode::Semicolon => {},
            KeyCode::Quote => {},
            KeyCode::Backslash => {},
            KeyCode::Backquote => {},
            KeyCode::Slash => {},
            KeyCode::IntlBackslash => {},
        }
    }
    None
}

/// The letter keys in alphabetical order, `A` to `Z`.
pub open spec fn letter_keys() -> Seq<KeyCode> {
    seq![KeyCode::KeyA, KeyCode::KeyB, KeyCode::KeyC, KeyCode::KeyD, KeyCode::KeyE, KeyCode::KeyF, KeyCode::KeyG, KeyCode::KeyH, KeyCode::KeyI, KeyCode::KeyJ, KeyCode::KeyK, KeyCode::KeyL, KeyCode::KeyM, KeyCode::KeyN, KeyCode::KeyO, KeyCode::KeyP, KeyCode::KeyQ, KeyCode::KeyR, KeyCode::KeyS, KeyCode::KeyT, KeyCode::KeyU, KeyCode::KeyV, KeyCode::KeyW, KeyCode::KeyX, KeyCode::KeyY, KeyCode::KeyZ]
}

/// The digit keys in order, `0` to `9`.
pub open spec fn digit_keys() -> Seq<KeyCode> {
    seq![KeyCode::Digit0, KeyCode::Digit1, KeyCode::Digit2, KeyCode::Digit3, KeyCode::Digit4, KeyCode::Digit5, KeyCode::Digit6, KeyCode::Digit7, KeyCode::Digit8, KeyCode::Digit9]
}

/// The function keys in order, `F1` to `F20`.
pub open spec fn function_keys() -> Seq<KeyCode> {
    seq![KeyCode::F1, KeyCode::F2, KeyCode::F3, KeyCode::F4, KeyCode::F5, KeyCode::F6, KeyCode::F7, KeyCode::F8, KeyCode::F9, KeyCode::F10, KeyCode::F11, KeyCode::F12, KeyCode::F13, KeyCode::F14, KeyCode::F15, KeyCode::F16, KeyCode::F17, KeyCode::F18, KeyCode::F19, KeyCode::F20]
}

/// The decimal numeral of `n` (below 100).
pub open spec fn decimal(n: int) -> Seq<char> {
    if n < 10 {
        seq![(48 + n) as char]
    } else {
        seq![(48 + n / 10) as char, (48 + n % 10) as char]
    }
}

/// Each capital letter names its own letter key: the `i`-th letter of the
/// alphabet parses to the `i`-th letter key.
pub proof fn law_letters_name_their_keys(i: int)
    requires
        0 <= i < 26,
    ensures
        key_code_named(seq![(65 + i) as char]) == Some(letter_keys()[i]),
{
    if i == 0 {
        reveal_strlit("A");
        assert("A"@.len() == 1 && "A"@[0] == 'A');
        assert("A"@ =~= seq![(65 + i) as char]);
        lemma_key_code_named(KeyCode::KeyA);
    }
    if i == 1 {
        reveal_strlit("B");
        assert("B"@.len() == 1 && "B"@[0] == 'B');
        assert("B"@ =~= seq![(65 + i) as char]);
        lemma_key_code_named(KeyCode::KeyB);
    }
    if i == 2 {
        reveal_strlit("C");
        assert("C"@.len() == 1 && "C"@[0] == 'C');
        assert("C"@ =~= seq![(65 + i) as char]);
        lemma_key_code_named(KeyCode::KeyC);
    }
    if i == 3 {
        reveal_strlit("D");
        assert("D"@.len() == 1 && "D"@[0] == 'D');
        assert("D"@ =~= seq![(65 + i) as char]);
        lemma_key_code_named(KeyCode::KeyD);
    }
    if i == 4 {
        reveal_strlit("E");
        assert("E"@.len() == 1 && "E"@[0] == 'E');
        assert("E"@ =~= seq![(65 + i) as char]);
        lemma_key_code_named(KeyCode::KeyE);
    }
    if i == 5 {
        reveal_strlit("F");
        assert("F"@.len() == 1 && "F"@[0] == 'F');
        assert("F"@ =~= seq![(65 + i) as char]);
        lemma_key_code_named(KeyCode::KeyF);
    }
    if i == 6 {
        reveal_strlit("G");
        assert("G"@.len() == 1 && "G"@[0] == 'G');
        assert("G"@ =~= seq![(65 + i) as char]);
        lemma_key_code_named(KeyCode::KeyG);
    }
    if i == 7 {
        reveal_strlit("H");
        assert("H"@.len() == 1 && "H"@[0] == 'H');
        assert("H"@ =~= seq![(65 + i) as char]);
        lemma_key_code_named(KeyCode::KeyH);
    }
    if i == 8 {
        reveal_strlit("I");
        assert("I"@.len() == 1 && "I"@[0] == 'I');
        assert("I"@ =~= seq![(65 + i) as char]);
        lemma_key_code_named(KeyCode::KeyI);
    }
    if i == 9 {
        reveal_strlit("J");
        assert("J"@.len() == 1 && "J"@[0] == 'J');
        assert("J"@ =~= seq![(65 + i) as char]);
        lemma_key_code_named(KeyCode::KeyJ);
    }
    if i == 10 {
        reveal_strlit("K");
        assert("K"@.len() == 1 && "K"@[0] == 'K');
        assert("K"@ =~= seq![(65 + i) as char]);
        lemma_key_code_named(KeyCode::KeyK);
    }
    if i == 11 {
        reveal_strlit("L");
        assert("L"@.len() == 1 && "L"@[0] == 'L');
        assert("L"@ =~= seq![(65 + i) as char]);
        lemma_key_code_named(KeyCode::KeyL);
    }
    if i == 12 {
        reveal_strlit("M");
        assert("M"@.len() == 1 && "M"@[0] == 'M');
        assert("M"@ =~= seq![(65 + i) as char]);
        lemma_key_code_named(KeyCode::KeyM);
    }
    if i == 13 {
        reveal_strlit("N");
        assert("N"@.len() == 1 && "N"@[0] == 'N');
        assert("N"@ =~= seq![(65 + i) as char]);
        lemma_key_code_named(KeyCode::KeyN);
    }
    if i == 14 {
        reveal_strlit("O");
        assert("O"@.len() == 1 && "O"@[0] == 'O');
        assert("O"@ =~= seq![(65 + i) as char]);
        lemma_key_code_named(KeyCode::KeyO);
    }
    if i == 15 {
        reveal_strlit("P");
        assert("P"@.len() == 1 && "P"@[0] == 'P');
        assert("P"@ =~= seq![(65 + i) as char]);
        lemma_key_code_named(KeyCode::KeyP);
    }
    if i == 16 {
        reveal_strlit("Q");
        assert("Q"@.len() == 1 && "Q"@[0] == 'Q');
        assert("Q"@ =~= seq![(65 + i) as char]);
        lemma_key_code_named(KeyCode::KeyQ);
    }
    if i == 17 {
        reveal_strlit("R");
        assert("R"@.len() == 1 && "R"@[0] == 'R');
        assert("R"@ =~= seq![(65 + i) as char]);
        lemma_key_code_named(KeyCode::KeyR);
    }
    if i == 18 {
        reveal_strlit("S");
        assert("S"@.len() == 1 && "S"@[0] == 'S');
        assert("S"@ =~= seq![(65 + i) as char]);
        lemma_key_code_named(KeyCode::KeyS);
    }
    if i == 19 {
        reveal_strlit("T");
        assert("T"@.len() == 1 && "T"@[0] == 'T');
        assert("T"@ =~= seq![(65 + i) as char]);
        lemma_key_code_named(KeyCode::KeyT);
    }
    if i == 20 {
        reveal_strlit("U");
        assert("U"@.len() == 1 && "U"@[0] == 'U');
        assert("U"@ =~= seq![(65 + i) as char]);
        lemma_key_code_named(KeyCode::KeyU);
    }
    if i == 21 {
        reveal_strlit("V");
        assert("V"@.len() == 1 && "V"@[0] == 'V');
        assert("V"@ =~= seq![(65 + i) as char]);
        lemma_key_code_named(KeyCode::KeyV);
    }
    if i == 22 {
        reveal_strlit("W");
        assert("W"@.len() == 1 && "W"@[0] == 'W');
        assert("W"@ =~= seq![(65 + i) as char]);
        lemma_key_code_named(KeyCode::KeyW);
    }
    if i == 23 {
        reveal_strlit("X");
        assert("X"@.len() == 1 && "X"@[0] == 'X');
        assert("X"@ =~= seq![(65 + i) as char]);
        lemma_key_code_named(KeyCode::KeyX);
    }
    if i == 24 {
        reveal_strlit("Y");
        assert("Y"@.len() == 1 && "Y"@[0] == 'Y');
        assert("Y"@ =~= seq![(65 + i) as char]);
        lemma_key_code_named(KeyCode::KeyY);
    }
    if i == 25 {
        reveal_strlit("Z");
        assert("Z"@.len() == 1 && "Z"@[0] == 'Z');
        assert("Z"@ =~= seq![(65 + i) as char]);
        lemma_key_code_named(KeyCode::KeyZ);
    }
}

/// Each decimal digit names its own digit key.
pub proof fn law_digits_name_their_keys(i: int)
    requires
        0 <= i < 10,
    ensures
        key_code_named(seq![(48 + i) as char]) == Some(digit_keys()[i]),
{
    if i == 0 {
        reveal_strlit("0");
        assert("0"@.len() == 1 && "0"@[0] == '0');
        assert("0"@ =~= seq![(48 + i) as char]);
        lemma_key_code_named(KeyCode::Digit0);
    }
    if i == 1 {
        reveal_strlit("1");
        assert("1"@.len() == 1 && "1"@[0] == '1');
        assert("1"@ =~= seq![(48 + i) as char]);
        lemma_key_code_named(KeyCode::Digit1);
    }
    if i == 2 {
        reveal_strlit("2");
        assert("2"@.len() == 1 && "2"@[0] == '2');
        assert("2"@ =~= seq![(48 + i) as char]);
        lemma_key_code_named(KeyCode::Digit2);
    }
    if i == 3 {
        reveal_strlit("3");
        assert("3"@.len() == 1 && "3"@[0] == '3');
        assert("3"@ =~= seq![(48 + i) as char]);
        lemma_key_code_named(KeyCode::Digit3);
    }
    if i == 4 {
        reveal_strlit("4");
        assert("4"@.len() == 1 && "4"@[0] == '4');
        assert("4"@ =~= seq![(48 + i) as char]);
        lemma_key_code_named(KeyCode::Digit4);
    }
    if i == 5 {
        reveal_strlit("5");
        assert("5"@.len() == 1 && "5"@[0] == '5');
        assert("5"@ =~= seq![(48 + i) as char]);
        lemma_key_code_named(KeyCode::Digit5);
    }
    if i == 6 {
        reveal_strlit("6");
        assert("6"@.len() == 1 && "6"@[0] == '6');
        assert("6"@ =~= seq![(48 + i) as char]);
        lemma_key_code_named(KeyCode::Digit6);
    }
    if i == 7 {
        reveal_strlit("7");
        assert("7"@.len() == 1 && "7"@[0] == '7');
        assert("7"@ =~= seq![(48 + i) as char]);
        lemma_key_code_named(KeyCode::Digit7);
    }
    if i == 8 {
        reveal_strlit("8");
        assert("8"@.len() == 1 && "8"@[0] == '8');
        assert("8"@ =~= seq![(48 + i) as char]);
        lemma_key_code_named(KeyCode::Digit8);
    }
    if i == 9 {
        reveal_strlit("9");
        assert("9"@.len() == 1 && "9"@[0] == '9');
        assert("9"@ =~= seq![(48 + i) as char]);
        lemma_key_code_named(KeyCode::Digit9);
    }
}

/// `F` followed by the number `n` (1 to 20) names the `n`-th function key.
pub proof fn law_function_keys_named_by_number(n: int)
    requires
        1 <= n <= 20,
    ensures
        key_code_named(seq!['F'] + decimal(n)) == Some(function_keys()[n - 1]),
{
    if n == 1 {
        reveal_strlit("F1");
        assert("F1"@.len() == 2 && "F1"@[0] == 'F' && "F1"@[1] == '1');
        assert("F1"@ =~= seq!['F'] + decimal(n));
        lemma_key_code_named(KeyCode::F1);
    }
    if n == 2 {
        reveal_strlit("F2");
        assert("F2"@.len() == 2 && "F2"@[0] == 'F' && "F2"@[1] == '2');
        assert("F2"@ =~= seq!['F'] + decimal(n));
        lemma_key_code_named(KeyCode::F2);
    }
    if n == 3 {
        reveal_strlit("F3");
        assert("F3"@.len() == 2 && "F3"@[0] == 'F' && "F3"@[1] == '3');
        assert("F3"@ =~= seq!['F'] + decimal(n));
        lemma_key_code_named(KeyCode::F3);
    }
    if n == 4 {
        reveal_strlit("F4");
        assert("F4"@.len() == 2 && "F4"@[0] == 'F' && "F4"@[1] == '4');
        assert("F4"@ =~= seq!['F'] + decimal(n));
        lemma_key_code_named(KeyCode::F4);
    }
    if n == 5 {
        reveal_strlit("F5");
        assert("F5"@.len() == 2 && "F5"@[0] == 'F' && "F5"@[1] == '5');
        assert("F5"@ =~= seq!['F'] + decimal(n));
        lemma_key_code_named(KeyCode::F5);
    }
    if n == 6 {
        reveal_strlit("F6");
        assert("F6"@.len() == 2 && "F6"@[0] == 'F' && "F6"@[1] == '6');
        assert("F6"@ =~= seq!['F'] + decimal(n));
        lemma_key_code_named(KeyCode::F6);
    }
    if n == 7 {
        reveal_strlit("F7");
        assert("F7"@.len() == 2 && "F7"@[0] == 'F' && "F7"@[1] == '7');
        assert("F7"@ =~= seq!['F'] + decimal(n));
        lemma_key_code_named(KeyCode::F7);
    }
    if n == 8 {
        reveal_strlit("F8");
        assert("F8"@.len() == 2 && "F8"@[0] == 'F' && "F8"@[1] == '8');
        assert("F8"@ =~= seq!['F'] + decimal(n));
        lemma_key_code_named(KeyCode::F8);
    }
    if n == 9 {
        reveal_strlit("F9");
        assert("F9"@.len() == 2 && "F9"@[0] == 'F' && "F9"@[1] == '9');
        assert("F9"@ =~= seq!['F'] + decimal(n));
        lemma_key_code_named(KeyCode::F9);
    }
    if n == 10 {
        reveal_strlit("F10");
        assert("F10"@.len() == 3 && "F10"@[0] == 'F' && "F10"@[1] == '1' && "F10"@[2] == '0');
        assert("F10"@ =~= seq!['F'] + decimal(n));
        lemma_key_code_named(KeyCode::F10);
    }
    if n == 11 {
        reveal_strlit("F11");
        assert("F11"@.len() == 3 && "F11"@[0] == 'F' && "F11"@[1] == '1' && "F11"@[2] == '1');
        assert("F11"@ =~= seq!['F'] + decimal(n));
        lemma_key_code_named(KeyCode::F11);
    }
    if n == 12 {
        reveal_strlit("F12");
        assert("F12"@.len() == 3 && "F12"@[0] == 'F' && "F12"@[1] == '1' && "F12"@[2] == '2');
        assert("F12"@ =~= seq!['F'] + decimal(n));
        lemma_key_code_named(KeyCode::F12);
    }
    if n == 13 {
        reveal_strlit("F13");
        assert("F13"@.len() == 3 && "F13"@[0] == 'F' && "F13"@[1] == '1' && "F13"@[2] == '3');
        assert("F13"@ =~= seq!['F'] + decimal(n));
        lemma_key_code_named(KeyCode::F13);
    }
    if n == 14 {
        reveal_strlit("F14");
        assert("F14"@.len() == 3 && "F14"@[0] == 'F' && "F14"@[1] == '1' && "F14"@[2] == '4');
        assert("F14"@ =~= seq!['F'] + decimal(n));
        lemma_key_code_named(KeyCode::F14);
    }
    if n == 15 {
        reveal_strlit("F15");
        assert("F15"@.len() == 3 && "F15"@[0] == 'F' && "F15"@[1] == '1' && "F15"@[2] == '5');
        assert("F15"@ =~= seq!['F'] + decimal(n));
        lemma_key_code_named(KeyCode::F15);
    }
    if n == 16 {
        reveal_strlit("F16");
        assert("F16"@.len() == 3 && "F16"@[0] == 'F' && "F16"@[1] == '1' && "F16"@[2] == '6');
        assert("F16"@ =~= seq!['F'] + decimal(n));
        lemma_key_code_named(KeyCode::F16);
    }
    if n == 17 {
        reveal_strlit("F17");
        assert("F17"@.len() == 3 && "F17"@[0] == 'F' && "F17"@[1] == '1' && "F17"@[2] == '7');
        assert("F17"@ =~= seq!['F'] + decimal(n));
        lemma_key_code_named(KeyCode::F17);
    }
    if n == 18 {
        reveal_strlit("F18");
        assert("F18"@.len() == 3 && "F18"@[0] == 'F' && "F18"@[1] == '1' && "F18"@[2] == '8');
        assert("F18"@ =~= seq!['F'] + decimal(n));
        lemma_key_code_named(KeyCode::F18);
    }
    if n == 19 {
        reveal_strlit("F19");
        assert("F19"@.len() == 3 && "F19"@[0] == 'F' && "F19"@[1] == '1' && "F19"@[2] == '9');
        assert("F19"@ =~= seq!['F'] + decimal(n));
        lemma_key_code_named(KeyCode::F19);
    }
    if n == 20 {
        reveal_strlit("F20");
        assert("F20"@.len() == 3 && "F20"@[0] == 'F' && "F20"@[1] == '2' && "F20"@[2] == '0');
        assert("F20"@ =~= seq!['F'] + decimal(n));
        lemma_key_code_named(KeyCode::F20);
    }
}

/// The named keys and punctuation keys are denoted by their own names.
pub proof fn law_named_keys()
    ensures
        key_code_named("Space"@) == Some(KeyCode::Space),
        key_code_named("Enter"@) == Some(KeyCode::Enter),
        key_code_named("Tab"@) == Some(KeyCode::Tab),
        key_code_named("Escape"@) == Some(KeyCode::Escape),
        key_code_named("Backspace"@) == Some(KeyCode::Backspace),
        key_code_named("Delete"@) == Some(KeyCode::Delete),
        key_code_named("Home"@) == Some(KeyCode::Home),
        key_code_named("End"@) == Some(KeyCode::End),
        key_code_named("PageUp"@) == Some(KeyCode::PageUp),
        key_code_named("PageDown"@) == Some(KeyCode::PageDown),
        key_code_named("ArrowUp"@) == Some(KeyCode::ArrowUp),
        key_code_named("ArrowDown"@) == Some(KeyCode::ArrowDown),
        key_code_named("ArrowLeft"@) == Some(KeyCode::ArrowLeft),
        key_code_named("ArrowRight"@) == Some(KeyCode::ArrowRight),
        key_code_named("Comma"@) == Some(KeyCode::Comma),
        key_code_named("Period"@) == Some(KeyCode::Period),
        key_code_named("Minus"@) == Some(KeyCode::Minus),
        key_code_named("Equal"@) == Some(KeyCode::Equal),
        key_code_named("BracketLeft"@) == Some(KeyCode::BracketLeft),
        key_code_named("BracketRight"@) == Some(KeyCode::BracketRight),
        key_code_named("Semicolon"@) == Some(KeyCode::Semicolon),
        key_code_named("Quote"@) == Some(KeyCode::Quote),
        key_code_named("Backslash"@) == Some(KeyCode::Backslash),
        key_code_named("Backquote"@) == Some(KeyCode::Backquote),
        key_code_named("Slash"@) == Some(KeyCode::Slash),
        key_code_named("IntlBackslash"@) == Some(KeyCode::IntlBackslash),
{
    assert(key_code_named("Space"@) == Some(KeyCode::Space)) by {
        lemma_key_code_named(KeyCode::Space);
    }
    assert(key_code_named("Enter"@) == Some(KeyCode::Enter)) by {
        lemma_key_code_named(KeyCode::Enter);
    }
    assert(key_code_named("Tab"@) == Some(KeyCode::Tab)) by {
        lemma_key_code_named(KeyCode::Tab);
    }
    assert(key_code_named("Escape"@) == Some(KeyCode::Escape)) by {
        lemma_key_code_named(KeyCode::Escape);
    }
    assert(key_code_named("Backspace"@) == Some(KeyCode::Backspace)) by {
        lemma_key_code_named(KeyCode::Backspace);
    }
    assert(key_code_named("Delete"@) == Some(KeyCode::Delete)) by {
        lemma_key_code_named(KeyCode::Delete);
    }
    assert(key_code_named("Home"@) == Some(KeyCode::Home)) by {
        lemma_key_code_named(KeyCode::Home);
    }
    assert(key_code_named("End"@) == Some(KeyCode::End)) by {
        lemma_key_code_named(KeyCode::End);
    }
    assert(key_code_named("PageUp"@) == Some(KeyCode::PageUp)) by {
        lemma_key_code_named(KeyCode::PageUp);
    }
    assert(key_code_named("PageDown"@) == Some(KeyCode::PageDown)) by {
        lemma_key_code_named(KeyCode::PageDown);
    }
    assert(key_code_named("ArrowUp"@) == Some(KeyCode::ArrowUp)) by {
        lemma_key_code_named(KeyCode::ArrowUp);
    }
    assert(key_code_named("ArrowDown"@) == Some(KeyCode::ArrowDown)) by {
        lemma_key_code_named(KeyCode::ArrowDown);
    }
    assert(key_code_named("ArrowLeft"@) == Some(KeyCode::ArrowLeft)) by {
        lemma_key_code_named(KeyCode::ArrowLeft);
    }
    assert(key_code_named("ArrowRight"@) == Some(KeyCode::ArrowRight)) by {
        lemma_key_code_named(KeyCode::ArrowRight);
    }
    assert(key_code_named("Comma"@) == Some(KeyCode::Comma)) by {
        lemma_key_code_named(KeyCode::Comma);
    }
    assert(key_code_named("Period"@) == Some(KeyCode::Period)) by {
        lemma_key_code_named(KeyCode::Period);
    }
    assert(key_code_named("Minus"@) == Some(KeyCode::Minus)) by {
        lemma_key_code_named(KeyCode::Minus);
    }
    assert(key_code_named("Equal"@) == Some(KeyCode::Equal)) by {
        lemma_key_code_named(KeyCode::Equal);
    }
    assert(key_code_named("BracketLeft"@) == Some(KeyCode::BracketLeft)) by {
        lemma_key_code_named(KeyCode::BracketLeft);
    }
    assert(key_code_named("BracketRight"@) == Some(KeyCode::BracketRight)) by {
        lemma_key_code_named(KeyCode::BracketRight);
    }
    assert(key_code_named("Semicolon"@) == Some(KeyCode::Semicolon)) by {
        lemma_key_code_named(KeyCode::Semicolon);
    }
    assert(key_code_named("Quote"@) == Some(KeyCode::Quote)) by {
        lemma_key_code_named(KeyCode::Quote);
    }
    assert(key_code_named("Backslash"@) == Some(KeyCode::Backslash)) by {
        lemma_key_code_named(KeyCode::Backslash);
    }
    assert(key_code_named("Backquote"@) == Some(KeyCode::Backquote)) by {
        lemma_key_code_named(KeyCode::Backquote);
    }
    assert(key_code_named("Slash"@) == Some(KeyCode::Slash)) by {
        lemma_key_code_named(KeyCode::Slash);
    }
    assert(key_code_named("IntlBackslash"@) == Some(KeyCode::IntlBackslash)) by {
        lemma_key_code_named(KeyCode::IntlBackslash);
    }
}

/// The key named by the characters `seg`, if any.
pub fn key_code_of_chars(seg: &Vec<char>) -> (r: Option<KeyCode>)
    ensures
        r == key_code_named(seg@),
{
    let r = key_code_of_chars_table(seg);
    proof {
        if let Some(k) = r {
            lemma_key_code_named(k);
        }
    }
    r
}

/// Parses a key name such as `Space`, `F5`, `7`, `K` or `BracketLeft`.
pub fn parse_key_code(s: &str) -> (r: Option<KeyCode>)
    ensures
        r == key_code_named(s@),
{
    let v = chars_of(s);
    key_code_of_chars(&v)
}

/// The modifier keys that a shortcut string can hold before its key.
#[derive(Clone, Copy, Debug, PartialEq, Eq, Structural)]
pub enum Modifier {
    Alt,
    Super,
    Shift,
    Control,
}

/// The modifier that `s` names: `Alt` or `Option`; `Cmd`, `Command` or `Super`;
/// `Shift`; `Ctrl` or `Control`.
pub open spec fn modifier_named(s: Seq<char>) -> Option<Modifier> {
    if s == "Alt"@ || s == "Option"@ {
        Some(Modifier::Alt)
    } else if s == "Cmd"@ || s == "Command"@ || s == "Super"@ {
        Some(Modifier::Super)
    } else if s == "Shift"@ {
        Some(Modifier::Shift)
    } else if s == "Ctrl"@ || s == "Control"@ {
        Some(Modifier::Control)
    } else {
        None
    }
}

/// The modifier named by the characters `seg`, if any.
pub fn modifier_of_chars(seg: &Vec<char>) -> (r: Option<Modifier>)
    ensures
        r == modifier_named(seg@),
{
    if chars_eq_str(seg, "Alt") || chars_eq_str(seg, "Option") {
        Some(Modifier::Alt)
    } else if chars_eq_str(seg, "Cmd") || chars_eq_str(seg, "Command") || chars_eq_str(seg, "Super") {
        Some(Modifier::Super)
    } else if chars_eq_str(seg, "Shift") {
        Some(Modifier::Shift)
    } else if chars_eq_str(seg, "Ctrl") || chars_eq_str(seg, "Control") {
        Some(Modifier::Control)
    } else {
        None
    }
}

/// The set of modifiers held by a hotkey.
#[derive(Clone, Copy, Debug, PartialEq, Eq, Structural)]
pub struct ModifierSet {
    pub alt: bool,
    pub super_key: bool,
    pub shift: bool,
    pub control: bool,
}

/// A global shortcut: the modifiers held and the key pressed.
#[derive(Clone, Copy, Debug, PartialEq, Eq, Structural)]
pub struct Hotkey {
    pub modifiers: ModifierSet,
    pub code: KeyCode,
}

/// `s` cut at every `sep`: the pieces between separators, in order, empty
/// pieces included (`"a++b"` gives `a`, ``, `b`; `""` gives one empty piece).
pub open spec fn split_on(s: Seq<char>, sep: char) -> Seq<Seq<char>>
    decreases s.len(),
{
    if s.len() == 0 {
        seq![Seq::<char>::empty()]
    } else {
        let p = split_on(s.drop_last(), sep);
        if s.last() == sep {
            p.push(Seq::<char>::empty())
        } else {
            p.update(p.len() - 1, p.last().push(s.last()))
        }
    }
}

pub proof fn lemma_split_on_nonempty(s: Seq<char>, sep: char)
    ensures
        split_on(s, sep).len() >= 1,
    decreases s.len(),
{
    if s.len() > 0 {
        lemma_split_on_nonempty(s.drop_last(), sep);
    }
}

proof fn lemma_split_on_sep(s: Seq<char>, sep: char)
    ensures
        split_on(s.push(sep), sep) == split_on(s, sep).push(Seq::<char>::empty()),
{
    assert(s.push(sep).drop_last() =~= s);
}

proof fn lemma_split_on_plain(s: Seq<char>, y: Seq<char>, sep: char)
    requires
        !y.contains(sep),
    ensures
        split_on(s + y, sep) == split_on(s, sep).update(
            split_on(s, sep).len() - 1,
            split_on(s, sep).last() + y,
        ),
    decreases y.len(),
{
    lemma_split_on_nonempty(s, sep);
    let p = split_on(s, sep);
    if y.len() == 0 {
        assert(s + y =~= s);
        assert(p.last() + y =~= p.last());
        assert(p.update(p.len() - 1, p.last() + y) =~= p);
    } else {
        let y0 = y.drop_last();
        let c = y.last();
        assert(!y0.contains(sep)) by {
            if y0.contains(sep) {
                let i = choose|i: int| 0 <= i < y0.len() && y0[i] == sep;
                assert(y[i] == sep);
            }
        }
        assert(c != sep) by {
            assert(y[y.len() - 1] == c);
        }
        lemma_split_on_plain(s, y0, sep);
        assert((s + y).drop_last() =~= s + y0);
        assert((s + y).last() == c);
        let q = split_on(s + y0, sep);
        assert(q.last() == p.last() + y0);
        assert((p.last() + y0).push(c) =~= p.last() + y);
        assert(split_on(s + y, sep) =~= p.update(p.len() - 1, p.last() + y));
    }
}

/// `parts` written out with `sep` between consecutive pieces.
pub open spec fn join_on(parts: Seq<Seq<char>>, sep: char) -> Seq<char>
    decreases parts.len(),
{
    if parts.len() == 0 {
        Seq::empty()
    } else if parts.len() == 1 {
        parts[0]
    } else {
        join_on(parts.drop_last(), sep).push(sep) + parts.last()
    }
}

/// Cutting a text written from pieces without separators gives the pieces back.
pub proof fn lemma_split_join(parts: Seq<Seq<char>>, sep: char)
    requires
        parts.len() >= 1,
        forall|i: int| 0 <= i < parts.len() ==> !(#[trigger] parts[i]).contains(sep),
    ensures
        split_on(join_on(parts, sep), sep) == parts,
    decreases parts.len(),
{
    let e = Seq::<char>::empty();
    if parts.len() == 1 {
        lemma_split_on_plain(e, parts[0], sep);
        assert(e + parts[0] =~= parts[0]);
        assert(split_on(e, sep) == seq![e]);
        assert(split_on(parts[0], sep) =~= parts);
    } else {
        let q = parts.drop_last();
        assert forall|i: int| 0 <= i < q.len() implies !(#[trigger] q[i]).contains(sep) by {
            assert(q[i] == parts[i]);
        }
        lemma_split_join(q, sep);
        let jq = join_on(q, sep);
        lemma_split_on_sep(jq, sep);
        assert(!parts[parts.len() - 1].contains(sep));
        lemma_split_on_plain(jq.push(sep), parts.last(), sep);
        assert(e + parts.last() =~= parts.last());
        assert(split_on(jq.push(sep) + parts.last(), sep) =~= parts);
    }
}

/// Some piece of `ms` names modifier `m`.
pub open spec fn names_modifier(ms: Seq<Seq<char>>, m: Modifier) -> bool {
    exists|i: int| 0 <= i < ms.len() && #[trigger] modifier_named(ms[i]) == Some(m)
}

/// Every piece of `ms` names a modifier and holds no `+`.
pub open spec fn modifier_list(ms: Seq<Seq<char>>) -> bool {
    forall|i: int| 0 <= i < ms.len() ==> !(#[trigger] ms[i]).contains('+') && modifier_named(ms[i]) is Some
}

/// Cutting `x`, a separator and `y` gives the pieces of `x` followed by those of `y`.
pub proof fn lemma_split_on_concat(x: Seq<char>, y: Seq<char>, sep: char)
    ensures
        split_on(x.push(sep) + y, sep) == split_on(x, sep) + split_on(y, sep),
    decreases y.len(),
{
    lemma_split_on_sep(x, sep);
    if y.len() == 0 {
        assert(x.push(sep) + y =~= x.push(sep));
        assert(split_on(x, sep).push(Seq::<char>::empty()) =~= split_on(x, sep) + split_on(y, sep));
    } else {
        let y0 = y.drop_last();
        let c = y.last();
        lemma_split_on_concat(x, y0, sep);
        lemma_split_on_nonempty(y0, sep);
        assert((x.push(sep) + y).drop_last() =~= x.push(sep) + y0);
        assert((x.push(sep) + y).last() == c);
        assert(y.drop_last() =~= y0);
        let a = split_on(x, sep);
        let b = split_on(y0, sep);
        if c == sep {
            assert((a + b).push(Seq::<char>::empty()) =~= a + b.push(Seq::<char>::empty()));
        } else {
            assert((a + b).update((a + b).len() - 1, (a + b).last().push(c)) =~= a + b.update(
                b.len() - 1,
                b.last().push(c),
            ));
        }
    }
}

proof fn lemma_shortcut_of_list(ms: Seq<Seq<char>>, key: Seq<char>)
    requires
        ms.len() > 0,
        modifier_list(ms),
    ensures
        split_on(join_on(ms.push(key), '+'), '+') == ms + split_on(key, '+'),
        (ms + split_on(key, '+')).len() >= 2,
        (ms + split_on(key, '+')).last() == split_on(key, '+').last(),
        modifiers_valid(ms + split_on(key, '+')) == modifiers_valid(split_on(key, '+')),
        forall|m: Modifier|
            has_modifier(ms + split_on(key, '+'), m) == (names_modifier(ms, m) || has_modifier(
                split_on(key, '+'),
                m,
            )),
{
    let k = split_on(key, '+');
    let p = ms + k;
    lemma_split_on_nonempty(key, '+');
    assert(ms.push(key).drop_last() =~= ms);
    assert(join_on(ms.push(key), '+') == join_on(ms, '+').push('+') + key);
    assert forall|i: int| 0 <= i < ms.len() implies !(#[trigger] ms[i]).contains('+') by {
        assert(!ms[i].contains('+') && modifier_named(ms[i]) is Some);
    }
    lemma_split_join(ms, '+');
    lemma_split_on_concat(join_on(ms, '+'), key, '+');
    let n = ms.len() as int;
    assert forall|i: int| 0 <= i < p.len() implies #[trigger] p[i] == if i < n { ms[i] } else { k[i - n] } by {}
    if modifiers_valid(k) {
        assert forall|i: int| 0 <= i < p.len() - 1 implies (#[trigger] modifier_named(p[i])) is Some by {
            if i < n {
                assert(!ms[i].contains('+') && modifier_named(ms[i]) is Some);
            } else {
                assert(p[i] == k[i - n]);
                assert(modifier_named(k[i - n]) is Some);
            }
        }
    }
    if modifiers_valid(p) {
        assert forall|j: int| 0 <= j < k.len() - 1 implies (#[trigger] modifier_named(k[j])) is Some by {
            assert(p[j + n] == k[j]);
            assert(modifier_named(p[j + n]) is Some);
        }
    }
    assert forall|m: Modifier| has_modifier(p, m) == (names_modifier(ms, m) || has_modifier(k, m)) by {
        if has_modifier(p, m) {
            let i = choose|i: int| 0 <= i < p.len() - 1 && #[trigger] modifier_named(p[i]) == Some(m);
            if i < n {
                assert(p[i] == ms[i]);
            } else {
                assert(p[i] == k[i - n]);
                assert(modifier_named(k[i - n]) == Some(m));
            }
        }
        if names_modifier(ms, m) {
            let i = choose|i: int| 0 <= i < ms.len() && #[trigger] modifier_named(ms[i]) == Some(m);
            assert(p[i] == ms[i]);
        }
        if has_modifier(k, m) {
            let j = choose|j: int| 0 <= j < k.len() - 1 && #[trigger] modifier_named(k[j]) == Some(m);
            assert(p[j + n] == k[j]);
        }
    }
}

/// Two lists of modifier names that name the same modifiers give the same
/// hotkey with any key part: order, repetition and synonyms (`Option` for
/// `Alt`, `Cmd` for `Super`, ...) do not matter.
pub proof fn law_same_modifiers_same_hotkey(ms1: Seq<Seq<char>>, ms2: Seq<Seq<char>>, key: Seq<char>)
    requires
        ms1.len() > 0,
        ms2.len() > 0,
        modifier_list(ms1),
        modifier_list(ms2),
        forall|m: Modifier| names_modifier(ms1, m) == names_modifier(ms2, m),
    ensures
        shortcut_named(join_on(ms1.push(key), '+')) == shortcut_named(join_on(ms2.push(key), '+')),
{
    lemma_shortcut_of_list(ms1, key);
    lemma_shortcut_of_list(ms2, key);
    let k = split_on(key, '+');
    let p1 = ms1 + k;
    let p2 = ms2 + k;
    assert(names_modifier(ms1, Modifier::Alt) == names_modifier(ms2, Modifier::Alt));
    assert(has_modifier(p1, Modifier::Alt) == has_modifier(p2, Modifier::Alt));
    assert(names_modifier(ms1, Modifier::Super) == names_modifier(ms2, Modifier::Super));
    assert(has_modifier(p1, Modifier::Super) == has_modifier(p2, Modifier::Super));
    assert(names_modifier(ms1, Modifier::Shift) == names_modifier(ms2, Modifier::Shift));
    assert(has_modifier(p1, Modifier::Shift) == has_modifier(p2, Modifier::Shift));
    assert(names_modifier(ms1, Modifier::Control) == names_modifier(ms2, Modifier::Control));
    assert(has_modifier(p1, Modifier::Control) == has_modifier(p2, Modifier::Control));
    assert(modifier_set_of(p1) == modifier_set_of(p2));
}

/// Every accepted shortcut holds at least one modifier.
pub proof fn law_shortcut_has_modifier(s: Seq<char>)
    requires
        shortcut_named(s) is Some,
    ensures
        ({
            let m = shortcut_named(s).unwrap().modifiers;
            m.alt || m.super_key || m.shift || m.control
        }),
{
    let parts = split_on(s, '+');
    assert(modifier_named(parts[0]) is Some);
    match modifier_named(parts[0]).unwrap() {
        Modifier::Alt => assert(has_modifier(parts, Modifier::Alt)),
        Modifier::Super => assert(has_modifier(parts, Modifier::Super)),
        Modifier::Shift => assert(has_modifier(parts, Modifier::Shift)),
        Modifier::Control => assert(has_modifier(parts, Modifier::Control)),
    }
}

/// Every piece but the last names a modifier.
pub open spec fn modifiers_valid(parts: Seq<Seq<char>>) -> bool {
    forall|i: int| 0 <= i < parts.len() - 1 ==> (#[trigger] modifier_named(parts[i])) is Some
}

/// Some piece but the last names modifier `m`.
pub open spec fn has_modifier(parts: Seq<Seq<char>>, m: Modifier) -> bool {
    exists|i: int| 0 <= i < parts.len() - 1 && #[trigger] modifier_named(parts[i]) == Some(m)
}

/// The modifiers named by all pieces but the last.
pub open spec fn modifier_set_of(parts: Seq<Seq<char>>) -> ModifierSet {
    ModifierSet {
        alt: has_modifier(parts, Modifier::Alt),
        super_key: has_modifier(parts, Modifier::Super),
        shift: has_modifier(parts, Modifier::Shift),
        control: has_modifier(parts, Modifier::Control),
    }
}

/// The hotkey that a shortcut string denotes: it is cut at `+`; there must be
/// at least two pieces, every piece but the last must name a modifier, and the
/// last must name a key. Modifiers may repeat and come in any order.
pub open spec fn shortcut_named(s: Seq<char>) -> Option<Hotkey> {
    let parts = split_on(s, '+');
    if parts.len() < 2 || !modifiers_valid(parts) {
        None
    } else {
        match key_code_named(parts.last()) {
            Some(code) => Some(Hotkey { modifiers: modifier_set_of(parts), code }),
            None => None,
        }
    }
}

proof fn lemma_parts_push(parts: Seq<Seq<char>>, x: Seq<char>)
    requires
        parts.len() >= 1,
    ensures
        modifiers_valid(parts.push(x)) == (modifiers_valid(parts) && modifier_named(parts.last()) is Some),
        forall|m: Modifier| has_modifier(parts.push(x), m) == (has_modifier(parts, m) || modifier_named(parts.last()) == Some(m)),
{
    let q = parts.push(x);
    assert forall|i: int| 0 <= i < parts.len() implies q[i] == parts[i] by {}
    if modifiers_valid(q) {
        assert(modifier_named(q[parts.len() - 1]) is Some);
    }
    if modifiers_valid(parts) && modifier_named(parts.last()) is Some {
        assert forall|i: int| 0 <= i < q.len() - 1 implies (#[trigger] modifier_named(q[i])) is Some by {
            if i < parts.len() - 1 {
                assert(modifier_named(parts[i]) is Some);
            }
        }
    }
    assert forall|m: Modifier| has_modifier(q, m) == (has_modifier(parts, m) || modifier_named(parts.last()) == Some(m)) by {
        if has_modifier(q, m) {
            let i = choose|i: int| 0 <= i < q.len() - 1 && #[trigger] modifier_named(q[i]) == Some(m);
            if i < parts.len() - 1 {
                assert(modifier_named(parts[i]) == Some(m));
            }
        }
        if has_modifier(parts, m) {
            let i = choose|i: int| 0 <= i < parts.len() - 1 && #[trigger] modifier_named(parts[i]) == Some(m);
            assert(modifier_named(q[i]) == Some(m));
        }
        if modifier_named(parts.last()) == Some(m) {
            assert(modifier_named(q[parts.len() - 1]) == Some(m));
        }
    }
}

proof fn lemma_parts_update_last(parts: Seq<Seq<char>>, x: Seq<char>)
    requires
        parts.len() >= 1,
    ensures
        modifiers_valid(parts.update(parts.len() - 1, x)) == modifiers_valid(parts),
        forall|m: Modifier| has_modifier(parts.update(parts.len() - 1, x), m) == has_modifier(parts, m),
{
    let q = parts.update(parts.len() - 1, x);
    assert forall|i: int| 0 <= i < parts.len() - 1 implies q[i] == parts[i] by {}
    if modifiers_valid(q) {
        assert forall|i: int| 0 <= i < parts.len() - 1 implies (#[trigger] modifier_named(parts[i])) is Some by {
            assert(modifier_named(q[i]) is Some);
        }
    }
    if modifiers_valid(parts) {
        assert forall|i: int| 0 <= i < q.len() - 1 implies (#[trigger] modifier_named(q[i])) is Some by {
            assert(modifier_named(parts[i]) is Some);
        }
    }
    assert forall|m: Modifier| has_modifier(q, m) == has_modifier(parts, m) by {
        if has_modifier(q, m) {
            let i = choose|i: int| 0 <= i < q.len() - 1 && #[trigger] modifier_named(q[i]) == Some(m);
            assert(modifier_named(parts[i]) == Some(m));
        }
        if has_modifier(parts, m) {
            let i = choose|i: int| 0 <= i < parts.len() - 1 && #[trigger] modifier_named(parts[i]) == Some(m);
            assert(modifier_named(q[i]) == Some(m));
        }
    }
}

/// Parses a shortcut string such as `Alt+Space` or `Ctrl+Shift+K`.
pub fn parse_shortcut(s: &str) -> (r: Option<Hotkey>)
    ensures
        r == shortcut_named(s@),
{
    let v = chars_of(s);
    let n = v.len();
    let mut cur: Vec<char> = Vec::new();
    let mut several = false;
    let mut valid = true;
    let mut mods = ModifierSet { alt: false, super_key: false, shift: false, control: false };
    let mut i: usize = 0;
    while i < n
        invariant
            v@ == s@,
            n == v@.len(),
            i <= n,
            split_on(s@.take(i as int), '+').len() >= 1,
            several == (split_on(s@.take(i as int), '+').len() >= 2),
            cur@ == split_on(s@.take(i as int), '+').last(),
            valid == modifiers_valid(split_on(s@.take(i as int), '+')),
            mods == modifier_set_of(split_on(s@.take(i as int), '+')),
        decreases n - i,
    {
        let ghost parts = split_on(s@.take(i as int), '+');
        let c = v[i];
        assert(s@.take(i + 1).drop_last() =~= s@.take(i as int));
        assert(s@.take(i + 1).last() == c);
        if c == '+' {
            proof {
                lemma_parts_push(parts, Seq::<char>::empty());
            }
            match modifier_of_chars(&cur) {
                Some(Modifier::Alt) => { mods.alt = true; },
                Some(Modifier::Super) => { mods.super_key = true; },
                Some(Modifier::Shift) => { mods.shift = true; },
                Some(Modifier::Control) => { mods.control = true; },
                None => { valid = false; },
            }
            cur = Vec::new();
            several = true;
        } else {
            proof {
                lemma_parts_update_last(parts, parts.last().push(c));
            }
            cur.push(c);
        }
        i += 1;
    }
    assert(s@.take(n as int) =~= s@);
    if !several || !valid {
        return None;
    }
    match key_code_of_chars(&cur) {
        Some(code) => Some(Hotkey { modifiers: mods, code }),
        None => None,
    }
}

/// The message with which a shortcut string that does not parse is refused.
pub open spec fn invalid_shortcut_message(key: Seq<char>) -> Seq<char> {
    "Invalid shortcut key: "@ + key
}

/// A configured global shortcut: the string it was given as, and the hotkey
/// registered for it (none when the string does not parse).
pub struct ShortcutBinding {
    pub key: String,
    pub registered: Option<Hotkey>,
}

impl ShortcutBinding {
    /// Binds `key` as at startup: the string is kept as given, and a hotkey is
    /// registered only if the string parses.
    pub fn new(key: &str) -> (b: ShortcutBinding)
        ensures
            b.key@ == key@,
            b.registered == shortcut_named(key@),
    {
        ShortcutBinding { key: key.to_owned(), registered: parse_shortcut(key) }
    }

    /// Binds `key` as registration does: the string is kept as given, and the
    /// registered hotkey is replaced only when the string parses.
    pub fn bind(&mut self, key: &str)
        ensures
            final(self).key@ == key@,
            final(self).registered == match shortcut_named(key@) {
                Some(h) => Some(h),
                None => old(self).registered,
            },
    {
        self.key = key.to_owned();
        if let Some(h) = parse_shortcut(key) {
            self.registered = Some(h);
        }
    }

    /// Replaces the shortcut with `new_key`. A string that does not parse is
    /// refused and nothing changes. Otherwise the new string and its hotkey take
    /// the place of the old ones, and the old string is returned so that its
    /// hotkey can be unregistered.
    pub fn swap(&mut self, new_key: &str) -> (r: Result<String, String>)
        ensures
            match r {
                Ok(old_key) => {
                    &&& shortcut_named(new_key@) is Some
                    &&& old_key@ == old(self).key@
                    &&& final(self).key@ == new_key@
                    &&& final(self).registered == shortcut_named(new_key@)
                },
                Err(msg) => {
                    &&& shortcut_named(new_key@) is None
                    &&& msg@ == invalid_shortcut_message(new_key@)
                    &&& *final(self) == *old(self)
                },
            },
    {
        let parsed = parse_shortcut(new_key);
        if parsed.is_none() {
            let mut msg = "Invalid shortcut key: ".to_owned();
            msg.append(new_key);
            return Err(msg);
        }
        let mut old_key = new_key.to_owned();
        std::mem::swap(&mut old_key, &mut self.key);
        self.registered = parsed;
        Ok(old_key)
    }
}

} // verus!
