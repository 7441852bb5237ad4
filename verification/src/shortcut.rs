//! Keyboard shortcuts: modifier sets, key codes, and the parser for shortcut
//! strings such as `Ctrl+Shift+Space`.
use vstd::prelude::*;
use vstd::string::*;
use crate::text::{
    split_seq, trim_seq, unicode_lowercase, views_of, split_text, trim_text, to_lowercase,
    same_text, lemma_split_nonempty, decimal_seq,
};

verus! {

/// A set of modifier keys.
#[derive(Debug, Clone, Copy, PartialEq, Eq, Structural)]
pub struct Modifiers {
    pub control: bool,
    pub shift: bool,
    pub alt: bool,
    pub super_key: bool,
}

/// A physical key that a shortcut can end in.
#[derive(Debug, Clone, Copy, PartialEq, Eq, Structural)]
pub enum Code {
    Space,
    Escape,
    F1,
    F2,
    F3,
    F4,
    F5,
    F6,
    F7,
    F8,
    F9,
    F10,
    F11,
    F12,
    KeyA,
    KeyB,
    KeyC,
    KeyD,
    KeyE,
    KeyF,
    KeyG,
    KeyH,
    KeyI,
    KeyJ,
    KeyK,
    KeyL,
    KeyM,
    KeyN,
    KeyO,
    KeyP,
    KeyQ,
    KeyR,
    KeyS,
    KeyT,
    KeyU,
    KeyV,
    KeyW,
    KeyX,
    KeyY,
    KeyZ,
}

/// A global shortcut: a set of modifiers and a key.
#[derive(Debug, Clone, Copy, PartialEq, Eq, Structural)]
pub struct Shortcut {
    pub mods: Modifiers,
    pub key: Code,
}

/// The modifier set with no modifier in it.
pub open spec fn no_mods() -> Modifiers {
    Modifiers { control: false, shift: false, alt: false, super_key: false }
}

/// The union of two modifier sets.
pub open spec fn union_mods(a: Modifiers, b: Modifiers) -> Modifiers {
    Modifiers {
        control: a.control || b.control,
        shift: a.shift || b.shift,
        alt: a.alt || b.alt,
        super_key: a.super_key || b.super_key,
    }
}

impl Modifiers {
    /// No modifier.
    pub fn empty() -> (r: Modifiers)
        ensures
            r == no_mods(),
    {
        Modifiers { control: false, shift: false, alt: false, super_key: false }
    }

    /// The Control modifier alone.
    pub fn control() -> (r: Modifiers)
        ensures
            r == (Modifiers { control: true, ..no_mods() }),
    {
        Modifiers { control: true, shift: false, alt: false, super_key: false }
    }

    /// The Shift modifier alone.
    pub fn shift() -> (r: Modifiers)
        ensures
            r == (Modifiers { shift: true, ..no_mods() }),
    {
        Modifiers { control: false, shift: true, alt: false, super_key: false }
    }

    /// The Alt modifier alone.
    pub fn alt() -> (r: Modifiers)
        ensures
            r == (Modifiers { alt: true, ..no_mods() }),
    {
        Modifiers { control: false, shift: false, alt: true, super_key: false }
    }

    /// The Super (Command / Windows) modifier alone.
    pub fn super_key() -> (r: Modifiers)
        ensures
            r == (Modifiers { super_key: true, ..no_mods() }),
    {
        Modifiers { control: false, shift: false, alt: false, super_key: true }
    }

    /// Whether no modifier is set.
    pub fn is_empty(&self) -> (r: bool)
        ensures
            r == (*self == no_mods()),
    {
        !self.control && !self.shift && !self.alt && !self.super_key
    }

    /// The modifiers in either set.
    pub fn union(self, other: Modifiers) -> (r: Modifiers)
        ensures
            r == union_mods(self, other),
    {
        Modifiers {
            control: self.control || other.control,
            shift: self.shift || other.shift,
            alt: self.alt || other.alt,
            super_key: self.super_key || other.super_key,
        }
    }
}

impl Shortcut {
    /// A shortcut from optional modifiers and a key; `None` means no modifier.
    pub fn new(mods: Option<Modifiers>, key: Code) -> (r: Shortcut)
        ensures
            r.key == key,
            r.mods == (match mods { Some(m) => m, None => no_mods() }),
    {
        let m = match mods {
            Some(m) => m,
            None => Modifiers::empty(),
        };
        Shortcut { mods: m, key }
    }
}

/// Default hotkey: Ctrl+Alt+Space.
pub fn default_shortcut() -> (r: Shortcut)
    ensures
        r == (Shortcut { mods: Modifiers { control: true, alt: true, ..no_mods() }, key: Code::Space }),
{
    Shortcut::new(Some(Modifiers::control().union(Modifiers::alt())), Code::Space)
}

/// Escape key shortcut for cancelling recording.
pub fn escape_shortcut() -> (r: Shortcut)
    ensures
        r == (Shortcut { mods: no_mods(), key: Code::Escape }),
{
    Shortcut::new(None, Code::Escape)
}

/// The modifier that a lowercase word names, if any.
pub open spec fn modifier_named(w: Seq<char>) -> Option<Modifiers> {
    if w == "ctrl"@ || w == "control"@ {
        Some(Modifiers { control: true, ..no_mods() })
    } else if w == "shift"@ {
        Some(Modifiers { shift: true, ..no_mods() })
    } else if w == "alt"@ {
        Some(Modifiers { alt: true, ..no_mods() })
    } else if w == "super"@ || w == "cmd"@ || w == "meta"@ || w == "cmdorctrl"@ {
        Some(Modifiers { super_key: true, ..no_mods() })
    } else {
        None
    }
}

/// The key that a lowercase word names, if any.
pub open spec fn key_named(w: Seq<char>) -> Option<Code> {
    if w == "space"@ { Some(Code::Space) } else
    if w == "f1"@ { Some(Code::F1) } else
    if w == "f2"@ { Some(Code::F2) } else
    if w == "f3"@ { Some(Code::F3) } else
    if w == "f4"@ { Some(Code::F4) } else
    if w == "f5"@ { Some(Code::F5) } else
    if w == "f6"@ { Some(Code::F6) } else
    if w == "f7"@ { Some(Code::F7) } else
    if w == "f8"@ { Some(Code::F8) } else
    if w == "f9"@ { Some(Code::F9) } else
    if w == "f10"@ { Some(Code::F10) } else
    if w == "f11"@ { Some(Code::F11) } else
    if w == "f12"@ { Some(Code::F12) } else
    if w == "a"@ { Some(Code::KeyA) } else
    if w == "b"@ { Some(Code::KeyB) } else
    if w == "c"@ { Some(Code::KeyC) } else
    if w == "d"@ { Some(Code::KeyD) } else
    if w == "e"@ { Some(Code::KeyE) } else
    if w == "f"@ { Some(Code::KeyF) } else
    if w == "g"@ { Some(Code::KeyG) } else
    if w == "h"@ { Some(Code::KeyH) } else
    if w == "i"@ { Some(Code::KeyI) } else
    if w == "j"@ { Some(Code::KeyJ) } else
    if w == "k"@ { Some(Code::KeyK) } else
    if w == "l"@ { Some(Code::KeyL) } else
    if w == "m"@ { Some(Code::KeyM) } else
    if w == "n"@ { Some(Code::KeyN) } else
    if w == "o"@ { Some(Code::KeyO) } else
    if w == "p"@ { Some(Code::KeyP) } else
    if w == "q"@ { Some(Code::KeyQ) } else
    if w == "r"@ { Some(Code::KeyR) } else
    if w == "s"@ { Some(Code::KeyS) } else
    if w == "t"@ { Some(Code::KeyT) } else
    if w == "u"@ { Some(Code::KeyU) } else
    if w == "v"@ { Some(Code::KeyV) } else
    if w == "w"@ { Some(Code::KeyW) } else
    if w == "x"@ { Some(Code::KeyX) } else
    if w == "y"@ { Some(Code::KeyY) } else
    if w == "z"@ { Some(Code::KeyZ) } else { None }
}

/// The letter at position `i` of the alphabet (0 for `a`), in lowercase.
pub open spec fn letter(i: int) -> char {
    (97 + i) as char
}

/// The name of a key: `space`, `escape`, `f` followed by the number of a
/// function key, or the letter of a letter key, in lowercase.
pub open spec fn key_name(c: Code) -> Seq<char> {
    match c {
        Code::Space => "space"@,
        Code::Escape => "escape"@,
        Code::F1 => seq!['f'] + decimal_seq(1),
        Code::F2 => seq!['f'] + decimal_seq(2),
        Code::F3 => seq!['f'] + decimal_seq(3),
        Code::F4 => seq!['f'] + decimal_seq(4),
        Code::F5 => seq!['f'] + decimal_seq(5),
        Code::F6 => seq!['f'] + decimal_seq(6),
        Code::F7 => seq!['f'] + decimal_seq(7),
        Code::F8 => seq!['f'] + decimal_seq(8),
        Code::F9 => seq!['f'] + decimal_seq(9),
        Code::F10 => seq!['f'] + decimal_seq(10),
        Code::F11 => seq!['f'] + decimal_seq(11),
        Code::F12 => seq!['f'] + decimal_seq(12),
        Code::KeyA => seq![letter(0)],
        Code::KeyB => seq![letter(1)],
        Code::KeyC => seq![letter(2)],
        Code::KeyD => seq![letter(3)],
        Code::KeyE => seq![letter(4)],
        Code::KeyF => seq![letter(5)],
        Code::KeyG => seq![letter(6)],
        Code::KeyH => seq![letter(7)],
        Code::KeyI => seq![letter(8)],
        Code::KeyJ => seq![letter(9)],
        Code::KeyK => seq![letter(10)],
        Code::KeyL => seq![letter(11)],
        Code::KeyM => seq![letter(12)],
        Code::KeyN => seq![letter(13)],
        Code::KeyO => seq![letter(14)],
        Code::KeyP => seq![letter(15)],
        Code::KeyQ => seq![letter(16)],
        Code::KeyR => seq![letter(17)],
        Code::KeyS => seq![letter(18)],
        Code::KeyT => seq![letter(19)],
        Code::KeyU => seq![letter(20)],
        Code::KeyV => seq![letter(21)],
        Code::KeyW => seq![letter(22)],
        Code::KeyX => seq![letter(23)],
        Code::KeyY => seq![letter(24)],
        Code::KeyZ => seq![letter(25)],
    }
}

proof fn lemma_key_literals()
    ensures
        "space"@ == key_name(Code::Space),
        "space"@ == key_name(Code::Space),
        "f1"@ == key_name(Code::F1),
        "f2"@ == key_name(Code::F2),
        "f3"@ == key_name(Code::F3),
        "f4"@ == key_name(Code::F4),
        "f5"@ == key_name(Code::F5),
        "f6"@ == key_name(Code::F6),
        "f7"@ == key_name(Code::F7),
        "f8"@ == key_name(Code::F8),
        "f9"@ == key_name(Code::F9),
        "f10"@ == key_name(Code::F10),
        "f11"@ == key_name(Code::F11),
        "f12"@ == key_name(Code::F12),
        "a"@ == key_name(Code::KeyA),
        "b"@ == key_name(Code::KeyB),
        "c"@ == key_name(Code::KeyC),
        "d"@ == key_name(Code::KeyD),
        "e"@ == key_name(Code::KeyE),
        "f"@ == key_name(Code::KeyF),
        "g"@ == key_name(Code::KeyG),
        "h"@ == key_name(Code::KeyH),
        "i"@ == key_name(Code::KeyI),
        "j"@ == key_name(Code::KeyJ),
        "k"@ == key_name(Code::KeyK),
        "l"@ == key_name(Code::KeyL),
        "m"@ == key_name(Code::KeyM),
        "n"@ == key_name(Code::KeyN),
        "o"@ == key_name(Code::KeyO),
        "p"@ == key_name(Code::KeyP),
        "q"@ == key_name(Code::KeyQ),
        "r"@ == key_name(Code::KeyR),
        "s"@ == key_name(Code::KeyS),
        "t"@ == key_name(Code::KeyT),
        "u"@ == key_name(Code::KeyU),
        "v"@ == key_name(Code::KeyV),
        "w"@ == key_name(Code::KeyW),
        "x"@ == key_name(Code::KeyX),
        "y"@ == key_name(Code::KeyY),
        "z"@ == key_name(Code::KeyZ),
{
    reveal_strlit("space");
    reveal_strlit("f1");
    reveal_strlit("f2");
    reveal_strlit("f3");
    reveal_strlit("f4");
    reveal_strlit("f5");
    reveal_strlit("f6");
    reveal_strlit("f7");
    reveal_strlit("f8");
    reveal_strlit("f9");
    reveal_strlit("f10");
    reveal_strlit("f11");
    reveal_strlit("f12");
    reveal_strlit("a");
    reveal_strlit("b");
    reveal_strlit("c");
    reveal_strlit("d");
    reveal_strlit("e");
    reveal_strlit("f");
    reveal_strlit("g");
    reveal_strlit("h");
    reveal_strlit("i");
    reveal_strlit("j");
    reveal_strlit("k");
    reveal_strlit("l");
    reveal_strlit("m");
    reveal_strlit("n");
    reveal_strlit("o");
    reveal_strlit("p");
    reveal_strlit("q");
    reveal_strlit("r");
    reveal_strlit("s");
    reveal_strlit("t");
    reveal_strlit("u");
    reveal_strlit("v");
    reveal_strlit("w");
    reveal_strlit("x");
    reveal_strlit("y");
    reveal_strlit("z");
    reveal_with_fuel(decimal_seq, 3);
    assert("space"@ =~= key_name(Code::Space));
    assert("f1"@ =~= key_name(Code::F1));
    assert("f2"@ =~= key_name(Code::F2));
    assert("f3"@ =~= key_name(Code::F3));
    assert("f4"@ =~= key_name(Code::F4));
    assert("f5"@ =~= key_name(Code::F5));
    assert("f6"@ =~= key_name(Code::F6));
    assert("f7"@ =~= key_name(Code::F7));
    assert("f8"@ =~= key_name(Code::F8));
    assert("f9"@ =~= key_name(Code::F9));
    assert("f10"@ =~= key_name(Code::F10));
    assert("f11"@ =~= key_name(Code::F11));
    assert("f12"@ =~= key_name(Code::F12));
    assert("a"@ =~= key_name(Code::KeyA));
    assert("b"@ =~= key_name(Code::KeyB));
    assert("c"@ =~= key_name(Code::KeyC));
    assert("d"@ =~= key_name(Code::KeyD));
    assert("e"@ =~= key_name(Code::KeyE));
    assert("f"@ =~= key_name(Code::KeyF));
    assert("g"@ =~= key_name(Code::KeyG));
    assert("h"@ =~= key_name(Code::KeyH));
    assert("i"@ =~= key_name(Code::KeyI));
    assert("j"@ =~= key_name(Code::KeyJ));
    assert("k"@ =~= key_name(Code::KeyK));
    assert("l"@ =~= key_name(Code::KeyL));
    assert("m"@ =~= key_name(Code::KeyM));
    assert("n"@ =~= key_name(Code::KeyN));
    assert("o"@ =~= key_name(Code::KeyO));
    assert("p"@ =~= key_name(Code::KeyP));
    assert("q"@ =~= key_name(Code::KeyQ));
    assert("r"@ =~= key_name(Code::KeyR));
    assert("s"@ =~= key_name(Code::KeyS));
    assert("t"@ =~= key_name(Code::KeyT));
    assert("u"@ =~= key_name(Code::KeyU));
    assert("v"@ =~= key_name(Code::KeyV));
    assert("w"@ =~= key_name(Code::KeyW));
    assert("x"@ =~= key_name(Code::KeyX));
    assert("y"@ =~= key_name(Code::KeyY));
    assert("z"@ =~= key_name(Code::KeyZ));
}

/// Every key but Escape is named by its own name: a letter word names the
/// key of that letter, `f1` to `f12` the function key of that number, and
/// `space` the space bar; and a word names a key only when it is that key's
/// name, so no two keys share a word.
pub proof fn law_key_words_name_their_keys(w: Seq<char>, c: Code)
    ensures
        c != Code::Escape ==> key_named(key_name(c)) == Some(c),
        key_named(w) == Some(c) ==> w == key_name(c) && c != Code::Escape,
{
    lemma_key_literals();
    if c != Code::Escape {
        lemma_key_named_by_name(c);
    }
}

#[verifier::rlimit(80)]
proof fn lemma_key_named_by_name(c: Code)
    requires
        c != Code::Escape,
    ensures
        key_named(key_name(c)) == Some(c),
{
    lemma_key_literals();
    lemma_key_literal_lengths();
    match c {
        Code::Space => {
            reveal_strlit("space");
            assert(key_name(c) == "space"@);
            assert(key_named("space"@) == Some(Code::Space));
        },
        Code::F1 => {
            reveal_strlit("f1");
            assert(key_name(c) == "f1"@);
            assert(key_named("f1"@) == Some(Code::F1));
        },
        Code::F2 => {
            reveal_strlit("f2");
            assert(key_name(c) == "f2"@);
            assert(key_named("f2"@) == Some(Code::F2));
        },
        Code::F3 => {
            reveal_strlit("f3");
            assert(key_name(c) == "f3"@);
            assert(key_named("f3"@) == Some(Code::F3));
        },
        Code::F4 => {
            reveal_strlit("f4");
            assert(key_name(c) == "f4"@);
            assert(key_named("f4"@) == Some(Code::F4));
        },
        Code::F5 => {
            reveal_strlit("f5");
            assert(key_name(c) == "f5"@);
            assert(key_named("f5"@) == Some(Code::F5));
        },
        Code::F6 => {
            reveal_strlit("f6");
            assert(key_name(c) == "f6"@);
            assert(key_named("f6"@) == Some(Code::F6));
        },
        Code::F7 => {
            reveal_strlit("f7");
            assert(key_name(c) == "f7"@);
            assert(key_named("f7"@) == Some(Code::F7));
        },
        Code::F8 => {
            reveal_strlit("f8");
            assert(key_name(c) == "f8"@);
            assert(key_named("f8"@) == Some(Code::F8));
        },
        Code::F9 => {
            reveal_strlit("f9");
            assert(key_name(c) == "f9"@);
            assert(key_named("f9"@) == Some(Code::F9));
        },
        Code::F10 => {
            reveal_strlit("f10");
            assert(key_name(c) == "f10"@);
            assert(key_named("f10"@) == Some(Code::F10));
        },
        Code::F11 => {
            reveal_strlit("f11");
            assert(key_name(c) == "f11"@);
            assert(key_named("f11"@) == Some(Code::F11));
        },
        Code::F12 => {
            reveal_strlit("f12");
            assert(key_name(c) == "f12"@);
            assert(key_named("f12"@) == Some(Code::F12));
        },
        Code::KeyA => {
            reveal_strlit("a");
            assert(key_name(c) == "a"@);
            assert(key_named("a"@) == Some(Code::KeyA));
        },
        Code::KeyB => {
            reveal_strlit("b");
            assert(key_name(c) == "b"@);
            assert(key_named("b"@) == Some(Code::KeyB));
        },
        Code::KeyC => {
            reveal_strlit("c");
            assert(key_name(c) == "c"@);
            assert(key_named("c"@) == Some(Code::KeyC));
        },
        Code::KeyD => {
            reveal_strlit("d");
            assert(key_name(c) == "d"@);
            assert(key_named("d"@) == Some(Code::KeyD));
        },
        Code::KeyE => {
            reveal_strlit("e");
            assert(key_name(c) == "e"@);
            assert(key_named("e"@) == Some(Code::KeyE));
        },
        Code::KeyF => {
            reveal_strlit("f");
            assert(key_name(c) == "f"@);
            assert(key_named("f"@) == Some(Code::KeyF));
        },
        Code::KeyG => {
            reveal_strlit("g");
            assert(key_name(c) == "g"@);
            assert(key_named("g"@) == Some(Code::KeyG));
        },
        Code::KeyH => {
            reveal_strlit("h");
            assert(key_name(c) == "h"@);
            assert(key_named("h"@) == Some(Code::KeyH));
        },
        Code::KeyI => {
            reveal_strlit("i");
            assert(key_name(c) == "i"@);
            assert(key_named("i"@) == Some(Code::KeyI));
        },
        Code::KeyJ => {
            reveal_strlit("j");
            assert(key_name(c) == "j"@);
            assert(key_named("j"@) == Some(Code::KeyJ));
        },
        Code::KeyK => {
            reveal_strlit("k");
            assert(key_name(c) == "k"@);
            assert(key_named("k"@) == Some(Code::KeyK));
        },
        Code::KeyL => {
            reveal_strlit("l");
            assert(key_name(c) == "l"@);
            assert(key_named("l"@) == Some(Code::KeyL));
        },
        Code::KeyM => {
            reveal_strlit("m");
            assert(key_name(c) == "m"@);
            assert(key_named("m"@) == Some(Code::KeyM));
        },
        Code::KeyN => {
            reveal_strlit("n");
            assert(key_name(c) == "n"@);
            assert(key_named("n"@) == Some(Code::KeyN));
        },
        Code::KeyO => {
            reveal_strlit("o");
            assert(key_name(c) == "o"@);
            assert(key_named("o"@) == Some(Code::KeyO));
        },
        Code::KeyP => {
            reveal_strlit("p");
            assert(key_name(c) == "p"@);
            assert(key_named("p"@) == Some(Code::KeyP));
        },
        Code::KeyQ => {
            reveal_strlit("q");
            assert(key_name(c) == "q"@);
            assert(key_named("q"@) == Some(Code::KeyQ));
        },
        Code::KeyR => {
            reveal_strlit("r");
            assert(key_name(c) == "r"@);
            assert(key_named("r"@) == Some(Code::KeyR));
        },
        Code::KeyS => {
            reveal_strlit("s");
            assert(key_name(c) == "s"@);
            assert(key_named("s"@) == Some(Code::KeyS));
        },
        Code::KeyT => {
            reveal_strlit("t");
            assert(key_name(c) == "t"@);
            assert(key_named("t"@) == Some(Code::KeyT));
        },
        Code::KeyU => {
            reveal_strlit("u");
            assert(key_name(c) == "u"@);
            assert(key_named("u"@) == Some(Code::KeyU));
        },
        Code::KeyV => {
            reveal_strlit("v");
            assert(key_name(c) == "v"@);
            assert(key_named("v"@) == Some(Code::KeyV));
        },
        Code::KeyW => {
            reveal_strlit("w");
            assert(key_name(c) == "w"@);
            assert(key_named("w"@) == Some(Code::KeyW));
        },
        Code::KeyX => {
            reveal_strlit("x");
            assert(key_name(c) == "x"@);
            assert(key_named("x"@) == Some(Code::KeyX));
        },
        Code::KeyY => {
            reveal_strlit("y");
            assert(key_name(c) == "y"@);
            assert(key_named("y"@) == Some(Code::KeyY));
        },
        Code::KeyZ => {
            reveal_strlit("z");
            assert(key_name(c) == "z"@);
            assert(key_named("z"@) == Some(Code::KeyZ));
        },
        Code::Escape => {},
    }
}

proof fn lemma_key_literal_lengths()
    ensures
        "space"@.len() == 5 && "space"@[0] == 's',
        "f1"@.len() == 2 && "f1"@[0] == 'f' && "f1"@[1] == '1',
        "f2"@.len() == 2 && "f2"@[0] == 'f' && "f2"@[1] == '2',
        "f3"@.len() == 2 && "f3"@[0] == 'f' && "f3"@[1] == '3',
        "f4"@.len() == 2 && "f4"@[0] == 'f' && "f4"@[1] == '4',
        "f5"@.len() == 2 && "f5"@[0] == 'f' && "f5"@[1] == '5',
        "f6"@.len() == 2 && "f6"@[0] == 'f' && "f6"@[1] == '6',
        "f7"@.len() == 2 && "f7"@[0] == 'f' && "f7"@[1] == '7',
        "f8"@.len() == 2 && "f8"@[0] == 'f' && "f8"@[1] == '8',
        "f9"@.len() == 2 && "f9"@[0] == 'f' && "f9"@[1] == '9',
        "f10"@.len() == 3 && "f10"@[0] == 'f' && "f10"@[1] == '1' && "f10"@[2] == '0',
        "f11"@.len() == 3 && "f11"@[0] == 'f' && "f11"@[1] == '1' && "f11"@[2] == '1',
        "f12"@.len() == 3 && "f12"@[0] == 'f' && "f12"@[1] == '1' && "f12"@[2] == '2',
        "a"@.len() == 1 && "a"@[0] == 'a',
        "b"@.len() == 1 && "b"@[0] == 'b',
        "c"@.len() == 1 && "c"@[0] == 'c',
        "d"@.len() == 1 && "d"@[0] == 'd',
        "e"@.len() == 1 && "e"@[0] == 'e',
        "f"@.len() == 1 && "f"@[0] == 'f',
        "g"@.len() == 1 && "g"@[0] == 'g',
        "h"@.len() == 1 && "h"@[0] == 'h',
        "i"@.len() == 1 && "i"@[0] == 'i',
        "j"@.len() == 1 && "j"@[0] == 'j',
        "k"@.len() == 1 && "k"@[0] == 'k',
        "l"@.len() == 1 && "l"@[0] == 'l',
        "m"@.len() == 1 && "m"@[0] == 'm',
        "n"@.len() == 1 && "n"@[0] == 'n',
        "o"@.len() == 1 && "o"@[0] == 'o',
        "p"@.len() == 1 && "p"@[0] == 'p',
        "q"@.len() == 1 && "q"@[0] == 'q',
        "r"@.len() == 1 && "r"@[0] == 'r',
        "s"@.len() == 1 && "s"@[0] == 's',
        "t"@.len() == 1 && "t"@[0] == 't',
        "u"@.len() == 1 && "u"@[0] == 'u',
        "v"@.len() == 1 && "v"@[0] == 'v',
        "w"@.len() == 1 && "w"@[0] == 'w',
        "x"@.len() == 1 && "x"@[0] == 'x',
        "y"@.len() == 1 && "y"@[0] == 'y',
        "z"@.len() == 1 && "z"@[0] == 'z',
{
    reveal_strlit("space");
    reveal_strlit("f1");
    reveal_strlit("f2");
    reveal_strlit("f3");
    reveal_strlit("f4");
    reveal_strlit("f5");
    reveal_strlit("f6");
    reveal_strlit("f7");
    reveal_strlit("f8");
    reveal_strlit("f9");
    reveal_strlit("f10");
    reveal_strlit("f11");
    reveal_strlit("f12");
    reveal_strlit("a");
    reveal_strlit("b");
    reveal_strlit("c");
    reveal_strlit("d");
    reveal_strlit("e");
    reveal_strlit("f");
    reveal_strlit("g");
    reveal_strlit("h");
    reveal_strlit("i");
    reveal_strlit("j");
    reveal_strlit("k");
    reveal_strlit("l");
    reveal_strlit("m");
    reveal_strlit("n");
    reveal_strlit("o");
    reveal_strlit("p");
    reveal_strlit("q");
    reveal_strlit("r");
    reveal_strlit("s");
    reveal_strlit("t");
    reveal_strlit("u");
    reveal_strlit("v");
    reveal_strlit("w");
    reveal_strlit("x");
    reveal_strlit("y");
    reveal_strlit("z");
}

/// Whether exactly one modifier is set.
pub open spec fn single_modifier(m: Modifiers) -> bool {
    (if m.control { 1int } else { 0 }) + (if m.shift { 1int } else { 0 }) + (if m.alt { 1int } else { 0 })
        + (if m.super_key { 1int } else { 0 }) == 1
}

/// A modifier word names exactly one modifier: `ctrl` the Control key,
/// `shift` Shift, `alt` Alt and `super` the Super key; `control` is another
/// name of Control, and `cmd`, `meta` and `cmdorctrl` other names of Super.
pub proof fn law_modifier_words_name_one_modifier(w: Seq<char>)
    ensures
        modifier_named(w) matches Some(m) ==> single_modifier(m),
        modifier_named("ctrl"@) == Some(Modifiers { control: true, ..no_mods() }),
        modifier_named("shift"@) == Some(Modifiers { shift: true, ..no_mods() }),
        modifier_named("alt"@) == Some(Modifiers { alt: true, ..no_mods() }),
        modifier_named("super"@) == Some(Modifiers { super_key: true, ..no_mods() }),
        modifier_named("control"@) == modifier_named("ctrl"@),
        modifier_named("cmd"@) == modifier_named("super"@),
        modifier_named("meta"@) == modifier_named("super"@),
        modifier_named("cmdorctrl"@) == modifier_named("super"@),
{
    reveal_strlit("ctrl");
    reveal_strlit("control");
    reveal_strlit("shift");
    reveal_strlit("alt");
    reveal_strlit("super");
    reveal_strlit("cmd");
    reveal_strlit("meta");
    reveal_strlit("cmdorctrl");
    assert("ctrl"@.len() == 4 && "control"@.len() == 7 && "shift"@.len() == 5 && "alt"@.len() == 3);
    assert("super"@.len() == 5 && "cmd"@.len() == 3 && "meta"@.len() == 4 && "cmdorctrl"@.len() == 9);
    assert("shift"@[0] != "super"@[1]);
    assert("alt"@[0] != "cmd"@[0]);
    assert("super"@[0] == 's' && "shift"@[1] == 'h' && "super"@[1] == 'u');
    assert("meta"@[0] == 'm' && "ctrl"@[0] == 'c');
}

/// The modifier that a lowercased shortcut word names, if any.
pub fn modifier_from_word(w: &str) -> (r: Option<Modifiers>)
    ensures
        r == modifier_named(w@),
{
    if same_text(w, "ctrl") || same_text(w, "control") {
        Some(Modifiers::control())
    } else if same_text(w, "shift") {
        Some(Modifiers::shift())
    } else if same_text(w, "alt") {
        Some(Modifiers::alt())
    } else if same_text(w, "super") || same_text(w, "cmd") || same_text(w, "meta") || same_text(w, "cmdorctrl") {
        Some(Modifiers::super_key())
    } else {
        None
    }
}

/// The key that a lowercased shortcut word names, if any.
pub fn key_from_word(w: &str) -> (r: Option<Code>)
    ensures
        r == key_named(w@),
{
    if same_text(w, "space") { Some(Code::Space) } else
    if same_text(w, "f1") { Some(Code::F1) } else
    if same_text(w, "f2") { Some(Code::F2) } else
    if same_text(w, "f3") { Some(Code::F3) } else
    if same_text(w, "f4") { Some(Code::F4) } else
    if same_text(w, "f5") { Some(Code::F5) } else
    if same_text(w, "f6") { Some(Code::F6) } else
    if same_text(w, "f7") { Some(Code::F7) } else
    if same_text(w, "f8") { Some(Code::F8) } else
    if same_text(w, "f9") { Some(Code::F9) } else
    if same_text(w, "f10") { Some(Code::F10) } else
    if same_text(w, "f11") { Some(Code::F11) } else
    if same_text(w, "f12") { Some(Code::F12) } else
    if same_text(w, "a") { Some(Code::KeyA) } else
    if same_text(w, "b") { Some(Code::KeyB) } else
    if same_text(w, "c") { Some(Code::KeyC) } else
    if same_text(w, "d") { Some(Code::KeyD) } else
    if same_text(w, "e") { Some(Code::KeyE) } else
    if same_text(w, "f") { Some(Code::KeyF) } else
    if same_text(w, "g") { Some(Code::KeyG) } else
    if same_text(w, "h") { Some(Code::KeyH) } else
    if same_text(w, "i") { Some(Code::KeyI) } else
    if same_text(w, "j") { Some(Code::KeyJ) } else
    if same_text(w, "k") { Some(Code::KeyK) } else
    if same_text(w, "l") { Some(Code::KeyL) } else
    if same_text(w, "m") { Some(Code::KeyM) } else
    if same_text(w, "n") { Some(Code::KeyN) } else
    if same_text(w, "o") { Some(Code::KeyO) } else
    if same_text(w, "p") { Some(Code::KeyP) } else
    if same_text(w, "q") { Some(Code::KeyQ) } else
    if same_text(w, "r") { Some(Code::KeyR) } else
    if same_text(w, "s") { Some(Code::KeyS) } else
    if same_text(w, "t") { Some(Code::KeyT) } else
    if same_text(w, "u") { Some(Code::KeyU) } else
    if same_text(w, "v") { Some(Code::KeyV) } else
    if same_text(w, "w") { Some(Code::KeyW) } else
    if same_text(w, "x") { Some(Code::KeyX) } else
    if same_text(w, "y") { Some(Code::KeyY) } else
    if same_text(w, "z") { Some(Code::KeyZ) } else { None }
}

/// The words of a shortcut string: its `+`-separated pieces, trimmed.
pub open spec fn shortcut_words(s: Seq<char>) -> Seq<Seq<char>> {
    split_seq(s, '+').map_values(|p: Seq<char>| trim_seq(p))
}

/// The modifiers named by the first `n` words, left to right; the first word
/// that names no modifier gives the error.
pub open spec fn parse_modifier_words(words: Seq<Seq<char>>, n: nat) -> Result<Modifiers, Seq<char>>
    decreases n,
{
    if n == 0 {
        Ok(no_mods())
    } else {
        match parse_modifier_words(words, (n - 1) as nat) {
            Err(e) => Err(e),
            Ok(m) => {
                let lw = unicode_lowercase(words[n - 1]);
                match modifier_named(lw) {
                    Some(x) => Ok(union_mods(m, x)),
                    None => Err("Unknown modifier: "@ + lw),
                }
            },
        }
    }
}

/// What parsing a shortcut string gives: every word but the last must name a
/// modifier, the last must name a key; words are compared in lowercase.
pub open spec fn parse_shortcut_spec(s: Seq<char>) -> Result<Shortcut, Seq<char>> {
    parse_words_spec(shortcut_words(s))
}

/// What parsing gives for the words of a shortcut string.
pub open spec fn parse_words_spec(words: Seq<Seq<char>>) -> Result<Shortcut, Seq<char>> {
    match parse_modifier_words(words, (words.len() - 1) as nat) {
        Err(e) => Err(e),
        Ok(m) => {
            let lk = unicode_lowercase(words.last());
            match key_named(lk) {
                Some(k) => Ok(Shortcut { mods: m, key: k }),
                None => Err("Unknown key: "@ + lk),
            }
        },
    }
}

/// A parse result with its error message taken by its characters.
pub open spec fn shortcut_result_view(r: Result<Shortcut, String>) -> Result<Shortcut, Seq<char>> {
    match r {
        Ok(s) => Ok(s),
        Err(e) => Err(e@),
    }
}

proof fn lemma_modifier_error_persists(words: Seq<Seq<char>>, k: nat, n: nat)
    requires
        k <= n,
        parse_modifier_words(words, k) is Err,
    ensures
        parse_modifier_words(words, n) == parse_modifier_words(words, k),
    decreases n - k,
{
    if k < n {
        lemma_modifier_error_persists(words, k, (n - 1) as nat);
    }
}

proof fn lemma_modifiers_depend_on_lowercase(w1: Seq<Seq<char>>, w2: Seq<Seq<char>>, n: nat)
    requires
        n <= w1.len(),
        n <= w2.len(),
        forall|i: int| 0 <= i < n ==> unicode_lowercase(#[trigger] w1[i]) == unicode_lowercase(w2[i]),
    ensures
        parse_modifier_words(w1, n) == parse_modifier_words(w2, n),
    decreases n,
{
    if n > 0 {
        lemma_modifiers_depend_on_lowercase(w1, w2, (n - 1) as nat);
        assert(unicode_lowercase(w1[n - 1]) == unicode_lowercase(w2[n - 1]));
    }
}

/// Parsing ignores case and the blanks around words: two shortcut strings
/// whose trimmed words have the same lowercase forms parse alike, errors
/// included.
pub proof fn law_parse_ignores_case_and_blanks(s1: Seq<char>, s2: Seq<char>)
    requires
        shortcut_words(s1).len() == shortcut_words(s2).len(),
        forall|i: int| 0 <= i < shortcut_words(s1).len() ==>
            unicode_lowercase(#[trigger] shortcut_words(s1)[i]) == unicode_lowercase(shortcut_words(s2)[i]),
    ensures
        parse_shortcut_spec(s1) == parse_shortcut_spec(s2),
{
    let w1 = shortcut_words(s1);
    let w2 = shortcut_words(s2);
    lemma_split_nonempty(s1, '+');
    lemma_modifiers_depend_on_lowercase(w1, w2, (w1.len() - 1) as nat);
    assert(unicode_lowercase(w1[w1.len() - 1]) == unicode_lowercase(w2[w2.len() - 1]));
}

/// The modifier that word `i` names, once lowercased.
pub open spec fn word_modifier(w: Seq<Seq<char>>, i: int) -> Modifiers {
    modifier_named(unicode_lowercase(w[i])).unwrap()
}

/// Every one of the first `n` words, lowercased, names a modifier.
pub open spec fn all_name_modifiers(w: Seq<Seq<char>>, n: nat) -> bool {
    forall|i: int| 0 <= i < n ==> (#[trigger] modifier_named(unicode_lowercase(w[i]))) is Some
}

/// The modifiers that some of the first `n` words name.
pub open spec fn modifiers_named_by(w: Seq<Seq<char>>, n: nat) -> Modifiers {
    Modifiers {
        control: exists|i: int| 0 <= i < n && (#[trigger] word_modifier(w, i)).control,
        shift: exists|i: int| 0 <= i < n && (#[trigger] word_modifier(w, i)).shift,
        alt: exists|i: int| 0 <= i < n && (#[trigger] word_modifier(w, i)).alt,
        super_key: exists|i: int| 0 <= i < n && (#[trigger] word_modifier(w, i)).super_key,
    }
}

proof fn lemma_modifiers_are_union(w: Seq<Seq<char>>, n: nat)
    requires
        n <= w.len(),
        all_name_modifiers(w, n),
    ensures
        parse_modifier_words(w, n) == Ok::<Modifiers, Seq<char>>(modifiers_named_by(w, n)),
    decreases n,
{
    if n > 0 {
        let k = (n - 1) as nat;
        lemma_modifiers_are_union(w, k);
        assert(modifier_named(unicode_lowercase(w[k as int])) is Some);
        let last = word_modifier(w, k as int);
        let prev = modifiers_named_by(w, k);
        let cur = modifiers_named_by(w, n);
        assert(cur.control == (prev.control || last.control)) by {
            if cur.control {
                let i = choose|i: int| 0 <= i < n && (#[trigger] word_modifier(w, i)).control;
                if i < k { assert(prev.control); }
            }
            if prev.control {
                let i = choose|i: int| 0 <= i < k && (#[trigger] word_modifier(w, i)).control;
                assert(0 <= i < n && word_modifier(w, i).control);
            }
            if last.control { assert(word_modifier(w, k as int).control); }
        }
        assert(cur.shift == (prev.shift || last.shift)) by {
            if cur.shift {
                let i = choose|i: int| 0 <= i < n && (#[trigger] word_modifier(w, i)).shift;
                if i < k { assert(prev.shift); }
            }
            if prev.shift {
                let i = choose|i: int| 0 <= i < k && (#[trigger] word_modifier(w, i)).shift;
                assert(0 <= i < n && word_modifier(w, i).shift);
            }
            if last.shift { assert(word_modifier(w, k as int).shift); }
        }
        assert(cur.alt == (prev.alt || last.alt)) by {
            if cur.alt {
                let i = choose|i: int| 0 <= i < n && (#[trigger] word_modifier(w, i)).alt;
                if i < k { assert(prev.alt); }
            }
            if prev.alt {
                let i = choose|i: int| 0 <= i < k && (#[trigger] word_modifier(w, i)).alt;
                assert(0 <= i < n && word_modifier(w, i).alt);
            }
            if last.alt { assert(word_modifier(w, k as int).alt); }
        }
        assert(cur.super_key == (prev.super_key || last.super_key)) by {
            if cur.super_key {
                let i = choose|i: int| 0 <= i < n && (#[trigger] word_modifier(w, i)).super_key;
                if i < k { assert(prev.super_key); }
            }
            if prev.super_key {
                let i = choose|i: int| 0 <= i < k && (#[trigger] word_modifier(w, i)).super_key;
                assert(0 <= i < n && word_modifier(w, i).super_key);
            }
            if last.super_key { assert(word_modifier(w, k as int).super_key); }
        }
    }
}

proof fn lemma_modifiers_covered(w1: Seq<Seq<char>>, n1: nat, w2: Seq<Seq<char>>, n2: nat)
    requires
        forall|i: int| 0 <= i < n1 ==> exists|j: int| 0 <= j < n2 && #[trigger] word_modifier(w1, i) == #[trigger] word_modifier(w2, j),
    ensures
        modifiers_named_by(w1, n1).control ==> modifiers_named_by(w2, n2).control,
        modifiers_named_by(w1, n1).shift ==> modifiers_named_by(w2, n2).shift,
        modifiers_named_by(w1, n1).alt ==> modifiers_named_by(w2, n2).alt,
        modifiers_named_by(w1, n1).super_key ==> modifiers_named_by(w2, n2).super_key,
{
    if modifiers_named_by(w1, n1).control {
        let i = choose|i: int| 0 <= i < n1 && (#[trigger] word_modifier(w1, i)).control;
        let j = choose|j: int| 0 <= j < n2 && word_modifier(w1, i) == #[trigger] word_modifier(w2, j);
        assert(word_modifier(w2, j).control);
    }
    if modifiers_named_by(w1, n1).shift {
        let i = choose|i: int| 0 <= i < n1 && (#[trigger] word_modifier(w1, i)).shift;
        let j = choose|j: int| 0 <= j < n2 && word_modifier(w1, i) == #[trigger] word_modifier(w2, j);
        assert(word_modifier(w2, j).shift);
    }
    if modifiers_named_by(w1, n1).alt {
        let i = choose|i: int| 0 <= i < n1 && (#[trigger] word_modifier(w1, i)).alt;
        let j = choose|j: int| 0 <= j < n2 && word_modifier(w1, i) == #[trigger] word_modifier(w2, j);
        assert(word_modifier(w2, j).alt);
    }
    if modifiers_named_by(w1, n1).super_key {
        let i = choose|i: int| 0 <= i < n1 && (#[trigger] word_modifier(w1, i)).super_key;
        let j = choose|j: int| 0 <= j < n2 && word_modifier(w1, i) == #[trigger] word_modifier(w2, j);
        assert(word_modifier(w2, j).super_key);
    }
}

/// The modifier words of `w1` and of `w2` (all words but the last) all name
/// modifiers, and each names one that some word of the other names.
pub open spec fn same_modifiers_named(w1: Seq<Seq<char>>, w2: Seq<Seq<char>>) -> bool {
    &&& all_name_modifiers(w1, (w1.len() - 1) as nat)
    &&& all_name_modifiers(w2, (w2.len() - 1) as nat)
    &&& forall|i: int| 0 <= i < w1.len() - 1 ==> exists|j: int| 0 <= j < w2.len() - 1
            && #[trigger] word_modifier(w1, i) == #[trigger] word_modifier(w2, j)
    &&& forall|j: int| 0 <= j < w2.len() - 1 ==> exists|i: int| 0 <= i < w1.len() - 1
            && #[trigger] word_modifier(w2, j) == #[trigger] word_modifier(w1, i)
}

/// The order and the repetition of modifiers never matter: two shortcut
/// strings whose modifier words all name modifiers, name the same modifiers
/// (in any order, any number of times), and end in the same key word (in
/// lowercase) parse to the same shortcut.
pub proof fn law_parse_ignores_modifier_order_and_repeats(s1: Seq<char>, s2: Seq<char>)
    requires
        same_modifiers_named(shortcut_words(s1), shortcut_words(s2)),
        unicode_lowercase(shortcut_words(s1).last()) == unicode_lowercase(shortcut_words(s2).last()),
    ensures
        parse_shortcut_spec(s1) == parse_shortcut_spec(s2),
{
    lemma_split_nonempty(s1, '+');
    lemma_split_nonempty(s2, '+');
    lemma_words_parse_alike(shortcut_words(s1), shortcut_words(s2));
}

proof fn lemma_words_parse_alike(w1: Seq<Seq<char>>, w2: Seq<Seq<char>>)
    requires
        w1.len() >= 1,
        w2.len() >= 1,
        same_modifiers_named(w1, w2),
        unicode_lowercase(w1.last()) == unicode_lowercase(w2.last()),
    ensures
        parse_words_spec(w1) == parse_words_spec(w2),
{
    let n1 = (w1.len() - 1) as nat;
    let n2 = (w2.len() - 1) as nat;
    lemma_modifiers_are_union(w1, n1);
    lemma_modifiers_are_union(w2, n2);
    lemma_modifiers_covered(w1, n1, w2, n2);
    lemma_modifiers_covered(w2, n2, w1, n1);
    assert(modifiers_named_by(w1, n1) == modifiers_named_by(w2, n2));
}

/// Parse a shortcut string like "Ctrl+Shift+Space" into a Shortcut.
pub fn parse_shortcut(s: &str) -> (r: Result<Shortcut, String>)
    ensures
        shortcut_result_view(r) == parse_shortcut_spec(s@),
{
    let pieces = split_text(s, '+');
    let ghost words = shortcut_words(s@);
    proof { lemma_split_nonempty(s@, '+'); }
    let mut parts: Vec<String> = Vec::new();
    let mut i: usize = 0;
    while i < pieces.len()
        invariant
            views_of(pieces@) == split_seq(s@, '+'),
            words == shortcut_words(s@),
            i <= pieces.len(),
            parts.len() == i,
            forall|j: int| 0 <= j < i ==> #[trigger] parts@[j]@ == words[j],
        decreases pieces.len() - i,
    {
        let t = trim_text(pieces[i].as_str());
        assert(views_of(pieces@)[i as int] == pieces@[i as int]@);
        parts.push(t);
        i = i + 1;
    }
    assert(words.len() == pieces.len());
    let n: usize = parts.len() - 1;
    let mut modifiers = Modifiers::empty();
    let mut k: usize = 0;
    while k < n
        invariant
            n == parts.len() - 1,
            words.len() == parts.len(),
            words == shortcut_words(s@),
            forall|j: int| 0 <= j < parts.len() ==> #[trigger] parts@[j]@ == words[j],
            k <= n,
            parse_modifier_words(words, k as nat) == Ok::<Modifiers, Seq<char>>(modifiers),
        decreases n - k,
    {
        let lower = to_lowercase(parts[k].as_str());
        assert(parts@[k as int]@ == words[k as int]);
        match modifier_from_word(lower.as_str()) {
            Some(m) => {
                modifiers = modifiers.union(m);
            },
            None => {
                let mut msg = String::from_str("Unknown modifier: ");
                msg.append(lower.as_str());
                proof { lemma_modifier_error_persists(words, (k + 1) as nat, n as nat); }
                return Err(msg);
            },
        }
        k = k + 1;
    }
    let key_lower = to_lowercase(parts[n].as_str());
    assert(parts@[n as int]@ == words.last());
    match key_from_word(key_lower.as_str()) {
        Some(code) => {
            let mods = if modifiers.is_empty() { None } else { Some(modifiers) };
            Ok(Shortcut::new(mods, code))
        },
        None => {
            let mut msg = String::from_str("Unknown key: ");
            msg.append(key_lower.as_str());
            Err(msg)
        },
    }
}

} // verus!
