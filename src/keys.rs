use vstd::prelude::*;

use crate::text::push_char;

verus! {

/// A semantic key, decoded from the host framework's key value.
///
/// Letters, digits, punctuation marks, control keys and bare modifier keys
/// form disjoint classes; see `is_letter`, `is_upper`, `is_digit`,
/// `is_punctuation`, `is_control` and `is_modifier`.
#[derive(Clone, Copy, Debug, PartialEq, Eq, Structural)]
pub enum Key {
    LowerA,
    LowerB,
    LowerC,
    LowerD,
    LowerE,
    LowerF,
    LowerG,
    LowerH,
    LowerI,
    LowerJ,
    LowerK,
    LowerL,
    LowerM,
    LowerN,
    LowerO,
    LowerP,
    LowerQ,
    LowerR,
    LowerS,
    LowerT,
    LowerU,
    LowerV,
    LowerW,
    LowerX,
    LowerY,
    LowerZ,
    UpperA,
    UpperB,
    UpperC,
    UpperD,
    UpperE,
    UpperF,
    UpperG,
    UpperH,
    UpperI,
    UpperJ,
    UpperK,
    UpperL,
    UpperM,
    UpperN,
    UpperO,
    UpperP,
    UpperQ,
    UpperR,
    UpperS,
    UpperT,
    UpperU,
    UpperV,
    UpperW,
    UpperX,
    UpperY,
    UpperZ,
    Num0,
    Num1,
    Num2,
    Num3,
    Num4,
    Num5,
    Num6,
    Num7,
    Num8,
    Num9,
    Comma,
    Period,
    SemiColon,
    Colon,
    SingleQuote,
    DoubleQuote,
    BracketOpen,
    BracketClose,
    QuestionMark,
    BackSlash,
    ExclamationMark,
    Ellipsis,
    Space,
    Enter,
    Minus,
    Equal,
    Up,
    Down,
    Left,
    Right,
    Backspace,
    Escape,
    Shift,
    Ctrl,
    Alt,
}

/// The key value (X11 keysym) that the host framework sends for `k`.
pub open spec fn keyval_of(k: Key) -> u32 {
    match k {
        Key::LowerA => 0x61,
        Key::LowerB => 0x62,
        Key::LowerC => 0x63,
        Key::LowerD => 0x64,
        Key::LowerE => 0x65,
        Key::LowerF => 0x66,
        Key::LowerG => 0x67,
        Key::LowerH => 0x68,
        Key::LowerI => 0x69,
        Key::LowerJ => 0x6a,
        Key::LowerK => 0x6b,
        Key::LowerL => 0x6c,
        Key::LowerM => 0x6d,
        Key::LowerN => 0x6e,
        Key::LowerO => 0x6f,
        Key::LowerP => 0x70,
        Key::LowerQ => 0x71,
        Key::LowerR => 0x72,
        Key::LowerS => 0x73,
        Key::LowerT => 0x74,
        Key::LowerU => 0x75,
        Key::LowerV => 0x76,
        Key::LowerW => 0x77,
        Key::LowerX => 0x78,
        Key::LowerY => 0x79,
        Key::LowerZ => 0x7a,
        Key::UpperA => 0x41,
        Key::UpperB => 0x42,
        Key::UpperC => 0x43,
        Key::UpperD => 0x44,
        Key::UpperE => 0x45,
        Key::UpperF => 0x46,
        Key::UpperG => 0x47,
        Key::UpperH => 0x48,
        Key::UpperI => 0x49,
        Key::UpperJ => 0x4a,
        Key::UpperK => 0x4b,
        Key::UpperL => 0x4c,
        Key::UpperM => 0x4d,
        Key::UpperN => 0x4e,
        Key::UpperO => 0x4f,
        Key::UpperP => 0x50,
        Key::UpperQ => 0x51,
        Key::UpperR => 0x52,
        Key::UpperS => 0x53,
        Key::UpperT => 0x54,
        Key::UpperU => 0x55,
        Key::UpperV => 0x56,
        Key::UpperW => 0x57,
        Key::UpperX => 0x58,
        Key::UpperY => 0x59,
        Key::UpperZ => 0x5a,
        Key::Num0 => 0x30,
        Key::Num1 => 0x31,
        Key::Num2 => 0x32,
        Key::Num3 => 0x33,
        Key::Num4 => 0x34,
        Key::Num5 => 0x35,
        Key::Num6 => 0x36,
        Key::Num7 => 0x37,
        Key::Num8 => 0x38,
        Key::Num9 => 0x39,
        Key::Comma => 0x2c,
        Key::Period => 0x2e,
        Key::SemiColon => 0x3b,
        Key::Colon => 0x3a,
        Key::SingleQuote => 0x27,
        Key::DoubleQuote => 0x22,
        Key::BracketOpen => 0x5b,
        Key::BracketClose => 0x5d,
        Key::QuestionMark => 0x3f,
        Key::BackSlash => 0x5c,
        Key::ExclamationMark => 0x21,
        Key::Ellipsis => 0xaae,
        Key::Space => 0x20,
        Key::Enter => 0xff0d,
        Key::Minus => 0x2d,
        Key::Equal => 0x3d,
        Key::Up => 0xff52,
        Key::Down => 0xff54,
        Key::Left => 0xff51,
        Key::Right => 0xff53,
        Key::Backspace => 0xff08,
        Key::Escape => 0xff1b,
        Key::Shift => 0xffe1,
        Key::Ctrl => 0xffe3,
        Key::Alt => 0xffe9,
    }
}

/// The key whose key value is `v`, if there is one.
pub open spec fn key_for(v: u32) -> Option<Key> {
    if exists|k: Key| keyval_of(k) == v {
        Some(choose|k: Key| keyval_of(k) == v)
    } else {
        None
    }
}

/// A lowercase letter `a`-`z`.
pub open spec fn is_letter(k: Key) -> bool {
        k == Key::LowerA
        || k == Key::LowerB
        || k == Key::LowerC
        || k == Key::LowerD
        || k == Key::LowerE
        || k == Key::LowerF
        || k == Key::LowerG
        || k == Key::LowerH
        || k == Key::LowerI
        || k == Key::LowerJ
        || k == Key::LowerK
        || k == Key::LowerL
        || k == Key::LowerM
        || k == Key::LowerN
        || k == Key::LowerO
        || k == Key::LowerP
        || k == Key::LowerQ
        || k == Key::LowerR
        || k == Key::LowerS
        || k == Key::LowerT
        || k == Key::LowerU
        || k == Key::LowerV
        || k == Key::LowerW
        || k == Key::LowerX
        || k == Key::LowerY
        || k == Key::LowerZ
}

/// An uppercase letter `A`-`Z`.
pub open spec fn is_upper(k: Key) -> bool {
        k == Key::UpperA
        || k == Key::UpperB
        || k == Key::UpperC
        || k == Key::UpperD
        || k == Key::UpperE
        || k == Key::UpperF
        || k == Key::UpperG
        || k == Key::UpperH
        || k == Key::UpperI
        || k == Key::UpperJ
        || k == Key::UpperK
        || k == Key::UpperL
        || k == Key::UpperM
        || k == Key::UpperN
        || k == Key::UpperO
        || k == Key::UpperP
        || k == Key::UpperQ
        || k == Key::UpperR
        || k == Key::UpperS
        || k == Key::UpperT
        || k == Key::UpperU
        || k == Key::UpperV
        || k == Key::UpperW
        || k == Key::UpperX
        || k == Key::UpperY
        || k == Key::UpperZ
}

/// A digit `0`-`9`.
pub open spec fn is_digit(k: Key) -> bool {
        k == Key::Num0
        || k == Key::Num1
        || k == Key::Num2
        || k == Key::Num3
        || k == Key::Num4
        || k == Key::Num5
        || k == Key::Num6
        || k == Key::Num7
        || k == Key::Num8
        || k == Key::Num9
}

/// A punctuation mark with a full-width form.
pub open spec fn is_punctuation(k: Key) -> bool {
        k == Key::Comma
        || k == Key::Period
        || k == Key::SemiColon
        || k == Key::Colon
        || k == Key::SingleQuote
        || k == Key::DoubleQuote
        || k == Key::BracketOpen
        || k == Key::BracketClose
        || k == Key::QuestionMark
        || k == Key::BackSlash
        || k == Key::ExclamationMark
        || k == Key::Ellipsis
}

/// A control or navigation key.
pub open spec fn is_control(k: Key) -> bool {
        k == Key::Space
        || k == Key::Enter
        || k == Key::Minus
        || k == Key::Equal
        || k == Key::Up
        || k == Key::Down
        || k == Key::Left
        || k == Key::Right
        || k == Key::Backspace
        || k == Key::Escape
}

/// A bare modifier key.
pub open spec fn is_modifier(k: Key) -> bool {
        k == Key::Shift
        || k == Key::Ctrl
        || k == Key::Alt
}

/// The character of a lowercase letter key.
pub open spec fn letter_char(k: Key) -> char {
    match k {
        Key::LowerA => 'a',
        Key::LowerB => 'b',
        Key::LowerC => 'c',
        Key::LowerD => 'd',
        Key::LowerE => 'e',
        Key::LowerF => 'f',
        Key::LowerG => 'g',
        Key::LowerH => 'h',
        Key::LowerI => 'i',
        Key::LowerJ => 'j',
        Key::LowerK => 'k',
        Key::LowerL => 'l',
        Key::LowerM => 'm',
        Key::LowerN => 'n',
        Key::LowerO => 'o',
        Key::LowerP => 'p',
        Key::LowerQ => 'q',
        Key::LowerR => 'r',
        Key::LowerS => 's',
        Key::LowerT => 't',
        Key::LowerU => 'u',
        Key::LowerV => 'v',
        Key::LowerW => 'w',
        Key::LowerX => 'x',
        Key::LowerY => 'y',
        Key::LowerZ => 'z',
        _ => ' ',
    }
}

/// The value of a digit key.
pub open spec fn digit_value(k: Key) -> nat {
    match k {
        Key::Num0 => 0,
        Key::Num1 => 1,
        Key::Num2 => 2,
        Key::Num3 => 3,
        Key::Num4 => 4,
        Key::Num5 => 5,
        Key::Num6 => 6,
        Key::Num7 => 7,
        Key::Num8 => 8,
        Key::Num9 => 9,
        _ => 0,
    }
}

/// The full-width glyph of a punctuation key.
pub open spec fn full_width_of(k: Key) -> Seq<char> {
    match k {
        Key::Comma => seq!['，'],
        Key::Period => seq!['。'],
        Key::SemiColon => seq!['；'],
        Key::Colon => seq!['：'],
        Key::SingleQuote => seq!['‘'],
        Key::DoubleQuote => seq!['“'],
        Key::BracketOpen => seq!['【'],
        Key::BracketClose => seq!['】'],
        Key::QuestionMark => seq!['？'],
        Key::BackSlash => seq!['、'],
        Key::ExclamationMark => seq!['！'],
        Key::Ellipsis => seq!['…', '…'],
        _ => Seq::empty(),
    }
}

impl Key {
    /// Decodes a key value; `None` when the value is not in the key table.
    pub fn from_u32(v: u32) -> (r: Option<Key>)
        ensures
            r == key_for(v),
            forall|k: Key| (keyval_of(k) == v) == (r == Some(k)),
    {
        let r = Self::lookup(v);
        proof {
            if let Some(k0) = r {
                assert(keyval_of(k0) == v);
                let c = choose|k: Key| keyval_of(k) == v;
                assert((keyval_of(c) == v) == (r == Some(c)));
            }
        }
        r
    }

    fn lookup(v: u32) -> (r: Option<Key>)
        ensures
            forall|k: Key| (keyval_of(k) == v) == (r == Some(k)),
    {
        match v {
            0x61 => Some(Key::LowerA),
            0x62 => Some(Key::LowerB),
            0x63 => Some(Key::LowerC),
            0x64 => Some(Key::LowerD),
            0x65 => Some(Key::LowerE),
            0x66 => Some(Key::LowerF),
            0x67 => Some(Key::LowerG),
            0x68 => Some(Key::LowerH),
            0x69 => Some(Key::LowerI),
            0x6a => Some(Key::LowerJ),
            0x6b => Some(Key::LowerK),
            0x6c => Some(Key::LowerL),
            0x6d => Some(Key::LowerM),
            0x6e => Some(Key::LowerN),
            0x6f => Some(Key::LowerO),
            0x70 => Some(Key::LowerP),
            0x71 => Some(Key::LowerQ),
            0x72 => Some(Key::LowerR),
            0x73 => Some(Key::LowerS),
            0x74 => Some(Key::LowerT),
            0x75 => Some(Key::LowerU),
            0x76 => Some(Key::LowerV),
            0x77 => Some(Key::LowerW),
            0x78 => Some(Key::LowerX),
            0x79 => Some(Key::LowerY),
            0x7a => Some(Key::LowerZ),
            0x41 => Some(Key::UpperA),
            0x42 => Some(Key::UpperB),
            0x43 => Some(Key::UpperC),
            0x44 => Some(Key::UpperD),
            0x45 => Some(Key::UpperE),
            0x46 => Some(Key::UpperF),
            0x47 => Some(Key::UpperG),
            0x48 => Some(Key::UpperH),
            0x49 => Some(Key::UpperI),
            0x4a => Some(Key::UpperJ),
            0x4b => Some(Key::UpperK),
            0x4c => Some(Key::UpperL),
            0x4d => Some(Key::UpperM),
            0x4e => Some(Key::UpperN),
            0x4f => Some(Key::UpperO),
            0x50 => Some(Key::UpperP),
            0x51 => Some(Key::UpperQ),
            0x52 => Some(Key::UpperR),
            0x53 => Some(Key::UpperS),
            0x54 => Some(Key::UpperT),
            0x55 => Some(Key::UpperU),
            0x56 => Some(Key::UpperV),
            0x57 => Some(Key::UpperW),
            0x58 => Some(Key::UpperX),
            0x59 => Some(Key::UpperY),
            0x5a => Some(Key::UpperZ),
            0x30 => Some(Key::Num0),
            0x31 => Some(Key::Num1),
            0x32 => Some(Key::Num2),
            0x33 => Some(Key::Num3),
            0x34 => Some(Key::Num4),
            0x35 => Some(Key::Num5),
            0x36 => Some(Key::Num6),
            0x37 => Some(Key::Num7),
            0x38 => Some(Key::Num8),
            0x39 => Some(Key::Num9),
            0x2c => Some(Key::Comma),
            0x2e => Some(Key::Period),
            0x3b => Some(Key::SemiColon),
            0x3a => Some(Key::Colon),
            0x27 => Some(Key::SingleQuote),
            0x22 => Some(Key::DoubleQuote),
            0x5b => Some(Key::BracketOpen),
            0x5d => Some(Key::BracketClose),
            0x3f => Some(Key::QuestionMark),
            0x5c => Some(Key::BackSlash),
            0x21 => Some(Key::ExclamationMark),
            0xaae => Some(Key::Ellipsis),
            0x20 => Some(Key::Space),
            0xff0d => Some(Key::Enter),
            0x2d => Some(Key::Minus),
            0x3d => Some(Key::Equal),
            0xff52 => Some(Key::Up),
            0xff54 => Some(Key::Down),
            0xff51 => Some(Key::Left),
            0xff53 => Some(Key::Right),
            0xff08 => Some(Key::Backspace),
            0xff1b => Some(Key::Escape),
            0xffe1 => Some(Key::Shift),
            0xffe3 => Some(Key::Ctrl),
            0xffe9 => Some(Key::Alt),
            _ => None,
        }
    }

    /// Whether this is a lowercase letter key.
    pub fn is_letter(&self) -> (r: bool)
        ensures
            r == is_letter(*self),
    {
        matches!(
            self,
            Key::LowerA
            | Key::LowerB
            | Key::LowerC
            | Key::LowerD
            | Key::LowerE
            | Key::LowerF
            | Key::LowerG
            | Key::LowerH
            | Key::LowerI
            | Key::LowerJ
            | Key::LowerK
            | Key::LowerL
            | Key::LowerM
            | Key::LowerN
            | Key::LowerO
            | Key::LowerP
            | Key::LowerQ
            | Key::LowerR
            | Key::LowerS
            | Key::LowerT
            | Key::LowerU
            | Key::LowerV
            | Key::LowerW
            | Key::LowerX
            | Key::LowerY
            | Key::LowerZ
        )
    }

    /// Whether this is a digit key.
    pub fn is_digit(&self) -> (r: bool)
        ensures
            r == is_digit(*self),
    {
        matches!(
            self,
            Key::Num0
            | Key::Num1
            | Key::Num2
            | Key::Num3
            | Key::Num4
            | Key::Num5
            | Key::Num6
            | Key::Num7
            | Key::Num8
            | Key::Num9
        )
    }

    /// Whether this is a punctuation key.
    pub fn is_punctuation(&self) -> (r: bool)
        ensures
            r == is_punctuation(*self),
    {
        matches!(
            self,
            Key::Comma
            | Key::Period
            | Key::SemiColon
            | Key::Colon
            | Key::SingleQuote
            | Key::DoubleQuote
            | Key::BracketOpen
            | Key::BracketClose
            | Key::QuestionMark
            | Key::BackSlash
            | Key::ExclamationMark
            | Key::Ellipsis
        )
    }

    /// Whether this is a control or navigation key.
    pub fn is_control(&self) -> (r: bool)
        ensures
            r == is_control(*self),
    {
        matches!(
            self,
            Key::Space
            | Key::Enter
            | Key::Minus
            | Key::Equal
            | Key::Up
            | Key::Down
            | Key::Left
            | Key::Right
            | Key::Backspace
            | Key::Escape
        )
    }

    /// Whether this is an uppercase letter key.
    pub fn is_upper(&self) -> (r: bool)
        ensures
            r == is_upper(*self),
    {
        matches!(
            self,
            Key::UpperA
            | Key::UpperB
            | Key::UpperC
            | Key::UpperD
            | Key::UpperE
            | Key::UpperF
            | Key::UpperG
            | Key::UpperH
            | Key::UpperI
            | Key::UpperJ
            | Key::UpperK
            | Key::UpperL
            | Key::UpperM
            | Key::UpperN
            | Key::UpperO
            | Key::UpperP
            | Key::UpperQ
            | Key::UpperR
            | Key::UpperS
            | Key::UpperT
            | Key::UpperU
            | Key::UpperV
            | Key::UpperW
            | Key::UpperX
            | Key::UpperY
            | Key::UpperZ
        )
    }

    /// Whether this is a bare modifier key.
    pub fn is_modifier(&self) -> (r: bool)
        ensures
            r == is_modifier(*self),
    {
        matches!(
            self,
            Key::Shift
            | Key::Ctrl
            | Key::Alt
        )
    }

    /// The character of a lowercase letter key; `None` for every other key.
    pub fn to_char(&self) -> (r: Option<char>)
        ensures
            is_letter(*self) ==> r == Some(letter_char(*self)),
            !is_letter(*self) ==> r is None,
    {
        match self {
            Key::LowerA => Some('a'),
            Key::LowerB => Some('b'),
            Key::LowerC => Some('c'),
            Key::LowerD => Some('d'),
            Key::LowerE => Some('e'),
            Key::LowerF => Some('f'),
            Key::LowerG => Some('g'),
            Key::LowerH => Some('h'),
            Key::LowerI => Some('i'),
            Key::LowerJ => Some('j'),
            Key::LowerK => Some('k'),
            Key::LowerL => Some('l'),
            Key::LowerM => Some('m'),
            Key::LowerN => Some('n'),
            Key::LowerO => Some('o'),
            Key::LowerP => Some('p'),
            Key::LowerQ => Some('q'),
            Key::LowerR => Some('r'),
            Key::LowerS => Some('s'),
            Key::LowerT => Some('t'),
            Key::LowerU => Some('u'),
            Key::LowerV => Some('v'),
            Key::LowerW => Some('w'),
            Key::LowerX => Some('x'),
            Key::LowerY => Some('y'),
            Key::LowerZ => Some('z'),
            _ => None,
        }
    }

    /// The value of a digit key; `None` for every other key.
    pub fn to_usize(&self) -> (r: Option<usize>)
        ensures
            is_digit(*self) ==> r == Some(digit_value(*self) as usize),
            !is_digit(*self) ==> r is None,
    {
        match self {
            Key::Num0 => Some(0),
            Key::Num1 => Some(1),
            Key::Num2 => Some(2),
            Key::Num3 => Some(3),
            Key::Num4 => Some(4),
            Key::Num5 => Some(5),
            Key::Num6 => Some(6),
            Key::Num7 => Some(7),
            Key::Num8 => Some(8),
            Key::Num9 => Some(9),
            _ => None,
        }
    }

    /// The full-width glyph of a punctuation key; `None` for every other key.
    pub fn to_full_width_string(&self) -> (r: Option<String>)
        ensures
            is_punctuation(*self) ==> (r matches Some(s) && s@ == full_width_of(*self)),
            !is_punctuation(*self) ==> r is None,
    {
        let glyph: char = match self {
            Key::Comma => '，',
            Key::Period => '。',
            Key::SemiColon => '；',
            Key::Colon => '：',
            Key::SingleQuote => '‘',
            Key::DoubleQuote => '“',
            Key::BracketOpen => '【',
            Key::BracketClose => '】',
            Key::QuestionMark => '？',
            Key::BackSlash => '、',
            Key::ExclamationMark => '！',
            Key::Ellipsis => '…',
            _ => {
                return None;
            },
        };
        let mut s = String::new();
        push_char(&mut s, glyph);
        if *self == Key::Ellipsis {
            push_char(&mut s, glyph);
        }
        Some(s)
    }
}

/// Distinct keys have distinct key values, so each key value that the table
/// knows decodes to exactly its key.
pub proof fn lemma_key_for_keyval(k: Key)
    ensures
        key_for(keyval_of(k)) == Some(k),
{
    assert forall|j: Key| keyval_of(j) == keyval_of(k) implies j == k by {
        lemma_keyval_injective(j, k);
    }
}

proof fn lemma_keyval_injective(a: Key, b: Key)
    requires
        keyval_of(a) == keyval_of(b),
    ensures
        a == b,
{
}

} // verus!
