use vstd::prelude::*;

use crate::keys::{is_modifier, is_upper, Key, key_for};

verus! {

/// Modifier and state bits of a key event, each decoded from its own bit of
/// the host framework's modifier mask.
#[derive(Clone, Copy, Debug, PartialEq, Eq, Structural)]
pub struct Flags {
    pub is_shift: bool,
    pub is_lock: bool,
    pub is_ctrl: bool,
    pub is_alt: bool,
    pub is_mod2: bool,
    pub is_mod3: bool,
    pub is_mod4: bool,
    pub is_mod5: bool,
    pub is_btn1: bool,
    pub is_btn2: bool,
    pub is_btn3: bool,
    pub is_btn4: bool,
    pub is_btn5: bool,
    pub is_handled: bool,
    pub is_ignored: bool,
    pub is_super: bool,
    pub is_hyper: bool,
    pub is_meta: bool,
    pub is_release: bool,
}

impl Default for Flags {
    fn default() -> (r: Flags)
        ensures
            r == no_flags(),
    {
        Flags {
            is_shift: false,
            is_lock: false,
            is_ctrl: false,
            is_alt: false,
            is_mod2: false,
            is_mod3: false,
            is_mod4: false,
            is_mod5: false,
            is_btn1: false,
            is_btn2: false,
            is_btn3: false,
            is_btn4: false,
            is_btn5: false,
            is_handled: false,
            is_ignored: false,
            is_super: false,
            is_hyper: false,
            is_meta: false,
            is_release: false,
        }
    }
}

/// The flag set with every bit clear.
pub open spec fn no_flags() -> Flags {
    Flags {
        is_shift: false,
        is_lock: false,
        is_ctrl: false,
        is_alt: false,
        is_mod2: false,
        is_mod3: false,
        is_mod4: false,
        is_mod5: false,
        is_btn1: false,
        is_btn2: false,
        is_btn3: false,
        is_btn4: false,
        is_btn5: false,
        is_handled: false,
        is_ignored: false,
        is_super: false,
        is_hyper: false,
        is_meta: false,
        is_release: false,
    }
}

/// Whether bit `k` of `n` is set.
pub open spec fn bit_of(n: u32, k: u32) -> bool {
    (n >> k) & 1u32 == 1u32
}

/// The flags that a modifier mask carries.
pub open spec fn flags_of(mask: u32) -> Flags {
    Flags {
        is_shift: bit_of(mask, 0),
        is_lock: bit_of(mask, 1),
        is_ctrl: bit_of(mask, 2),
        is_alt: bit_of(mask, 3),
        is_mod2: bit_of(mask, 4),
        is_mod3: bit_of(mask, 5),
        is_mod4: bit_of(mask, 6),
        is_mod5: bit_of(mask, 7),
        is_btn1: bit_of(mask, 8),
        is_btn2: bit_of(mask, 9),
        is_btn3: bit_of(mask, 10),
        is_btn4: bit_of(mask, 11),
        is_btn5: bit_of(mask, 12),
        is_handled: bit_of(mask, 24),
        is_ignored: bit_of(mask, 25),
        is_super: bit_of(mask, 26),
        is_hyper: bit_of(mask, 27),
        is_meta: bit_of(mask, 28),
        is_release: bit_of(mask, 30),
    }
}

/// A decoded key event.
#[derive(Clone, Copy, Debug, PartialEq, Eq, Structural)]
pub struct KeyContent {
    pub key: Key,
    pub flags: Flags,
    pub key_code: u32,
}

/// The event that a raw key value, key code and modifier mask decode to;
/// `None` when the key value is not in the key table.
pub open spec fn decode_spec(keyval: u32, keycode: u32, mask: u32) -> Option<KeyContent> {
    match key_for(keyval) {
        Some(k) => Some(KeyContent { key: k, flags: flags_of(mask), key_code: keycode }),
        None => None,
    }
}

/// Input mode of the engine.
#[derive(Clone, Copy, Debug, PartialEq, Eq, Structural)]
pub enum Mode {
    English,
    Pinyin,
}

/// The other mode.
pub open spec fn flip(m: Mode) -> Mode {
    match m {
        Mode::English => Mode::Pinyin,
        Mode::Pinyin => Mode::English,
    }
}

/// What the mode switcher decided for one event.
#[derive(Clone, Copy, Debug, PartialEq, Eq, Structural)]
pub enum ModeSwitcherReturn {
    /// The event goes on to the dispatcher.
    Continue(KeyContent),
    /// The event is finished; the flag says whether it was handled.
    Done(bool),
    /// The mode was toggled; the caller ends the composing session.
    SwitchMode,
}

/// The state of a mode switcher: the mode and the last event it saw.
#[derive(Clone, Copy, Debug, PartialEq, Eq, Structural)]
pub struct SwitcherState {
    pub mode: Mode,
    pub last: KeyContent,
}

/// Whether the flags carry ctrl, alt, super, hyper, meta or lock.
pub open spec fn has_modifier(f: Flags) -> bool {
    f.is_ctrl || f.is_alt || f.is_super || f.is_hyper || f.is_meta || f.is_lock
}

/// A Shift release right after a Shift event that was not a release.
pub open spec fn is_shift_tap(prev: KeyContent, ev: KeyContent) -> bool {
    ev.key == Key::Shift && ev.flags.is_release && prev.key == Key::Shift && !prev.flags.is_release
}

/// Whether the dispatcher never takes this key: a bare modifier key or an
/// uppercase letter.
pub open spec fn filtered_out(k: Key) -> bool {
    is_modifier(k) || is_upper(k)
}

/// One transition of the mode switcher on a decoded event. The event is
/// recorded as the last one in every case. In English mode an event with a
/// modifier passes through; otherwise a Shift tap toggles the mode; otherwise
/// English mode passes the event through, and Pinyin mode passes through
/// bare modifier keys and uppercase letters and forwards the rest.
pub open spec fn switch_step(s: SwitcherState, ev: KeyContent) -> (SwitcherState, ModeSwitcherReturn) {
    let kept = SwitcherState { mode: s.mode, last: ev };
    if has_modifier(ev.flags) && s.mode == Mode::English {
        (kept, ModeSwitcherReturn::Done(false))
    } else if is_shift_tap(s.last, ev) {
        (SwitcherState { mode: flip(s.mode), last: ev }, ModeSwitcherReturn::SwitchMode)
    } else if s.mode == Mode::English || filtered_out(ev.key) {
        (kept, ModeSwitcherReturn::Done(false))
    } else {
        (kept, ModeSwitcherReturn::Continue(ev))
    }
}

/// Decodes a raw key event: the key value through the key table, each flag
/// from its bit of the modifier mask.
pub fn decode(keyval: u32, keycode: u32, mask: u32) -> (r: Option<KeyContent>)
    ensures
        r == decode_spec(keyval, keycode, mask),
{
    match Key::from_u32(keyval) {
        Some(key) => Some(KeyContent { key, flags: decode_flag(mask), key_code: keycode }),
        None => None,
    }
}

/// Whether bit `k` of `n` is set.
fn get_kth_bit(n: u32, k: u32) -> (r: bool)
    requires
        k < 32,
    ensures
        r == bit_of(n, k),
{
    assert(((n & (1u32 << k)) >> k == 1u32) == ((n >> k) & 1u32 == 1u32)) by (bit_vector)
        requires
            k < 32,
    ;
    (n & (1u32 << k)) >> k == 1
}

/// The flags of a modifier mask.
fn decode_flag(flag: u32) -> (r: Flags)
    ensures
        r == flags_of(flag),
{
    Flags {
        is_shift: get_kth_bit(flag, 0),
        is_lock: get_kth_bit(flag, 1),
        is_ctrl: get_kth_bit(flag, 2),
        is_alt: get_kth_bit(flag, 3),
        is_mod2: get_kth_bit(flag, 4),
        is_mod3: get_kth_bit(flag, 5),
        is_mod4: get_kth_bit(flag, 6),
        is_mod5: get_kth_bit(flag, 7),
        is_btn1: get_kth_bit(flag, 8),
        is_btn2: get_kth_bit(flag, 9),
        is_btn3: get_kth_bit(flag, 10),
        is_btn4: get_kth_bit(flag, 11),
        is_btn5: get_kth_bit(flag, 12),
        is_handled: get_kth_bit(flag, 24),
        is_ignored: get_kth_bit(flag, 25),
        is_super: get_kth_bit(flag, 26),
        is_hyper: get_kth_bit(flag, 27),
        is_meta: get_kth_bit(flag, 28),
        is_release: get_kth_bit(flag, 30),
    }
}

/// The state of a new switcher: English mode, and as last event a placeholder
/// `a` with only the ignored flag, which cannot start a Shift tap.
pub open spec fn initial_switcher() -> SwitcherState {
    SwitcherState {
        mode: Mode::English,
        last: KeyContent {
            key: Key::LowerA,
            flags: Flags { is_ignored: true, ..no_flags() },
            key_code: 0,
        },
    }
}

/// Tracks the input mode and the previous key event, and decides for each
/// event whether it passes through, toggles the mode or goes on.
pub struct ModeSwitcher {
    mode: Mode,
    last: KeyContent,
}

impl View for ModeSwitcher {
    type V = SwitcherState;

    closed spec fn view(&self) -> SwitcherState {
        SwitcherState { mode: self.mode, last: self.last }
    }
}

impl ModeSwitcher {
    /// A switcher in English mode whose last event is an ignored placeholder.
    pub fn new() -> (r: ModeSwitcher)
        ensures
            r@ == initial_switcher(),
    {
        let r = ModeSwitcher {
            mode: Mode::English,
            last: KeyContent {
                key: Key::LowerA,
                flags: Flags { is_ignored: true, ..Flags::default() },
                key_code: 0,
            },
        };
        r
    }

    /// The current mode.
    pub fn mode(&self) -> (r: Mode)
        ensures
            r == self@.mode,
    {
        self.mode
    }

    /// The last event recorded.
    pub fn last(&self) -> (r: KeyContent)
        ensures
            r == self@.last,
    {
        self.last
    }

    /// Processes one raw key event.
    pub fn process_key_event(&mut self, keyval: u32, keycode: u32, state: u32) -> (r:
        ModeSwitcherReturn)
        ensures
            match decode_spec(keyval, keycode, state) {
                Some(ev) => (final(self)@, r) == switch_step(old(self)@, ev),
                None => final(self)@ == old(self)@ && r == ModeSwitcherReturn::Done(false),
            },
            r matches ModeSwitcherReturn::Continue(e) ==> !filtered_out(e.key),
    {
        self.process_key_event_new(keyval, keycode, state)
    }

    /// Processes one raw key event; an unknown key value is left to the host
    /// and not recorded.
    pub fn process_key_event_new(&mut self, keyval: u32, keycode: u32, state: u32) -> (r:
        ModeSwitcherReturn)
        ensures
            match decode_spec(keyval, keycode, state) {
                Some(ev) => (final(self)@, r) == switch_step(old(self)@, ev),
                None => final(self)@ == old(self)@ && r == ModeSwitcherReturn::Done(false),
            },
            r matches ModeSwitcherReturn::Continue(e) ==> !filtered_out(e.key),
    {
        match decode(keyval, keycode, state) {
            Some(ev) => self.on_event(ev),
            None => ModeSwitcherReturn::Done(false),
        }
    }

    /// One transition on a decoded event.
    pub fn on_event(&mut self, ev: KeyContent) -> (r: ModeSwitcherReturn)
        ensures
            (final(self)@, r) == switch_step(old(self)@, ev),
            r matches ModeSwitcherReturn::Continue(e) ==> !filtered_out(e.key),
    {
        let last = self.last;
        self.last = ev;
        let flags = ev.flags;
        let is_modifier = flags.is_ctrl || flags.is_alt || flags.is_super || flags.is_hyper
            || flags.is_meta || flags.is_lock;
        if is_modifier && self.mode == Mode::English {
            return ModeSwitcherReturn::Done(false);
        }
        if ev.key == Key::Shift && ev.flags.is_release && last.key == Key::Shift
            && !last.flags.is_release {
            self.mode = match self.mode {
                Mode::English => Mode::Pinyin,
                Mode::Pinyin => Mode::English,
            };
            return ModeSwitcherReturn::SwitchMode;
        }
        match self.mode {
            Mode::English => ModeSwitcherReturn::Done(false),
            Mode::Pinyin => {
                if ev.key.is_modifier() || ev.key.is_upper() {
                    ModeSwitcherReturn::Done(false)
                } else {
                    ModeSwitcherReturn::Continue(ev)
                }
            },
        }
    }
}

/// A Shift press followed at once by a Shift release toggles the mode once:
/// the press does not toggle, the release does. (In English mode the release
/// must carry none of the modifiers that make an event pass through.)
pub proof fn lemma_shift_tap_toggles(s: SwitcherState, press: KeyContent, release: KeyContent)
    requires
        press.key == Key::Shift,
        !press.flags.is_release,
        release.key == Key::Shift,
        release.flags.is_release,
        !(s.mode == Mode::English && has_modifier(release.flags)),
    ensures
        switch_step(s, press).1 != ModeSwitcherReturn::SwitchMode,
        switch_step(s, press).0.mode == s.mode,
        switch_step(switch_step(s, press).0, release).1 == ModeSwitcherReturn::SwitchMode,
        switch_step(switch_step(s, press).0, release).0.mode == flip(s.mode),
{
}

/// A different key between a Shift press and a Shift release cancels the
/// gesture: none of the three events toggles the mode.
pub proof fn lemma_intervening_key_cancels(
    s: SwitcherState,
    press: KeyContent,
    other: KeyContent,
    release: KeyContent,
)
    requires
        press.key == Key::Shift,
        !press.flags.is_release,
        other.key != Key::Shift,
        release.key == Key::Shift,
        release.flags.is_release,
    ensures
        ({
            let (s1, r1) = switch_step(s, press);
            let (s2, r2) = switch_step(s1, other);
            let (s3, r3) = switch_step(s2, release);
            r1 != ModeSwitcherReturn::SwitchMode && r2 != ModeSwitcherReturn::SwitchMode
                && r3 != ModeSwitcherReturn::SwitchMode && s3.mode == s.mode
        }),
{
}

} // verus!
