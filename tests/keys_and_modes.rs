use pinyin_engine::keys::Key;
use pinyin_engine::mode_switcher::{decode, Flags, Mode, ModeSwitcher, ModeSwitcherReturn};
use pinyin_engine::text::string_of_chars;

const SHIFT: u32 = 0xffe1;
const RELEASE: u32 = 1 << 30;
const CTRL: u32 = 1 << 2;

#[test]
fn decodes_key_values() {
    assert_eq!(Key::from_u32(0x61), Some(Key::LowerA));
    assert_eq!(Key::from_u32(0x7a), Some(Key::LowerZ));
    assert_eq!(Key::from_u32(0x41), Some(Key::UpperA));
    assert_eq!(Key::from_u32(0x30), Some(Key::Num0));
    assert_eq!(Key::from_u32(0x2c), Some(Key::Comma));
    assert_eq!(Key::from_u32(0xff0d), Some(Key::Enter));
    assert_eq!(Key::from_u32(SHIFT), Some(Key::Shift));
    assert_eq!(Key::from_u32(0x1234), None);
}

#[test]
fn key_conversions() {
    assert_eq!(Key::LowerQ.to_char(), Some('q'));
    assert_eq!(Key::UpperQ.to_char(), None);
    assert_eq!(Key::Num7.to_usize(), Some(7));
    assert_eq!(Key::Comma.to_usize(), None);
    assert_eq!(Key::Comma.to_full_width_string(), Some("，".to_string()));
    assert_eq!(Key::Period.to_full_width_string(), Some("。".to_string()));
    assert_eq!(Key::Ellipsis.to_full_width_string(), Some("……".to_string()));
    assert_eq!(Key::LowerA.to_full_width_string(), None);
    assert!(Key::LowerB.is_letter() && !Key::UpperB.is_letter());
    assert!(Key::Escape.is_control() && Key::Num3.is_digit() && Key::Colon.is_punctuation());
}

#[test]
fn decodes_each_flag_bit() {
    let ev = decode(0x61, 38, 1 | CTRL | (1 << 26) | RELEASE).unwrap();
    assert_eq!(ev.key, Key::LowerA);
    assert_eq!(ev.key_code, 38);
    assert!(ev.flags.is_shift && ev.flags.is_ctrl && ev.flags.is_super && ev.flags.is_release);
    assert!(!ev.flags.is_lock && !ev.flags.is_alt && !ev.flags.is_meta && !ev.flags.is_ignored);
    let all = decode(0x61, 0, 0xffff_ffff).unwrap().flags;
    assert!(all.is_mod5 && all.is_btn5 && all.is_handled && all.is_hyper);
    let none = decode(0x61, 0, 0).unwrap().flags;
    assert_eq!(none, Flags::default());
    assert!(decode(0x1234, 0, 0).is_none());
}

#[test]
fn string_of_chars_keeps_order() {
    assert_eq!(string_of_chars(&vec!['n', 'i', '好']), "ni好".to_string());
    assert_eq!(string_of_chars(&vec![]), String::new());
}

#[test]
fn shift_tap_toggles_mode_once() {
    let mut m = ModeSwitcher::new();
    assert_eq!(m.mode(), Mode::English);
    assert_eq!(m.process_key_event(SHIFT, 50, 0), ModeSwitcherReturn::Done(false));
    assert_eq!(m.mode(), Mode::English);
    assert_eq!(m.process_key_event(SHIFT, 50, RELEASE), ModeSwitcherReturn::SwitchMode);
    assert_eq!(m.mode(), Mode::Pinyin);
    // A second release alone does not toggle again.
    assert_eq!(m.process_key_event(SHIFT, 50, RELEASE), ModeSwitcherReturn::Done(false));
    assert_eq!(m.mode(), Mode::Pinyin);
    m.process_key_event(SHIFT, 50, 0);
    assert_eq!(m.process_key_event(SHIFT, 50, RELEASE), ModeSwitcherReturn::SwitchMode);
    assert_eq!(m.mode(), Mode::English);
}

#[test]
fn intervening_key_cancels_shift_tap() {
    let mut m = ModeSwitcher::new();
    m.process_key_event(SHIFT, 50, 0);
    m.process_key_event(0x61, 38, 0);
    assert_eq!(m.process_key_event(SHIFT, 50, RELEASE), ModeSwitcherReturn::Done(false));
    assert_eq!(m.mode(), Mode::English);
}

#[test]
fn english_mode_passes_through_and_pinyin_forwards() {
    let mut m = ModeSwitcher::new();
    assert_eq!(m.process_key_event(0x61, 38, 0), ModeSwitcherReturn::Done(false));
    assert_eq!(m.last().key, Key::LowerA);
    m.process_key_event(SHIFT, 50, 0);
    m.process_key_event(SHIFT, 50, RELEASE);
    match m.process_key_event(0x62, 56, 0) {
        ModeSwitcherReturn::Continue(ev) => {
            assert_eq!(ev.key, Key::LowerB);
            assert_eq!(ev.key_code, 56);
        }
        other => panic!("unexpected {:?}", other),
    }
    // With ctrl held, Pinyin mode still forwards.
    assert!(matches!(m.process_key_event(0x62, 56, CTRL), ModeSwitcherReturn::Continue(_)));
}

#[test]
fn english_mode_modifier_release_does_not_toggle() {
    let mut m = ModeSwitcher::new();
    m.process_key_event(SHIFT, 50, 0);
    assert_eq!(m.process_key_event(SHIFT, 50, RELEASE | CTRL), ModeSwitcherReturn::Done(false));
    assert_eq!(m.mode(), Mode::English);
}

#[test]
fn unknown_key_is_not_recorded() {
    let mut m = ModeSwitcher::new();
    m.process_key_event(SHIFT, 50, 0);
    assert_eq!(m.process_key_event(0x1234, 1, 0), ModeSwitcherReturn::Done(false));
    assert_eq!(m.last().key, Key::Shift);
    assert_eq!(m.process_key_event_new(SHIFT, 50, RELEASE), ModeSwitcherReturn::SwitchMode);
}

#[test]
fn pinyin_mode_filters_modifiers_and_uppercase() {
    let mut m = ModeSwitcher::new();
    m.process_key_event(SHIFT, 50, 0);
    m.process_key_event(SHIFT, 50, RELEASE);
    assert_eq!(m.mode(), Mode::Pinyin);
    assert_eq!(m.process_key_event(SHIFT, 50, 0), ModeSwitcherReturn::Done(false));
    assert_eq!(m.last().key, Key::Shift);
    assert_eq!(m.process_key_event(0xffe3, 37, 0), ModeSwitcherReturn::Done(false));
    assert_eq!(m.process_key_event(0xffe9, 64, 0), ModeSwitcherReturn::Done(false));
    assert_eq!(m.process_key_event(0x41, 38, 1), ModeSwitcherReturn::Done(false));
    assert_eq!(m.last().key, Key::UpperA);
    // The Shift tap still works after a filtered Shift press.
    m.process_key_event(SHIFT, 50, 0);
    assert_eq!(m.process_key_event(SHIFT, 50, RELEASE), ModeSwitcherReturn::SwitchMode);
    assert_eq!(m.mode(), Mode::English);
}

#[test]
fn new_switcher_starts_with_placeholder_event() {
    let m = ModeSwitcher::new();
    let last = m.last();
    assert_eq!(last.key, Key::LowerA);
    assert_eq!(last.key_code, 0);
    assert_eq!(last.flags, Flags { is_ignored: true, ..Flags::default() });
    assert_eq!(m.mode(), Mode::English);
}
