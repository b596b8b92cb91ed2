use pinyin_engine::candidate::Candidate;
use pinyin_engine::dispatcher::{Dispatcher, Step};
use pinyin_engine::keys::Key;
use pinyin_engine::mode_switcher::{Flags, KeyContent, Mode};
use pinyin_engine::number_service::NumberService;
use pinyin_engine::pipeline::Pipeline;
use pinyin_engine::sink::{LookupTable, Outbox, SinkCall, TableEntry};
use pinyin_engine::symbol_service::SymbolService;

const SHIFT: u32 = 0xffe1;
const RELEASE: u32 = 1 << 30;

fn cand(w: &str) -> Candidate {
    Candidate::new(w.to_string(), String::new(), None)
}

fn list(n: usize) -> Vec<Candidate> {
    (0..n).map(|i| cand(&format!("w{}", i))).collect()
}

fn press(key: Key) -> KeyContent {
    KeyContent { key, flags: Flags::default(), key_code: 0 }
}

fn release(key: Key) -> KeyContent {
    KeyContent { key, flags: Flags { is_release: true, ..Flags::default() }, key_code: 0 }
}

fn query(step: Step) -> (String, usize) {
    match step {
        Step::Query { prefix, min_count } => (prefix, min_count),
        Step::Done(h) => panic!("expected a query, got Done({})", h),
    }
}

fn pinyin_pipeline() -> Pipeline {
    let mut p = Pipeline::new();
    assert_eq!(p.accept(SHIFT, 50, 0), Step::Done(false));
    assert_eq!(p.accept(SHIFT, 50, RELEASE), Step::Done(true));
    assert_eq!(p.mode(), Mode::Pinyin);
    p.take_calls();
    p
}

fn composing(text: &[Key], n: usize) -> Dispatcher {
    let mut d = Dispatcher::new();
    for k in text {
        let _ = query(d.on_input(press(*k)));
    }
    assert!(d.on_candidates(list(n)));
    d.take_calls();
    d
}

#[test]
fn letter_press_appends_and_queries() {
    let mut d = Dispatcher::new();
    assert_eq!(query(d.on_input(press(Key::LowerN))), ("n".to_string(), 11));
    assert_eq!(query(d.on_input(press(Key::LowerI))), ("ni".to_string(), 11));
    assert_eq!(d.on_input(release(Key::LowerI)), Step::Done(true));
    assert_eq!(d.preedit_svc.to_string(), "ni".to_string());
    d.on_candidates(vec![cand("你"), cand("呢")]);
    let rows = vec![
        TableEntry { word: "你".to_string(), annotation: String::new() },
        TableEntry { word: "呢".to_string(), annotation: String::new() },
    ];
    assert_eq!(d.take_calls(), vec![SinkCall::UpdateLookupTable(LookupTable::Entries(rows), true)]);
}

#[test]
fn digit_selects_in_session() {
    let mut d = composing(&[Key::LowerN, Key::LowerI], 3);
    assert_eq!(d.on_input(release(Key::Num2)), Step::Done(true));
    assert!(d.candidate_svc.in_session());
    assert_eq!(d.on_input(press(Key::Num2)), Step::Done(true));
    assert!(!d.candidate_svc.in_session());
    assert!(d.preedit_svc.is_empty());
    assert_eq!(
        d.take_calls(),
        vec![
            SinkCall::CommitText("w1".to_string()),
            SinkCall::UpdateLookupTable(LookupTable::Empty, false),
        ]
    );
}

#[test]
fn digit_outside_window_is_swallowed() {
    let mut d = composing(&[Key::LowerN], 3);
    assert_eq!(d.on_input(press(Key::Num4)), Step::Done(true));
    assert_eq!(d.on_input(press(Key::Num0)), Step::Done(true));
    assert!(d.candidate_svc.in_session());
    assert!(d.take_calls().is_empty());
}

#[test]
fn digit_outside_session_commits_text() {
    let mut d = Dispatcher::new();
    assert_eq!(d.on_input(press(Key::Num7)), Step::Done(true));
    assert_eq!(d.on_input(press(Key::Num0)), Step::Done(true));
    assert_eq!(
        d.take_calls(),
        vec![SinkCall::CommitText("7".to_string()), SinkCall::CommitText("0".to_string())]
    );
}

#[test]
fn punctuation_commits_full_width_in_and_out_of_session() {
    let mut d = Dispatcher::new();
    assert_eq!(d.on_input(press(Key::Comma)), Step::Done(true));
    assert_eq!(d.on_input(release(Key::Comma)), Step::Done(true));
    assert_eq!(d.take_calls(), vec![SinkCall::CommitText("，".to_string())]);
    let mut d = composing(&[Key::LowerA], 2);
    assert_eq!(d.on_input(press(Key::QuestionMark)), Step::Done(true));
    assert_eq!(d.on_input(release(Key::QuestionMark)), Step::Done(true));
    assert_eq!(d.take_calls(), vec![SinkCall::CommitText("？".to_string())]);
    assert!(d.candidate_svc.in_session());
}

#[test]
fn control_keys_unhandled_outside_session() {
    let mut d = Dispatcher::new();
    for k in [Key::Space, Key::Enter, Key::Minus, Key::Equal, Key::Backspace, Key::Escape, Key::Up] {
        assert_eq!(d.on_input(press(k)), Step::Done(false));
    }
    assert!(d.take_calls().is_empty());
}

#[test]
fn space_selects_first() {
    let mut d = composing(&[Key::LowerH], 4);
    assert_eq!(d.on_input(press(Key::Space)), Step::Done(true));
    assert_eq!(d.take_calls()[0], SinkCall::CommitText("w0".to_string()));
    assert!(!d.candidate_svc.in_session());
}

#[test]
fn enter_commits_composing_text() {
    let mut d = composing(&[Key::LowerH, Key::LowerA, Key::LowerO], 4);
    assert_eq!(d.on_input(press(Key::Enter)), Step::Done(true));
    assert_eq!(
        d.take_calls(),
        vec![
            SinkCall::CommitText("hao".to_string()),
            SinkCall::UpdateLookupTable(LookupTable::Empty, false),
        ]
    );
    assert!(d.preedit_svc.is_empty());
}

#[test]
fn equal_and_minus_page() {
    let mut d = composing(&[Key::LowerA], 7);
    assert_eq!(d.on_input(press(Key::Equal)), Step::Done(true));
    assert_eq!(d.candidate_svc.page(), 1);
    assert_eq!(query(d.on_input(press(Key::Equal))), ("a".to_string(), 11));
    d.on_candidates(list(11));
    assert_eq!(d.candidate_svc.page(), 1);
    assert_eq!(d.on_input(press(Key::Equal)), Step::Done(true));
    assert_eq!(d.candidate_svc.page(), 2);
    assert_eq!(query(d.on_input(press(Key::Equal))), ("a".to_string(), 21));
    assert_eq!(d.on_input(press(Key::Minus)), Step::Done(true));
    assert_eq!(d.candidate_svc.page(), 1);
}

#[test]
fn backspace_requeries_then_ends() {
    let mut d = composing(&[Key::LowerN, Key::LowerI], 3);
    assert_eq!(query(d.on_input(press(Key::Backspace))), ("n".to_string(), 11));
    assert!(d.candidate_svc.in_session());
    assert_eq!(d.on_input(press(Key::Backspace)), Step::Done(true));
    assert!(!d.candidate_svc.in_session());
    assert_eq!(d.take_calls(), vec![SinkCall::UpdateLookupTable(LookupTable::Empty, false)]);
}

#[test]
fn escape_ends_composition() {
    let mut d = composing(&[Key::LowerN], 3);
    assert_eq!(d.on_input(press(Key::Escape)), Step::Done(true));
    assert!(!d.candidate_svc.in_session());
    assert!(d.preedit_svc.is_empty());
    assert_eq!(d.on_input(press(Key::Escape)), Step::Done(false));
}

#[test]
fn arrows_and_stray_keys_declined() {
    let mut d = composing(&[Key::LowerN], 3);
    for k in [Key::Up, Key::Down, Key::Left, Key::Right] {
        assert_eq!(d.on_input(press(k)), Step::Done(false));
    }
    assert_eq!(d.on_input(press(Key::UpperA)), Step::Done(false));
    assert_eq!(d.on_input(press(Key::Shift)), Step::Done(false));
    assert!(d.candidate_svc.in_session());
    assert!(d.take_calls().is_empty());
}

#[test]
fn services_commit_text() {
    let mut sink = Outbox::new();
    NumberService::new().handle_number(press(Key::Num5), &mut sink);
    SymbolService::new().handle_symbol(press(Key::ExclamationMark), &mut sink);
    SymbolService::new().handle_symbol(release(Key::ExclamationMark), &mut sink);
    assert_eq!(
        sink.take_calls(),
        vec![SinkCall::CommitText("5".to_string()), SinkCall::CommitText("！".to_string())]
    );
}

#[test]
fn english_mode_passes_everything() {
    let mut p = Pipeline::new();
    assert_eq!(p.accept(0x61, 38, 0), Step::Done(false));
    assert_eq!(p.accept(0x2c, 59, 0), Step::Done(false));
    assert_eq!(p.accept(0x1234, 0, 0), Step::Done(false));
    assert!(p.take_calls().is_empty());
}

#[test]
fn shift_tap_ends_active_session() {
    let mut p = pinyin_pipeline();
    assert_eq!(query(p.accept(0x6e, 57, 0)), ("n".to_string(), 11));
    assert!(p.on_candidates(list(3)));
    assert_eq!(p.accept(0x6e, 57, RELEASE), Step::Done(true));
    p.take_calls();
    assert_eq!(p.accept(SHIFT, 50, 0), Step::Done(false));
    assert_eq!(p.accept(SHIFT, 50, RELEASE), Step::Done(true));
    assert_eq!(p.mode(), Mode::English);
    assert_eq!(p.take_calls(), vec![SinkCall::UpdateLookupTable(LookupTable::Empty, false)]);
    // Back in English, a digit passes through.
    assert_eq!(p.accept(0x31, 10, 0), Step::Done(false));
}

#[test]
fn shift_with_other_key_between_does_not_toggle() {
    let mut p = pinyin_pipeline();
    p.accept(SHIFT, 50, 0);
    p.accept(0x2c, 59, 0);
    p.accept(SHIFT, 50, RELEASE);
    assert_eq!(p.mode(), Mode::Pinyin);
    assert_eq!(p.take_calls(), vec![SinkCall::CommitText("，".to_string())]);
}
