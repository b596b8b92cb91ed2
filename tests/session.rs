use pinyin_engine::candidate::Candidate;
use pinyin_engine::candidate_service::{CandidateService, State, PAGE_SIZE};
use pinyin_engine::preedit::PreeditBuffer;
use pinyin_engine::sink::{LookupTable, Outbox, SinkCall, TableEntry};

fn cand(w: &str) -> Candidate {
    Candidate::new(w.to_string(), format!("{}-note", w), None)
}

fn list(n: usize) -> Vec<Candidate> {
    (0..n).map(|i| cand(&format!("w{}", i))).collect()
}

fn rows(range: std::ops::Range<usize>) -> LookupTable {
    LookupTable::Entries(
        range
            .map(|i| TableEntry { word: format!("w{}", i), annotation: format!("w{}-note", i) })
            .collect(),
    )
}

fn last_call(sink: &mut Outbox) -> Option<SinkCall> {
    sink.take_calls().pop()
}

#[test]
fn pages_of_twelve() {
    let mut svc = CandidateService::new();
    let mut sink = Outbox::new();
    svc.set_candidates(list(12), &mut sink);
    assert_eq!(last_call(&mut sink), Some(SinkCall::UpdateLookupTable(rows(0..5), true)));
    assert_eq!(svc.page_into(&mut sink), (true, None));
    assert_eq!(last_call(&mut sink), Some(SinkCall::UpdateLookupTable(rows(5..10), true)));
    assert_eq!(svc.page_into(&mut sink), (true, None));
    assert_eq!(last_call(&mut sink), Some(SinkCall::UpdateLookupTable(rows(10..12), true)));
    assert_eq!(svc.page(), 2);
    assert_eq!(svc.page_into(&mut sink), (false, Some(16)));
    assert_eq!(sink.len(), 0);
    assert_eq!(svc.page(), 2);
}

#[test]
fn page_into_then_back_restores_window() {
    let mut svc = CandidateService::new();
    let mut sink = Outbox::new();
    svc.set_candidates(list(7), &mut sink);
    sink.take_calls();
    assert_eq!(svc.page_into(&mut sink), (true, None));
    svc.page_back(&mut sink);
    assert_eq!(svc.page(), 0);
    assert_eq!(last_call(&mut sink), Some(SinkCall::UpdateLookupTable(rows(0..5), true)));
}

#[test]
fn page_back_on_first_page_does_nothing() {
    let mut svc = CandidateService::new();
    let mut sink = Outbox::new();
    svc.set_candidates(list(3), &mut sink);
    sink.take_calls();
    svc.page_back(&mut sink);
    assert_eq!(sink.len(), 0);
    assert_eq!(svc.page(), 0);
}

#[test]
fn short_list_renders_whole_and_cannot_page() {
    let mut svc = CandidateService::new();
    let mut sink = Outbox::new();
    svc.set_candidates(list(3), &mut sink);
    assert_eq!(last_call(&mut sink), Some(SinkCall::UpdateLookupTable(rows(0..3), true)));
    assert_eq!(svc.page_into(&mut sink), (false, Some(PAGE_SIZE + 1)));
    assert_eq!(PAGE_SIZE + 1, 6);
}

#[test]
fn empty_list_renders_empty_marker() {
    let mut svc = CandidateService::new();
    let mut sink = Outbox::new();
    svc.set_candidates(Vec::new(), &mut sink);
    assert_eq!(last_call(&mut sink), Some(SinkCall::UpdateLookupTable(LookupTable::Empty, true)));
    assert!(!svc.in_session());
}

#[test]
fn page_kept_when_list_shrinks() {
    let mut svc = CandidateService::new();
    let mut sink = Outbox::new();
    svc.set_candidates(list(8), &mut sink);
    svc.page_into(&mut sink);
    sink.take_calls();
    svc.set_candidates(list(3), &mut sink);
    assert_eq!(svc.page(), 1);
    assert_eq!(last_call(&mut sink), Some(SinkCall::UpdateLookupTable(LookupTable::Empty, true)));
}

#[test]
fn select_single_candidate_commits_and_ends() {
    let mut svc = CandidateService::new();
    let mut sink = Outbox::new();
    svc.set_candidates(vec![cand("你好")], &mut sink);
    sink.take_calls();
    assert!(svc.has_slot(1));
    assert!(!svc.has_slot(2));
    svc.select(1, &mut sink);
    assert!(!svc.in_session());
    assert_eq!(
        sink.take_calls(),
        vec![
            SinkCall::CommitText("你好".to_string()),
            SinkCall::UpdateLookupTable(LookupTable::Empty, false),
        ]
    );
}

#[test]
fn select_on_second_page_uses_page_offset() {
    let mut svc = CandidateService::new();
    let mut sink = Outbox::new();
    svc.set_candidates(list(9), &mut sink);
    svc.page_into(&mut sink);
    sink.take_calls();
    svc.select(3, &mut sink);
    assert_eq!(sink.take_calls()[0], SinkCall::CommitText("w7".to_string()));
    assert_eq!(svc.page(), 0);
}

#[test]
fn in_session_follows_last_set_and_clear() {
    let mut svc = CandidateService::new();
    let mut sink = Outbox::new();
    assert!(!svc.in_session());
    svc.set_candidates(list(6), &mut sink);
    assert!(svc.in_session());
    svc.page_into(&mut sink);
    svc.page_back(&mut sink);
    assert!(svc.in_session());
    svc.clear(&mut sink);
    assert!(!svc.in_session());
    assert_eq!(svc.page(), 0);
    assert_eq!(last_call(&mut sink), Some(SinkCall::UpdateLookupTable(LookupTable::Empty, false)));
    svc.set_candidates(list(2), &mut sink);
    assert!(svc.in_session());
    svc.set_candidates(Vec::new(), &mut sink);
    assert!(!svc.in_session());
    let _ = State::new();
}

#[test]
fn preedit_push_then_pop_restores() {
    let mut b = PreeditBuffer::new();
    assert_eq!(b.pop(), None);
    for c in ['n', 'i', 'h'] {
        b.push(c);
    }
    let before = b.to_string();
    b.push('a');
    assert_eq!(b.to_string(), "niha".to_string());
    assert_eq!(b.pop(), Some('a'));
    assert_eq!(b.to_string(), before);
    b.clear();
    assert!(b.is_empty());
    assert_eq!(b.to_string(), String::new());
}
