use vstd::prelude::*;

use crate::keys::{digit_value, is_digit};
use crate::mode_switcher::KeyContent;
use crate::sink::{Outbox, SinkEvent};
use crate::text::push_char;

verus! {

/// The decimal character of a digit value.
pub open spec fn decimal_char(d: nat) -> char {
    if d == 0 {
        '0'
    } else if d == 1 {
        '1'
    } else if d == 2 {
        '2'
    } else if d == 3 {
        '3'
    } else if d == 4 {
        '4'
    } else if d == 5 {
        '5'
    } else if d == 6 {
        '6'
    } else if d == 7 {
        '7'
    } else if d == 8 {
        '8'
    } else {
        '9'
    }
}

/// The text that a digit key commits outside a session.
pub open spec fn digit_text(k: KeyContent) -> Seq<char> {
    seq![decimal_char(digit_value(k.key))]
}

/// Commits digit keys as literal decimal text.
pub struct NumberService {}

impl NumberService {
    pub fn new() -> (r: NumberService) {
        NumberService {  }
    }

    /// Commits the decimal character of a digit key.
    pub fn handle_number(&self, key_content: KeyContent, sink: &mut Outbox)
        requires
            is_digit(key_content.key),
        ensures
            final(sink)@ == old(sink)@.push(SinkEvent::Commit(digit_text(key_content))),
    {
        let n = match key_content.key.to_usize() {
            Some(n) => n,
            None => 0,
        };
        let c = match n {
            0 => '0',
            1 => '1',
            2 => '2',
            3 => '3',
            4 => '4',
            5 => '5',
            6 => '6',
            7 => '7',
            8 => '8',
            _ => '9',
        };
        let mut text = String::new();
        push_char(&mut text, c);
        assert(text@ =~= digit_text(key_content));
        sink.commit_text(text);
    }
}

} // verus!
