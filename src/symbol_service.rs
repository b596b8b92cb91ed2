use vstd::prelude::*;

use crate::keys::{full_width_of, is_punctuation};
use crate::mode_switcher::KeyContent;
use crate::sink::{Outbox, SinkEvent};

verus! {

/// Commits punctuation keys as their full-width glyphs.
pub struct SymbolService {}

impl SymbolService {
    pub fn new() -> (r: SymbolService) {
        SymbolService {  }
    }

    /// Commits the full-width glyph of a punctuation key press; a release
    /// commits nothing.
    pub fn handle_symbol(&self, key_content: KeyContent, sink: &mut Outbox)
        requires
            is_punctuation(key_content.key),
        ensures
            key_content.flags.is_release ==> final(sink)@ == old(sink)@,
            !key_content.flags.is_release ==> final(sink)@ == old(sink)@.push(
                SinkEvent::Commit(full_width_of(key_content.key)),
            ),
    {
        if key_content.flags.is_release {
            return ;
        }
        match key_content.key.to_full_width_string() {
            Some(glyph) => sink.commit_text(glyph),
            None => {},
        }
    }
}

} // verus!
