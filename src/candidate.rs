use vstd::prelude::*;

verus! {

/// A ranked conversion result for a phonetic prefix.
#[derive(Clone, Debug, PartialEq, Eq)]
pub struct Candidate {
    pub word: String,
    pub annotation: String,
    pub matched_len: Option<usize>,
}

impl Candidate {
    /// A candidate with the given word and annotation.
    pub fn new(word: String, annotation: String, matched_len: Option<usize>) -> (r: Candidate)
        ensures
            r.word == word,
            r.annotation == annotation,
            r.matched_len == matched_len,
    {
        Candidate { word, annotation, matched_len }
    }
}

} // verus!
