//! The fragment of source text that a generator produces.

use vstd::prelude::*;

verus! {

/// A fragment of emittable source text, produced by one generator call.
#[derive(Debug, PartialEq, Eq)]
pub struct GeneratedArtifact {
    text: String,
}

impl View for GeneratedArtifact {
    type V = Seq<char>;

    closed spec fn view(&self) -> Seq<char> {
        self.text@
    }
}

impl GeneratedArtifact {
    /// Wraps finished source text.
    pub(crate) fn new(text: String) -> (r: GeneratedArtifact)
        ensures
            r@ == text@,
    {
        GeneratedArtifact { text }
    }

    /// The source text.
    pub fn as_str(&self) -> (r: &str)
        ensures
            r@ == self@,
    {
        self.text.as_str()
    }

    /// Hands the source text over.
    pub fn into_text(self) -> (r: String)
        ensures
            r@ == self@,
    {
        self.text
    }
}

} // verus!
