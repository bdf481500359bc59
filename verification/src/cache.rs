//! What a cache adapter makes of the store's answers.
//!
//! An adapter never fails: whatever goes wrong between it and the store
//! comes out as a miss on reading and as `false` on writing.

use vstd::prelude::*;

verus! {

/// How reading a key from the store went.
#[derive(Debug, Clone, PartialEq, Eq)]
pub enum ReadOutcome {
    /// No connection to the store could be opened.
    Unreachable,
    /// The store was asked and gave no text: it holds nothing under the key,
    /// or the lookup failed.
    Failed,
    /// The store holds this text under the key.
    Found(String),
}

/// How writing an entry to the store went.
#[derive(Debug, Clone, Copy, PartialEq, Eq, Structural)]
pub enum WriteOutcome {
    /// No connection to the store could be opened.
    Unreachable,
    /// The store was asked and did not answer with a yes or a no.
    Failed,
    /// The store answered whether it took the entry.
    Answered(bool),
}

/// The mathematical value of a [`ReadOutcome`].
pub enum ReadOutcomeView {
    Unreachable,
    Failed,
    Found(Seq<char>),
}

impl View for ReadOutcome {
    type V = ReadOutcomeView;

    open spec fn view(&self) -> ReadOutcomeView {
        match self {
            ReadOutcome::Unreachable => ReadOutcomeView::Unreachable,
            ReadOutcome::Failed => ReadOutcomeView::Failed,
            ReadOutcome::Found(text) => ReadOutcomeView::Found(text@),
        }
    }
}

/// The entry that a read yields: the text that was found, and a miss in
/// every other case.
pub open spec fn entry_of(outcome: ReadOutcomeView) -> Option<Seq<char>> {
    match outcome {
        ReadOutcomeView::Found(text) => Some(text),
        ReadOutcomeView::Unreachable | ReadOutcomeView::Failed => None,
    }
}

/// Whether a write stored the entry: what the store answered, and `false`
/// in every other case.
pub open spec fn stored_of(outcome: WriteOutcome) -> bool {
    match outcome {
        WriteOutcome::Answered(stored) => stored,
        WriteOutcome::Unreachable | WriteOutcome::Failed => false,
    }
}

impl ReadOutcome {
    /// The entry that the read yields.
    pub fn entry(self) -> (r: Option<String>)
        ensures
            r.deep_view() == entry_of(self@),
    {
        match self {
            ReadOutcome::Found(text) => Some(text),
            ReadOutcome::Unreachable => None,
            ReadOutcome::Failed => None,
        }
    }
}

impl WriteOutcome {
    /// Whether the write stored the entry.
    pub fn stored(self) -> (r: bool)
        ensures
            r == stored_of(self),
    {
        match self {
            WriteOutcome::Answered(stored) => stored,
            WriteOutcome::Unreachable => false,
            WriteOutcome::Failed => false,
        }
    }
}

} // verus!
