//! The page on which a novel is read.

use vstd::prelude::*;
use crate::actions::{Actions, ActionsView, KeyOutcome, KeyOutcomeView};
use crate::key::{KeyCode, KeyEvent};

verus! {

/// A novel that was loaded: where it came from, what it is called, and how
/// many chapters it has. The text itself stays with whoever draws it.
#[derive(Debug, PartialEq, Eq)]
pub struct TxtNovel {
    pub path: String,
    pub title: String,
    pub chapters: usize,
}

/// A novel, by its texts.
pub struct NovelView {
    pub path: Seq<char>,
    pub title: Seq<char>,
    pub chapters: nat,
}

impl View for TxtNovel {
    type V = NovelView;

    open spec fn view(&self) -> NovelView {
        NovelView { path: self.path@, title: self.title@, chapters: self.chapters as nat }
    }
}

/// The reading page: a novel, the chapter that is open, and whether this
/// reading stands in the history yet.
#[derive(Debug, PartialEq, Eq)]
pub struct ReadNovel {
    pub novel: TxtNovel,
    pub position: usize,
    pub recorded: bool,
}

/// The reading page, by its texts.
pub struct ReadView {
    pub novel: NovelView,
    pub position: nat,
    pub recorded: bool,
}

impl View for ReadNovel {
    type V = ReadView;

    open spec fn view(&self) -> ReadView {
        ReadView { novel: self.novel@, position: self.position as nat, recorded: self.recorded }
    }
}

impl ReadView {
    /// The page that opens `novel` at its first chapter. The reading is yet
    /// to be recorded.
    pub open spec fn opening(novel: NovelView) -> ReadView {
        ReadView { novel, position: 0, recorded: false }
    }

    /// The page once its reading stands in the history.
    pub open spec fn noted(self) -> ReadView {
        ReadView { novel: self.novel, position: self.position, recorded: true }
    }

    /// What the page answers to a key: Escape leaves the page, and the page
    /// has no use for any other key.
    pub open spec fn key_outcome(key: KeyEvent) -> KeyOutcomeView {
        if key.dismisses() {
            KeyOutcomeView::Request(ActionsView::Back)
        } else {
            KeyOutcomeView::Unhandled(key)
        }
    }
}

impl ReadNovel {
    /// The page that opens `novel` at its first chapter.
    pub fn new(novel: TxtNovel) -> (page: ReadNovel)
        ensures
            page@ == ReadView::opening(novel@),
    {
        ReadNovel { novel, position: 0, recorded: false }
    }

    /// Handles a key. The page itself never changes.
    pub fn handle_key_event(&self, key: KeyEvent) -> (outcome: KeyOutcome)
        ensures
            outcome@ == ReadView::key_outcome(key),
    {
        if key.is_dismiss() {
            KeyOutcome::Request(Actions::Back)
        } else {
            KeyOutcome::Unhandled(key)
        }
    }
}

} // verus!
