//! The selection page: the files that were found, beside the history.
//!
//! One of the two lists has the focus and receives the keys; Tab moves the
//! focus. The confirmation dialog of the history list, while it is on
//! screen, comes before both.

use vstd::prelude::*;
use crate::actions::{KeyOutcome, KeyOutcomeView, PageError};
use crate::history::{EntryView, History};
use crate::key::{KeyCode, KeyEvent, KeyEventKind};
use crate::select_file::{FilePageView, SelectFile};
use crate::select_history::{result_view, HistoryPageView, SelectHistory};

verus! {

/// The list that receives the keys.
#[derive(Clone, Copy, Debug, PartialEq, Eq, Structural)]
pub enum Focus {
    Files,
    History,
}

impl Focus {
    /// The other list.
    pub open spec fn other(self) -> Focus {
        match self {
            Focus::Files => Focus::History,
            Focus::History => Focus::Files,
        }
    }
}

/// The selection page.
#[derive(Debug)]
pub struct SelectNovel {
    pub files: SelectFile,
    pub history: SelectHistory,
    pub focus: Focus,
}

/// The selection page, by what its rules read.
pub struct SelectView {
    pub files: FilePageView,
    pub history: HistoryPageView,
    pub focus: Focus,
}

impl View for SelectNovel {
    type V = SelectView;

    open spec fn view(&self) -> SelectView {
        SelectView { files: self.files@, history: self.history@, focus: self.focus }
    }
}

/// The page, the history and the answer after a key.
pub struct SelectStep {
    pub page: SelectView,
    pub history: Seq<EntryView>,
    pub result: Result<KeyOutcomeView, PageError>,
}

impl SelectView {
    /// The page as it is first shown for `files`: both lists at rest, the
    /// focus on the files.
    pub open spec fn listing(files: Seq<Seq<char>>) -> SelectView {
        SelectView {
            files: FilePageView::listing(files),
            history: HistoryPageView::fresh(),
            focus: Focus::Files,
        }
    }

    /// The page that shows the history alone: no files, the focus on the
    /// history.
    pub open spec fn history_only() -> SelectView {
        SelectView {
            files: FilePageView::listing(Seq::empty()),
            history: HistoryPageView::fresh(),
            focus: Focus::History,
        }
    }

    /// The key goes to the history list.
    pub open spec fn to_history(self, history: Seq<EntryView>, key: KeyEvent) -> SelectStep {
        let step = self.history.on_key(history, key);
        SelectStep {
            page: SelectView { files: self.files, history: step.page, focus: self.focus },
            history: step.history,
            result: step.result,
        }
    }

    /// The key goes to the file list.
    pub open spec fn to_files(self, history: Seq<EntryView>, key: KeyEvent) -> SelectStep {
        let step = self.files.on_key(key);
        SelectStep {
            page: SelectView { files: step.page, history: self.history, focus: self.focus },
            history,
            result: step.result,
        }
    }

    /// What a key does to the page and to the history. A visible dialog takes
    /// the key first. Otherwise a press of Tab moves the focus, and any other
    /// key goes to the list that has the focus.
    pub open spec fn on_key(self, history: Seq<EntryView>, key: KeyEvent) -> SelectStep {
        if self.history.confirm.show {
            self.to_history(history, key)
        } else if key.kind == KeyEventKind::Press && key.code == KeyCode::Tab {
            SelectStep {
                page: SelectView {
                    files: self.files,
                    history: self.history,
                    focus: self.focus.other(),
                },
                history,
                result: Ok(KeyOutcomeView::Consumed),
            }
        } else if self.focus == Focus::Files {
            self.to_files(history, key)
        } else {
            self.to_history(history, key)
        }
    }
}

impl SelectNovel {
    /// The page for the two lists, with the focus on the files.
    pub fn new(files: SelectFile, history: SelectHistory) -> (page: SelectNovel)
        ensures
            page@ == (SelectView { files: files@, history: history@, focus: Focus::Files }),
    {
        SelectNovel { files, history, focus: Focus::Files }
    }

    /// The page that shows the history alone.
    pub fn history_only() -> (page: SelectNovel)
        ensures
            page@ == SelectView::history_only(),
    {
        let files = SelectFile::new(Vec::new());
        assert(files@.files =~= Seq::<Seq<char>>::empty());
        SelectNovel { files, history: SelectHistory::new(), focus: Focus::History }
    }

    /// Handles a key, with the session's history at hand.
    pub fn handle_term_events(&mut self, key: KeyEvent, history: &mut History) -> (result: Result<
        KeyOutcome,
        PageError,
    >)
        requires
            old(history).wf(),
        ensures
            final(history).wf(),
            ({
                let step = old(self)@.on_key(old(history)@, key);
                &&& final(self)@ == step.page
                &&& final(history)@ == step.history
                &&& result_view(result) == step.result
            }),
    {
        if self.history.confirm_state.show {
            self.history.handle_key_event(key, history)
        } else if key.is_press() && key.code == KeyCode::Tab {
            self.focus = match self.focus {
                Focus::Files => Focus::History,
                Focus::History => Focus::Files,
            };
            Ok(KeyOutcome::Consumed)
        } else if self.focus == Focus::Files {
            self.files.handle_key_event(key)
        } else {
            self.history.handle_key_event(key, history)
        }
    }
}

} // verus!
