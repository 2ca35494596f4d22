//! The page that lists the files found under the startup path.

use vstd::prelude::*;
use tui_widget_list::ListState;
use crate::actions::{Actions, ActionsView, KeyOutcome, KeyOutcomeView, PageError};
use crate::cursor::{cursor_view, CursorView};
use crate::key::{KeyCode, KeyEvent, KeyEventKind};

verus! {

/// A list of texts, each by its characters.
pub open spec fn texts(list: Seq<String>) -> Seq<Seq<char>> {
    list.map_values(|s: String| s@)
}

/// The file page: the candidate files and the cursor of their list.
#[derive(Debug)]
pub struct SelectFile {
    pub files: Vec<String>,
    pub state: ListState,
}

/// The file page, by what its rules read.
pub struct FilePageView {
    pub files: Seq<Seq<char>>,
    pub cursor: CursorView,
}

impl View for SelectFile {
    type V = FilePageView;

    open spec fn view(&self) -> FilePageView {
        FilePageView { files: texts(self.files@), cursor: cursor_view(self.state) }
    }
}

/// The page and the answer after a key.
pub struct FileStep {
    pub page: FilePageView,
    pub result: Result<KeyOutcomeView, PageError>,
}

impl FilePageView {
    /// The page as it is first shown: nothing selected.
    pub open spec fn listing(files: Seq<Seq<char>>) -> FilePageView {
        FilePageView { files, cursor: CursorView::fresh() }
    }

    /// The key changes nothing and is answered with `result`.
    pub open spec fn stay(self, result: Result<KeyOutcomeView, PageError>) -> FileStep {
        FileStep { page: self, result }
    }

    /// The key moves the cursor and is taken.
    pub open spec fn move_to(self, cursor: CursorView) -> FileStep {
        FileStep {
            page: FilePageView { files: self.files, cursor },
            result: Ok(KeyOutcomeView::Consumed),
        }
    }

    /// What a key does to the page. Only key presses count. `j` and `k` and
    /// the arrows move the cursor, `h` drops the selection, and Enter asks
    /// for the selected file to be loaded.
    pub open spec fn on_key(self, key: KeyEvent) -> FileStep {
        if key.kind != KeyEventKind::Press {
            self.stay(Ok(KeyOutcomeView::Unhandled(key)))
        } else {
            match key.code {
                KeyCode::Char('h') | KeyCode::Left => self.move_to(self.cursor.at(None)),
                KeyCode::Char('j') | KeyCode::Down => self.move_to(self.cursor.down()),
                KeyCode::Char('k') | KeyCode::Up => self.move_to(self.cursor.up()),
                KeyCode::Char('l') | KeyCode::Right | KeyCode::Enter => match self.cursor.selected {
                    Some(index) if index < self.files.len() => self.stay(
                        Ok(
                            KeyOutcomeView::Request(
                                ActionsView::SelectedFile(self.files[index as int]),
                            ),
                        ),
                    ),
                    _ => self.stay(Err(PageError::NoFileSelected)),
                },
                _ => self.stay(Ok(KeyOutcomeView::Unhandled(key))),
            }
        }
    }
}

impl SelectFile {
    /// The page that lists `files`, with nothing selected.
    pub fn new(files: Vec<String>) -> (page: SelectFile)
        ensures
            page@ == FilePageView::listing(texts(files@)),
    {
        SelectFile { files, state: crate::cursor::fresh() }
    }

    /// Handles a key.
    pub fn handle_key_event(&mut self, key: KeyEvent) -> (result: Result<KeyOutcome, PageError>)
        ensures
            ({
                let step = old(self)@.on_key(key);
                &&& final(self)@ == step.page
                &&& crate::select_history::result_view(result) == step.result
            }),
    {
        if !key.is_press() {
            return Ok(KeyOutcome::Unhandled(key));
        }
        match key.code {
            KeyCode::Char('h') | KeyCode::Left => {
                crate::cursor::select(&mut self.state, None);
                Ok(KeyOutcome::Consumed)
            },
            KeyCode::Char('j') | KeyCode::Down => {
                crate::cursor::next(&mut self.state);
                Ok(KeyOutcome::Consumed)
            },
            KeyCode::Char('k') | KeyCode::Up => {
                crate::cursor::previous(&mut self.state);
                Ok(KeyOutcome::Consumed)
            },
            KeyCode::Char('l') | KeyCode::Right | KeyCode::Enter => {
                match crate::cursor::selected(&self.state) {
                    Some(index) => {
                        if index < self.files.len() {
                            let path = self.files[index].clone();
                            Ok(KeyOutcome::Request(Actions::SelectedFile(path)))
                        } else {
                            Err(PageError::NoFileSelected)
                        }
                    },
                    None => Err(PageError::NoFileSelected),
                }
            },
            _ => Ok(KeyOutcome::Unhandled(key)),
        }
    }
}

} // verus!
