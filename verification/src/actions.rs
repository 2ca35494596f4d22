//! What pages ask of the session, and what the session asks of the world
//! around it.

use vstd::prelude::*;
use crate::key::KeyEvent;

verus! {

/// A page to be built and put on the stack.
#[derive(Debug, PartialEq, Eq)]
pub enum Route {
    /// The selection page for the files found under a path. Building it takes
    /// a scan of the path.
    SelectNovel(String),
    /// The reading page for the local file under a history key. Building it
    /// takes loading the file.
    ReadNovel(String),
    /// The reading page for the network book under a history key. Building it
    /// takes finding the book's source and fetching the book.
    BookDetail(String),
    /// The selection page that shows the history alone. It is built on the
    /// spot.
    SelectHistory,
}

/// A route, by its texts.
pub enum RouteView {
    SelectNovel(Seq<char>),
    ReadNovel(Seq<char>),
    BookDetail(Seq<char>),
    SelectHistory,
}

impl View for Route {
    type V = RouteView;

    open spec fn view(&self) -> RouteView {
        match self {
            Route::SelectNovel(path) => RouteView::SelectNovel(path@),
            Route::ReadNovel(key) => RouteView::ReadNovel(key@),
            Route::BookDetail(key) => RouteView::BookDetail(key@),
            Route::SelectHistory => RouteView::SelectHistory,
        }
    }
}

/// What a page asks of the session after an event.
#[derive(Debug, PartialEq, Eq)]
pub enum Actions {
    /// Scan this path for files to read.
    Scan(String),
    /// Load the file at this path and read it.
    SelectedFile(String),
    /// Build this page and put it on top.
    Push(Route),
    /// Leave this page.
    Back,
    /// The history changed: write it out.
    SaveHistory,
}

/// An action, by its texts.
pub enum ActionsView {
    Scan(Seq<char>),
    SelectedFile(Seq<char>),
    Push(RouteView),
    Back,
    SaveHistory,
}

impl View for Actions {
    type V = ActionsView;

    open spec fn view(&self) -> ActionsView {
        match self {
            Actions::Scan(path) => ActionsView::Scan(path@),
            Actions::SelectedFile(path) => ActionsView::SelectedFile(path@),
            Actions::Push(route) => ActionsView::Push(route@),
            Actions::Back => ActionsView::Back,
            Actions::SaveHistory => ActionsView::SaveHistory,
        }
    }
}

/// What became of a key that was handed to a page.
#[derive(Debug, PartialEq, Eq)]
pub enum KeyOutcome {
    /// The page has no use for the key and hands it back.
    Unhandled(KeyEvent),
    /// The page took the key.
    Consumed,
    /// The page took the key and asks for an action.
    Request(Actions),
}

/// The outcome of a key, by its texts.
pub enum KeyOutcomeView {
    Unhandled(KeyEvent),
    Consumed,
    Request(ActionsView),
}

impl View for KeyOutcome {
    type V = KeyOutcomeView;

    open spec fn view(&self) -> KeyOutcomeView {
        match self {
            KeyOutcome::Unhandled(key) => KeyOutcomeView::Unhandled(*key),
            KeyOutcome::Consumed => KeyOutcomeView::Consumed,
            KeyOutcome::Request(action) => KeyOutcomeView::Request(action@),
        }
    }
}

/// Why a page could not do what a key asked for. The session shows the
/// message as a warning and goes on.
#[derive(Clone, Copy, Debug, PartialEq, Eq, Structural)]
pub enum PageError {
    /// A key that works on the selected history entry came with none selected.
    NoHistorySelected,
    /// A key that works on the selected file came with none selected.
    NoFileSelected,
}

impl PageError {
    /// The text of the warning.
    pub open spec fn text(self) -> Seq<char> {
        match self {
            PageError::NoHistorySelected => "请选择历史记录"@,
            PageError::NoFileSelected => "请选择文件"@,
        }
    }

    pub fn message(&self) -> (text: String)
        ensures
            text@ == self.text(),
    {
        match self {
            PageError::NoHistorySelected => "请选择历史记录".to_owned(),
            PageError::NoFileSelected => "请选择文件".to_owned(),
        }
    }
}

/// What the session asks of the world around it after a step. The session
/// performs none of these itself.
#[derive(Debug, PartialEq, Eq)]
pub enum Effect {
    /// Fire the cancellation signal: every source of events stops.
    Cancel,
    /// Draw the top page, and the warning over it if there is one.
    Draw,
    /// Scan this path in the background and report what was found.
    Scan(String),
    /// Load the file at this path in the background and report the novel.
    LoadNovel(String),
    /// Fetch the network book under this history key in the background and
    /// report the novel.
    OpenBook(String),
    /// Write the history out.
    SaveHistory,
}

/// An effect, by its texts.
pub enum EffectView {
    Cancel,
    Draw,
    Scan(Seq<char>),
    LoadNovel(Seq<char>),
    OpenBook(Seq<char>),
    SaveHistory,
}

impl View for Effect {
    type V = EffectView;

    open spec fn view(&self) -> EffectView {
        match self {
            Effect::Cancel => EffectView::Cancel,
            Effect::Draw => EffectView::Draw,
            Effect::Scan(path) => EffectView::Scan(path@),
            Effect::LoadNovel(path) => EffectView::LoadNovel(path@),
            Effect::OpenBook(key) => EffectView::OpenBook(key@),
            Effect::SaveHistory => EffectView::SaveHistory,
        }
    }
}

} // verus!
