//! The events that the session processes, one at a time.

use vstd::prelude::*;
use crate::actions::{Route, RouteView};
use crate::history::{entry_views, EntryView, HistoryItem};
use crate::loading::loading_text;
use crate::key::KeyEvent;
use crate::read_novel::{NovelView, TxtNovel};
use crate::select_file::texts;

verus! {

/// An event on the bus.
#[derive(Debug)]
pub enum Events {
    /// The session starts on this path.
    Init(String),
    /// The ticker fired.
    Tick,
    /// It is time to draw.
    Render,
    /// The terminal changed its size to so many columns and rows.
    Resize(u16, u16),
    /// A key event from the terminal.
    KeyEvent(KeyEvent),
    /// Something failed that no page waits for: a page could not be drawn,
    /// the terminal could not be read, the history could not be written.
    Error(String),
    /// The background work that a loading page waits for failed.
    LoadFailed(String),
    /// Background work began: show a loading page with this message.
    Loading(String),
    /// A novel was loaded: read it.
    ReadNovel(TxtNovel),
    /// A path was scanned: these files were found, and the history file held
    /// these entries.
    SelectNovel(Vec<String>, Vec<(String, HistoryItem)>),
    /// Build this page and put it on top.
    PushRoute(Route),
}

/// An event, by its texts.
pub enum EventsView {
    Init(Seq<char>),
    Tick,
    Render,
    Resize(u16, u16),
    KeyEvent(KeyEvent),
    Error(Seq<char>),
    LoadFailed(Seq<char>),
    Loading(Seq<char>),
    ReadNovel(NovelView),
    SelectNovel(Seq<Seq<char>>, Seq<EntryView>),
    PushRoute(RouteView),
}

impl View for Events {
    type V = EventsView;

    open spec fn view(&self) -> EventsView {
        match self {
            Events::Init(path) => EventsView::Init(path@),
            Events::Tick => EventsView::Tick,
            Events::Render => EventsView::Render,
            Events::Resize(columns, rows) => EventsView::Resize(*columns, *rows),
            Events::KeyEvent(key) => EventsView::KeyEvent(*key),
            Events::Error(message) => EventsView::Error(message@),
            Events::LoadFailed(message) => EventsView::LoadFailed(message@),
            Events::Loading(message) => EventsView::Loading(message@),
            Events::ReadNovel(novel) => EventsView::ReadNovel(novel@),
            Events::SelectNovel(files, entries) => EventsView::SelectNovel(
                texts(files@),
                entry_views(entries@),
            ),
            Events::PushRoute(route) => EventsView::PushRoute(route@),
        }
    }
}

/// What a scan of the startup path found.
#[derive(Debug, PartialEq, Eq)]
pub enum NovelFiles {
    /// One file: it is read at once.
    File(String),
    /// Any other number of files: the reader chooses.
    FileTree(Vec<String>),
}

/// The result of a scan, by its texts.
pub enum NovelFilesView {
    File(Seq<char>),
    FileTree(Seq<Seq<char>>),
}

impl View for NovelFiles {
    type V = NovelFilesView;

    open spec fn view(&self) -> NovelFilesView {
        match self {
            NovelFiles::File(path) => NovelFilesView::File(path@),
            NovelFiles::FileTree(files) => NovelFilesView::FileTree(texts(files@)),
        }
    }
}

/// What a loader does after a scan.
#[derive(Debug)]
pub enum AfterScan {
    /// Load the file at this path: the scan found it alone.
    Load(String),
    /// Emit this event: it offers the files for selection.
    Offer(Events),
}

/// What follows a scan, by its texts.
pub enum AfterScanView {
    Load(Seq<char>),
    Offer(EventsView),
}

impl View for AfterScan {
    type V = AfterScanView;

    open spec fn view(&self) -> AfterScanView {
        match self {
            AfterScan::Load(path) => AfterScanView::Load(path@),
            AfterScan::Offer(event) => AfterScanView::Offer(event@),
        }
    }
}

/// The event with which a loader says that it begins to load a novel.
pub fn loading_started() -> (event: Events)
    ensures
        event@ == EventsView::Loading(loading_text()),
{
    Events::Loading("正在加载小说...".to_owned())
}

/// The event with which a loader hands over the novel that it loaded.
pub fn novel_loaded(novel: TxtNovel) -> (event: Events)
    ensures
        event@ == EventsView::ReadNovel(novel@),
{
    Events::ReadNovel(novel)
}

/// The event with which a loader says that its work failed.
pub fn load_failed(message: String) -> (event: Events)
    ensures
        event@ == EventsView::LoadFailed(message@),
{
    Events::LoadFailed(message)
}

impl NovelFiles {
    /// What a loader does with the result of a scan: a single file is
    /// loaded at once, and a list of files is offered for selection, together
    /// with the entries that the history file held.
    pub fn after_scan(self, entries: Vec<(String, HistoryItem)>) -> (next: AfterScan)
        ensures
            next@ == (match self@ {
                NovelFilesView::File(path) => AfterScanView::Load(path),
                NovelFilesView::FileTree(files) => AfterScanView::Offer(
                    EventsView::SelectNovel(files, entry_views(entries@)),
                ),
            }),
    {
        match self {
            NovelFiles::File(path) => AfterScan::Load(path),
            NovelFiles::FileTree(files) => AfterScan::Offer(Events::SelectNovel(files, entries)),
        }
    }

    /// Sorts out the files that a scan found: a single file stands for
    /// itself, any other number is a list to choose from.
    pub fn from_candidates(files: Vec<String>) -> (found: NovelFiles)
        ensures
            found@ == (if files@.len() == 1 {
                NovelFilesView::File(files@[0]@)
            } else {
                NovelFilesView::FileTree(texts(files@))
            }),
    {
        let mut files = files;
        if files.len() == 1 {
            let path = files.pop();
            NovelFiles::File(path.unwrap())
        } else {
            NovelFiles::FileTree(files)
        }
    }
}

} // verus!
