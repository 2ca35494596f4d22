//! The three states of a page: loading, selecting, reading.

use vstd::prelude::*;
use crate::actions::{Actions, ActionsView, KeyOutcome, KeyOutcomeView, PageError};
use crate::events::{Events, EventsView};
use crate::history::{restored, EntryView, History};
use crate::key::KeyEvent;
use crate::loading::{scanning_text, Loading, LoadingView};
use crate::read_novel::{ReadNovel, ReadView};
use crate::select_file::SelectFile;
use crate::select_history::{result_view, SelectHistory};
use crate::select_novel::{SelectNovel, SelectView};

verus! {

/// A page in one of its three states.
#[derive(Debug)]
pub enum Mode {
    Loading(Loading),
    Select(SelectNovel),
    Read(ReadNovel),
}

/// A page, by what its rules read.
pub enum ModeView {
    Loading(LoadingView),
    Select(SelectView),
    Read(ReadView),
}

impl View for Mode {
    type V = ModeView;

    open spec fn view(&self) -> ModeView {
        match self {
            Mode::Loading(page) => ModeView::Loading(page@),
            Mode::Select(page) => ModeView::Select(page@),
            Mode::Read(page) => ModeView::Read(page@),
        }
    }
}

/// The page, the history and the answer after a key.
pub struct KeyStep {
    pub page: ModeView,
    pub history: Seq<EntryView>,
    pub result: Result<KeyOutcomeView, PageError>,
}

/// The page, the history and the request after an event.
pub struct ModeStep {
    pub page: ModeView,
    pub history: Seq<EntryView>,
    pub result: Result<Option<ActionsView>, PageError>,
}

/// The action that a result of a key asks for, if any.
pub open spec fn requested(result: Result<KeyOutcomeView, PageError>) -> Result<
    Option<ActionsView>,
    PageError,
> {
    match result {
        Ok(KeyOutcomeView::Request(action)) => Ok(Some(action)),
        Ok(_) => Ok(None),
        Err(error) => Err(error),
    }
}

/// The result of an event, by its texts.
pub open spec fn request_view(result: Result<Option<Actions>, PageError>) -> Result<
    Option<ActionsView>,
    PageError,
> {
    match result {
        Ok(Some(action)) => Ok(Some(action@)),
        Ok(None) => Ok(None),
        Err(error) => Err(error),
    }
}

impl ModeView {
    /// The state in which every session starts: loading, while the startup
    /// path is scanned.
    pub open spec fn initial() -> ModeView {
        ModeView::Loading(LoadingView::start(scanning_text()))
    }

    /// What a key does: a loading page has no use for keys, the other two
    /// pages have their own rules.
    pub open spec fn on_key(self, history: Seq<EntryView>, key: KeyEvent) -> KeyStep {
        match self {
            ModeView::Loading(_) => KeyStep {
                page: self,
                history,
                result: Ok(KeyOutcomeView::Unhandled(key)),
            },
            ModeView::Select(page) => {
                let step = page.on_key(history, key);
                KeyStep {
                    page: ModeView::Select(step.page),
                    history: step.history,
                    result: step.result,
                }
            },
            ModeView::Read(_) => KeyStep { page: self, history, result: Ok(ReadView::key_outcome(key)) },
        }
    }

    /// The event leaves the page as it is and asks for `request`.
    pub open spec fn stay(self, history: Seq<EntryView>, request: Option<ActionsView>) -> ModeStep {
        ModeStep { page: self, history, result: Ok(request) }
    }

    /// The event puts `page` in the place of this one.
    pub open spec fn become_page(history: Seq<EntryView>, page: ModeView) -> ModeStep {
        ModeStep { page, history, result: Ok(None) }
    }

    /// What an event does to the page and to the history.
    ///
    /// The startup path is to be scanned. A loading message, a loaded novel
    /// and the result of a scan each put their page in the place of this one;
    /// the entries that came with the scan become the history. A tick moves
    /// the animation of a loading page and nothing else. A key goes to the
    /// page's own rules. No other event concerns a page.
    pub open spec fn on_event(self, history: Seq<EntryView>, event: EventsView) -> ModeStep {
        match event {
            EventsView::Init(path) => self.stay(history, Some(ActionsView::Scan(path))),
            EventsView::Loading(message) => Self::become_page(
                history,
                ModeView::Loading(LoadingView::start(message)),
            ),
            EventsView::ReadNovel(novel) => Self::become_page(
                history,
                ModeView::Read(ReadView::opening(novel)),
            ),
            EventsView::SelectNovel(files, entries) => Self::become_page(
                restored(entries),
                ModeView::Select(SelectView::listing(files)),
            ),
            EventsView::Tick => match self {
                ModeView::Loading(page) => Self::become_page(history, ModeView::Loading(page.ticked())),
                _ => self.stay(history, None),
            },
            EventsView::KeyEvent(key) => {
                let step = self.on_key(history, key);
                ModeStep { page: step.page, history: step.history, result: requested(step.result) }
            },
            _ => self.stay(history, None),
        }
    }
}

impl Default for Mode {
    fn default() -> (mode: Mode)
        ensures
            mode@ == ModeView::initial(),
    {
        Mode::Loading(Loading::scanning())
    }
}

impl Mode {
    /// Hands a key to the page, with the session's history at hand.
    pub fn handle_term_events(&mut self, key: KeyEvent, history: &mut History) -> (result: Result<
        KeyOutcome,
        PageError,
    >)
        requires
            old(history).wf(),
        ensures
            final(history).wf(),
            ({
                let step = old(self)@.on_key(old(history)@, key);
                &&& final(self)@ == step.page
                &&& final(history)@ == step.history
                &&& result_view(result) == step.result
            }),
    {
        match self {
            Mode::Loading(_) => Ok(KeyOutcome::Unhandled(key)),
            Mode::Select(page) => page.handle_term_events(key, history),
            Mode::Read(page) => Ok(page.handle_key_event(key)),
        }
    }

    /// Hands an event to the page, with the session's history at hand, and
    /// returns what the page asks of the session.
    pub fn handle_events(&mut self, events: Events, history: &mut History) -> (result: Result<
        Option<Actions>,
        PageError,
    >)
        requires
            old(history).wf(),
        ensures
            final(history).wf(),
            ({
                let step = old(self)@.on_event(old(history)@, events@);
                &&& final(self)@ == step.page
                &&& final(history)@ == step.history
                &&& request_view(result) == step.result
            }),
    {
        match events {
            Events::Init(path) => Ok(Some(Actions::Scan(path))),
            Events::Loading(message) => {
                *self = Mode::Loading(Loading::new(message));
                Ok(None)
            },
            Events::ReadNovel(novel) => {
                *self = Mode::Read(ReadNovel::new(novel));
                Ok(None)
            },
            Events::SelectNovel(files, entries) => {
                *history = History::from_entries(entries);
                *self = Mode::Select(SelectNovel::new(SelectFile::new(files), SelectHistory::new()));
                Ok(None)
            },
            Events::Tick => {
                match self {
                    Mode::Loading(page) => {
                        page.state.calc_next();
                    },
                    _ => {},
                }
                Ok(None)
            },
            Events::KeyEvent(key) => match self.handle_term_events(key, history) {
                Ok(KeyOutcome::Request(action)) => Ok(Some(action)),
                Ok(_) => Ok(None),
                Err(error) => Err(error),
            },
            _ => Ok(None),
        }
    }
}

} // verus!
