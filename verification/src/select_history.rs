//! The page that lists the reading history.
//!
//! An entry is opened with Enter and deleted with `d`, after a confirmation.
//! While the confirmation is on screen it takes every key press.

use vstd::prelude::*;
use tui_widget_list::ListState;
use crate::actions::{Actions, ActionsView, KeyOutcome, KeyOutcomeView, PageError, Route, RouteView};
use crate::confirm::{Choice, ConfirmState};
use crate::cursor::{cursor_view, CursorView};
use crate::history::{removed, EntryView, History};
use crate::key::{KeyCode, KeyEvent, KeyEventKind};

verus! {

/// The history page: the cursor of its list and its confirmation dialog. The
/// history itself belongs to the session, which lends it to the page with
/// each key.
#[derive(Debug)]
pub struct SelectHistory {
    pub state: ListState,
    pub confirm_state: ConfirmState,
}

/// The history page, by what its rules read.
pub struct HistoryPageView {
    pub cursor: CursorView,
    pub confirm: ConfirmState,
}

impl View for SelectHistory {
    type V = HistoryPageView;

    open spec fn view(&self) -> HistoryPageView {
        HistoryPageView { cursor: cursor_view(self.state), confirm: self.confirm_state }
    }
}

/// The result of a key, by its texts.
pub open spec fn result_view(result: Result<KeyOutcome, PageError>) -> Result<
    KeyOutcomeView,
    PageError,
> {
    match result {
        Ok(outcome) => Ok(outcome@),
        Err(error) => Err(error),
    }
}

/// The page, the history and the answer after a key.
pub struct HistoryStep {
    pub page: HistoryPageView,
    pub history: Seq<EntryView>,
    pub result: Result<KeyOutcomeView, PageError>,
}

/// The route that opens an entry: the reading page for a local file, the
/// book page for a book on the network.
pub open spec fn opening_route(entry: EntryView) -> RouteView {
    if entry.1.book_source.is_none() {
        RouteView::ReadNovel(entry.0)
    } else {
        RouteView::BookDetail(entry.0)
    }
}

impl HistoryPageView {
    /// The page as it is first shown.
    pub open spec fn fresh() -> HistoryPageView {
        HistoryPageView { cursor: CursorView::fresh(), confirm: ConfirmState::hidden() }
    }

    /// The key changes nothing and is answered with `result`.
    pub open spec fn stay(
        self,
        history: Seq<EntryView>,
        result: Result<KeyOutcomeView, PageError>,
    ) -> HistoryStep {
        HistoryStep { page: self, history, result }
    }

    /// The key moves the cursor and is taken.
    pub open spec fn move_to(self, history: Seq<EntryView>, cursor: CursorView) -> HistoryStep {
        HistoryStep {
            page: HistoryPageView { cursor, confirm: self.confirm },
            history,
            result: Ok(KeyOutcomeView::Consumed),
        }
    }

    /// The key changes the dialog and is taken.
    pub open spec fn answer(self, history: Seq<EntryView>, confirm: ConfirmState) -> HistoryStep {
        HistoryStep {
            page: HistoryPageView { cursor: self.cursor, confirm },
            history,
            result: Ok(KeyOutcomeView::Consumed),
        }
    }

    /// The dialog closes with the answer `yes`. On "yes" the selected entry
    /// is deleted, the selection is dropped and the history is to be written
    /// out. On "no", or with no entry under the cursor, nothing is deleted.
    pub open spec fn resolve(self, history: Seq<EntryView>, yes: bool) -> HistoryStep {
        match self.cursor.selected {
            Some(index) if yes && index < history.len() => HistoryStep {
                page: HistoryPageView {
                    cursor: self.cursor.at(None),
                    confirm: ConfirmState::hidden(),
                },
                history: removed(history, index as int),
                result: Ok(KeyOutcomeView::Request(ActionsView::SaveHistory)),
            },
            _ => self.answer(history, ConfirmState::hidden()),
        }
    }

    /// A key press while the dialog is on screen: `y` answers "yes", `n`
    /// answers "no", Enter gives the highlighted answer, the arrows and `h`,
    /// `l` move the highlight. Every other key is taken too, and does
    /// nothing: until the dialog is resolved no key gets past it.
    pub open spec fn on_key_confirming(self, history: Seq<EntryView>, key: KeyEvent) -> HistoryStep {
        match key.code {
            KeyCode::Char('y') => self.resolve(history, true),
            KeyCode::Char('n') => self.resolve(history, false),
            KeyCode::Enter => self.resolve(history, self.confirm.choice == Choice::Yes),
            KeyCode::Left | KeyCode::Right | KeyCode::Char('h') | KeyCode::Char('l') => self.answer(
                history,
                self.confirm.toggled(),
            ),
            _ => self.stay(history, Ok(KeyOutcomeView::Consumed)),
        }
    }

    /// A key press while the list is browsed.
    pub open spec fn on_key_browsing(self, history: Seq<EntryView>, key: KeyEvent) -> HistoryStep {
        match key.code {
            KeyCode::Char('h') | KeyCode::Left => self.move_to(history, self.cursor.at(None)),
            KeyCode::Char('j') | KeyCode::Down => self.move_to(history, self.cursor.down()),
            KeyCode::Char('k') | KeyCode::Up => self.move_to(history, self.cursor.up()),
            KeyCode::Char('l') | KeyCode::Right | KeyCode::Enter => match self.cursor.selected {
                Some(index) if index < history.len() => self.stay(
                    history,
                    Ok(
                        KeyOutcomeView::Request(
                            ActionsView::Push(opening_route(history[index as int])),
                        ),
                    ),
                ),
                _ => self.stay(history, Err(PageError::NoHistorySelected)),
            },
            KeyCode::Char('d') => if self.cursor.selected.is_none() {
                self.stay(history, Err(PageError::NoHistorySelected))
            } else {
                self.answer(history, ConfirmState { show: true, choice: self.confirm.choice })
            },
            _ => self.stay(history, Ok(KeyOutcomeView::Unhandled(key))),
        }
    }

    /// What a key does to the page and to the history. Only key presses
    /// count; the dialog, while it is on screen, comes first.
    pub open spec fn on_key(self, history: Seq<EntryView>, key: KeyEvent) -> HistoryStep {
        if key.kind != KeyEventKind::Press {
            self.stay(history, Ok(KeyOutcomeView::Unhandled(key)))
        } else if self.confirm.show {
            self.on_key_confirming(history, key)
        } else {
            self.on_key_browsing(history, key)
        }
    }
}

/// The hints shown while the dialog is on screen.
pub open spec fn confirm_hints() -> Seq<(&'static str, &'static str)> {
    seq![
        ("确认删除", "Y"),
        ("取消删除", "N"),
        ("切换确定/取消", "H / ◄ / L / ► "),
        ("确认选中", "Enter"),
        ("切换到选择文件", "Tab"),
    ]
}

/// The hints shown while the list is browsed.
pub open spec fn browse_hints() -> Seq<(&'static str, &'static str)> {
    seq![
        ("选择下一个", "J / ▼"),
        ("选择上一个", "K / ▲"),
        ("取消选择", "H / ◄"),
        ("确认选择", "L / ► / Enter"),
        ("删除选中的历史记录", "D"),
        ("切换到选择文件", "Tab"),
    ]
}

/// The height of one entry of the list, in rows.
pub const ENTRY_ROWS: usize = 5;

/// What the page shows besides its entries.
#[derive(Clone, Copy, Debug, PartialEq, Eq, Structural)]
pub enum HistoryFrame {
    /// There is no history: a notice stands in place of the list.
    Empty,
    /// The list, the place of the cursor counted from one, the number of
    /// entries, and whether the list is too tall for its area and gets a
    /// scrollbar.
    List { current: usize, total: usize, scrollbar: bool },
}

impl SelectHistory {
    /// The page as it is first shown: nothing selected, no dialog.
    pub fn new() -> (page: SelectHistory)
        ensures
            page@ == HistoryPageView::fresh(),
    {
        SelectHistory { state: crate::cursor::fresh(), confirm_state: ConfirmState::new() }
    }

    /// The route that puts this page on the stack.
    pub fn to_page_route() -> (route: Route)
        ensures
            route@ == RouteView::SelectHistory,
    {
        Route::SelectHistory
    }

    /// Resolves the dialog with the answer `yes`.
    fn resolve(&mut self, history: &mut History, yes: bool) -> (outcome: KeyOutcome)
        requires
            old(history).wf(),
        ensures
            final(history).wf(),
            ({
                let step = old(self)@.resolve(old(history)@, yes);
                &&& final(self)@ == step.page
                &&& final(history)@ == step.history
                &&& Ok::<KeyOutcomeView, PageError>(outcome@) == step.result
            }),
    {
        let selected = crate::cursor::selected(&self.state);
        self.confirm_state.close();
        match selected {
            Some(index) => {
                if yes && index < history.len() {
                    history.remove_index(index);
                    crate::cursor::select(&mut self.state, None);
                    KeyOutcome::Request(Actions::SaveHistory)
                } else {
                    KeyOutcome::Consumed
                }
            },
            None => KeyOutcome::Consumed,
        }
    }

    /// Handles a key, with the session's history at hand.
    pub fn handle_key_event(&mut self, key: KeyEvent, history: &mut History) -> (result: Result<
        KeyOutcome,
        PageError,
    >)
        requires
            old(history).wf(),
        ensures
            final(history).wf(),
            ({
                let step = old(self)@.on_key(old(history)@, key);
                &&& final(self)@ == step.page
                &&& final(history)@ == step.history
                &&& result_view(result) == step.result
            }),
    {
        if !key.is_press() {
            return Ok(KeyOutcome::Unhandled(key));
        }
        if self.confirm_state.show {
            match key.code {
                KeyCode::Char('y') => Ok(self.resolve(history, true)),
                KeyCode::Char('n') => Ok(self.resolve(history, false)),
                KeyCode::Enter => {
                    let yes = self.confirm_state.is_confirm();
                    Ok(self.resolve(history, yes))
                },
                KeyCode::Left | KeyCode::Right | KeyCode::Char('h') | KeyCode::Char('l') => {
                    self.confirm_state.toggle();
                    Ok(KeyOutcome::Consumed)
                },
                _ => Ok(KeyOutcome::Consumed),
            }
        } else {
            match key.code {
                KeyCode::Char('h') | KeyCode::Left => {
                    crate::cursor::select(&mut self.state, None);
                    Ok(KeyOutcome::Consumed)
                },
                KeyCode::Char('j') | KeyCode::Down => {
                    crate::cursor::next(&mut self.state);
                    Ok(KeyOutcome::Consumed)
                },
                KeyCode::Char('k') | KeyCode::Up => {
                    crate::cursor::previous(&mut self.state);
                    Ok(KeyOutcome::Consumed)
                },
                KeyCode::Char('l') | KeyCode::Right | KeyCode::Enter => {
                    let Some(index) = crate::cursor::selected(&self.state) else {
                        return Err(PageError::NoHistorySelected);
                    };
                    let Some(entry) = history.get(index) else {
                        return Err(PageError::NoHistorySelected);
                    };
                    let route = if entry.1.is_local() {
                        Route::ReadNovel(entry.0.clone())
                    } else {
                        Route::BookDetail(entry.0.clone())
                    };
                    Ok(KeyOutcome::Request(Actions::Push(route)))
                },
                KeyCode::Char('d') => {
                    if crate::cursor::selected(&self.state).is_none() {
                        return Err(PageError::NoHistorySelected);
                    }
                    self.confirm_state.show();
                    Ok(KeyOutcome::Consumed)
                },
                _ => Ok(KeyOutcome::Unhandled(key)),
            }
        }
    }

    /// The key hints of the page: those of the dialog while it is on screen,
    /// those of the list otherwise.
    pub fn key_shortcut_info(&self) -> (hints: Vec<(&'static str, &'static str)>)
        ensures
            hints@ == (if self.confirm_state.show { confirm_hints() } else { browse_hints() }),
    {
        if self.confirm_state.show {
            vec![
                ("确认删除", "Y"),
                ("取消删除", "N"),
                ("切换确定/取消", "H / ◄ / L / ► "),
                ("确认选中", "Enter"),
                ("切换到选择文件", "Tab"),
            ]
        } else {
            vec![
                ("选择下一个", "J / ▼"),
                ("选择上一个", "K / ▲"),
                ("取消选择", "H / ◄"),
                ("确认选择", "L / ► / Enter"),
                ("删除选中的历史记录", "D"),
                ("切换到选择文件", "Tab"),
            ]
        }
    }

    /// What to draw for a history of `total` entries in an area `height` rows
    /// tall.
    pub fn render(&self, total: usize, height: u16) -> (frame: HistoryFrame)
        ensures
            frame == (if total == 0 {
                HistoryFrame::Empty
            } else {
                HistoryFrame::List {
                    current: match self@.cursor.selected {
                        Some(index) if index < usize::MAX => (index + 1) as usize,
                        Some(index) => index,
                        None => 1usize,
                    },
                    total,
                    scrollbar: total * ENTRY_ROWS > height,
                }
            }),
    {
        if total == 0 {
            return HistoryFrame::Empty;
        }
        let current = match crate::cursor::selected(&self.state) {
            Some(index) => index.saturating_add(1),
            None => 1,
        };
        let scrollbar = match total.checked_mul(ENTRY_ROWS) {
            Some(rows) => rows > height as usize,
            None => true,
        };
        HistoryFrame::List { current, total, scrollbar }
    }
}

/// While the dialog is on screen it takes every key press: none is handed
/// back, and none moves the cursor of the list. A key that the dialog does
/// not bind changes nothing at all.
pub proof fn lemma_dialog_takes_every_press(
    page: HistoryPageView,
    history: Seq<EntryView>,
    key: KeyEvent,
)
    requires
        page.confirm.show,
        key.kind == KeyEventKind::Press,
    ensures
        ({
            let step = page.on_key(history, key);
            let bound = key.code == KeyCode::Char('y') || key.code == KeyCode::Char('n')
                || key.code == KeyCode::Enter || key.code == KeyCode::Left || key.code
                == KeyCode::Right || key.code == KeyCode::Char('h') || key.code == KeyCode::Char(
                'l',
            );
            &&& step.result == Ok::<KeyOutcomeView, PageError>(KeyOutcomeView::Consumed)
                || step.result == Ok::<KeyOutcomeView, PageError>(
                KeyOutcomeView::Request(ActionsView::SaveHistory),
            )
            &&& step.page.cursor == page.cursor || step.page.cursor == page.cursor.at(None)
            &&& !bound ==> step == page.stay(history, Ok(KeyOutcomeView::Consumed))
        }),
{
}

/// Showing the dialog with `d` and closing it with `n` leaves the history
/// and the cursor as they were.
pub proof fn lemma_cancel_keeps_history(page: HistoryPageView, history: Seq<EntryView>)
    requires
        !page.confirm.show,
        page.cursor.selected.is_some(),
    ensures
        ({
            let shown = page.on_key(history, KeyEvent::press_of(KeyCode::Char('d')));
            let closed = shown.page.on_key(shown.history, KeyEvent::press_of(KeyCode::Char('n')));
            &&& shown.page.confirm.show
            &&& shown.history == history
            &&& closed.history == history
            &&& closed.page.cursor == page.cursor
            &&& !closed.page.confirm.show
        }),
{
}

/// The history changes on one occasion only: a key press that answers a
/// visible dialog with "yes" while an entry is selected. It then loses that
/// entry and no other.
pub proof fn lemma_history_changes_only_on_yes(
    page: HistoryPageView,
    history: Seq<EntryView>,
    key: KeyEvent,
)
    ensures
        ({
            let step = page.on_key(history, key);
            let yes = key.code == KeyCode::Char('y') || (key.code == KeyCode::Enter
                && page.confirm.choice == Choice::Yes);
            if key.kind == KeyEventKind::Press && page.confirm.show && yes
                && page.cursor.selected.is_some() {
                step.history == removed(history, page.cursor.selected.unwrap() as int)
            } else {
                step.history == history
            }
        }),
{
}

} // verus!
