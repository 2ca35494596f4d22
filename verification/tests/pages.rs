use novel_tui::actions::{Actions, KeyOutcome, PageError, Route};
use novel_tui::confirm::Choice;
use novel_tui::history::{History, HistoryItem, LocalItem, NetworkItem, Progress};
use novel_tui::key::{KeyCode, KeyEvent, KeyEventKind};
use novel_tui::loading::{Loading, LoadingState, LOADING_FRAMES};
use novel_tui::read_novel::{ReadNovel, TxtNovel};
use novel_tui::select_file::SelectFile;
use novel_tui::select_history::{HistoryFrame, SelectHistory};
use novel_tui::select_novel::{Focus, SelectNovel};
use ratatui::buffer::Buffer;
use ratatui::layout::Rect;
use ratatui::text::Line;
use ratatui::widgets::StatefulWidget;
use tui_widget_list::{ListBuilder, ListState, ListView};

/// Draws a list of `count` one-row items with `state`, as the screen does
/// between two keys.
fn draw_list(state: &mut ListState, count: usize) {
    let builder = ListBuilder::new(|_| (Line::from("entry"), 1));
    let list = ListView::new(builder, count).infinite_scrolling(false);
    let area = Rect::new(0, 0, 20, 10);
    let mut buffer = Buffer::empty(area);
    list.render(area, &mut buffer, state);
}

fn press(c: char) -> KeyEvent {
    KeyEvent::press(KeyCode::Char(c))
}

fn local(title: &str) -> HistoryItem {
    HistoryItem::Local(LocalItem {
        title: title.to_string(),
        current_chapter: "一".to_string(),
        percent: Progress::new(1250),
        last_read_at: "2024-05-01T08:30:00+08:00".to_string(),
    })
}

fn network(title: &str) -> HistoryItem {
    HistoryItem::Network(NetworkItem {
        title: title.to_string(),
        current_chapter: "二".to_string(),
        percent: Progress::new(0),
        last_read_at: "2024-05-02T08:30:00+08:00".to_string(),
        book_source: "书源".to_string(),
    })
}

fn abc() -> History {
    let mut history = History::new();
    history.upsert("c".to_string(), local("C"));
    history.upsert("https://b".to_string(), network("B"));
    history.upsert("a".to_string(), local("A"));
    history
}

fn keys(history: &History) -> Vec<String> {
    history.histories().iter().map(|entry| entry.0.clone()).collect()
}

fn page_over(history: &History) -> SelectHistory {
    let mut page = SelectHistory::new();
    draw_list(&mut page.state, history.len());
    page
}

#[test]
fn a_new_history_page_selects_nothing() {
    let page = SelectHistory::new();
    assert_eq!(page.state.selected, None);
    assert!(!page.confirm_state.show);
    assert_eq!(SelectHistory::to_page_route(), Route::SelectHistory);
}

#[test]
fn j_and_k_move_the_cursor() {
    let mut history = abc();
    let mut page = page_over(&history);
    assert_eq!(page.handle_key_event(press('j'), &mut history), Ok(KeyOutcome::Consumed));
    assert_eq!(page.state.selected, Some(0));
    page.handle_key_event(press('j'), &mut history).unwrap();
    assert_eq!(page.state.selected, Some(1));
    page.handle_key_event(KeyEvent::press(KeyCode::Down), &mut history).unwrap();
    assert_eq!(page.state.selected, Some(2));
    page.handle_key_event(press('j'), &mut history).unwrap();
    assert_eq!(page.state.selected, Some(2));
    assert_eq!(page.handle_key_event(press('k'), &mut history), Ok(KeyOutcome::Consumed));
    assert_eq!(page.state.selected, Some(1));
    page.handle_key_event(KeyEvent::press(KeyCode::Up), &mut history).unwrap();
    assert_eq!(page.state.selected, Some(0));
    page.handle_key_event(press('k'), &mut history).unwrap();
    assert_eq!(page.state.selected, Some(0));
    assert_eq!(keys(&history), vec!["a", "https://b", "c"]);
}

#[test]
fn k_on_a_fresh_list_selects_the_first_entry() {
    let mut history = abc();
    let mut page = page_over(&history);
    page.handle_key_event(press('k'), &mut history).unwrap();
    assert_eq!(page.state.selected, Some(0));
}

#[test]
fn a_list_that_was_never_drawn_does_not_move() {
    let mut history = abc();
    let mut page = SelectHistory::new();
    assert_eq!(page.handle_key_event(press('j'), &mut history), Ok(KeyOutcome::Consumed));
    assert_eq!(page.state.selected, None);
    page.handle_key_event(press('k'), &mut history).unwrap();
    assert_eq!(page.state.selected, None);
}

#[test]
fn h_drops_the_selection() {
    let mut history = abc();
    let mut page = page_over(&history);
    page.handle_key_event(press('j'), &mut history).unwrap();
    assert_eq!(page.handle_key_event(press('h'), &mut history), Ok(KeyOutcome::Consumed));
    assert_eq!(page.state.selected, None);
    page.handle_key_event(press('j'), &mut history).unwrap();
    page.handle_key_event(KeyEvent::press(KeyCode::Left), &mut history).unwrap();
    assert_eq!(page.state.selected, None);
}

#[test]
fn only_presses_count() {
    let mut history = abc();
    let mut page = page_over(&history);
    let release = KeyEvent { code: KeyCode::Char('j'), kind: KeyEventKind::Release, ctrl: false };
    assert_eq!(page.handle_key_event(release, &mut history), Ok(KeyOutcome::Unhandled(release)));
    let repeat = KeyEvent { code: KeyCode::Char('j'), kind: KeyEventKind::Repeat, ctrl: false };
    assert_eq!(page.handle_key_event(repeat, &mut history), Ok(KeyOutcome::Unhandled(repeat)));
    assert_eq!(page.state.selected, None);
}

#[test]
fn unknown_keys_are_handed_back() {
    let mut history = abc();
    let mut page = page_over(&history);
    assert_eq!(
        page.handle_key_event(press('x'), &mut history),
        Ok(KeyOutcome::Unhandled(press('x')))
    );
    let tab = KeyEvent::press(KeyCode::Tab);
    assert_eq!(page.handle_key_event(tab, &mut history), Ok(KeyOutcome::Unhandled(tab)));
}

#[test]
fn enter_without_a_selection_is_an_error() {
    let mut history = abc();
    let mut page = page_over(&history);
    assert_eq!(
        page.handle_key_event(KeyEvent::press(KeyCode::Enter), &mut history),
        Err(PageError::NoHistorySelected)
    );
    assert_eq!(page.handle_key_event(press('d'), &mut history), Err(PageError::NoHistorySelected));
    assert!(!page.confirm_state.show);
    assert_eq!(PageError::NoHistorySelected.message(), "请选择历史记录");
    assert_eq!(PageError::NoFileSelected.message(), "请选择文件");
}

#[test]
fn enter_opens_a_local_entry_on_the_reading_page() {
    let mut history = abc();
    let mut page = page_over(&history);
    page.handle_key_event(press('j'), &mut history).unwrap();
    assert_eq!(
        page.handle_key_event(KeyEvent::press(KeyCode::Enter), &mut history),
        Ok(KeyOutcome::Request(Actions::Push(Route::ReadNovel("a".to_string()))))
    );
    assert_eq!(history.len(), 3);
}

#[test]
fn enter_opens_a_network_entry_on_the_book_page() {
    let mut history = abc();
    let mut page = page_over(&history);
    page.handle_key_event(press('j'), &mut history).unwrap();
    page.handle_key_event(press('j'), &mut history).unwrap();
    assert_eq!(
        page.handle_key_event(press('l'), &mut history),
        Ok(KeyOutcome::Request(Actions::Push(Route::BookDetail("https://b".to_string()))))
    );
    assert_eq!(
        page.handle_key_event(KeyEvent::press(KeyCode::Right), &mut history),
        Ok(KeyOutcome::Request(Actions::Push(Route::BookDetail("https://b".to_string()))))
    );
}

#[test]
fn enter_on_a_stale_selection_is_an_error() {
    let mut history = abc();
    let mut page = page_over(&history);
    page.state.select(Some(7));
    assert_eq!(
        page.handle_key_event(KeyEvent::press(KeyCode::Enter), &mut history),
        Err(PageError::NoHistorySelected)
    );
}

#[test]
fn d_then_n_leaves_the_history_alone() {
    let mut history = abc();
    let mut page = page_over(&history);
    page.handle_key_event(press('j'), &mut history).unwrap();
    assert_eq!(page.handle_key_event(press('d'), &mut history), Ok(KeyOutcome::Consumed));
    assert!(page.confirm_state.show);
    assert_eq!(page.handle_key_event(press('n'), &mut history), Ok(KeyOutcome::Consumed));
    assert!(!page.confirm_state.show);
    assert_eq!(page.state.selected, Some(0));
    assert_eq!(keys(&history), vec!["a", "https://b", "c"]);
}

#[test]
fn d_then_enter_answers_no() {
    let mut history = abc();
    let mut page = page_over(&history);
    page.handle_key_event(press('j'), &mut history).unwrap();
    page.handle_key_event(press('d'), &mut history).unwrap();
    assert_eq!(
        page.handle_key_event(KeyEvent::press(KeyCode::Enter), &mut history),
        Ok(KeyOutcome::Consumed)
    );
    assert!(!page.confirm_state.show);
    assert_eq!(history.len(), 3);
}

#[test]
fn d_then_y_deletes_the_selected_entry() {
    let mut history = abc();
    let mut page = page_over(&history);
    page.handle_key_event(press('j'), &mut history).unwrap();
    page.handle_key_event(press('j'), &mut history).unwrap();
    page.handle_key_event(press('d'), &mut history).unwrap();
    assert_eq!(
        page.handle_key_event(press('y'), &mut history),
        Ok(KeyOutcome::Request(Actions::SaveHistory))
    );
    assert_eq!(keys(&history), vec!["a", "c"]);
    assert_eq!(page.state.selected, None);
    assert!(!page.confirm_state.show);
    assert_eq!(page.confirm_state.choice, Choice::No);
}

#[test]
fn toggle_then_enter_deletes_the_selected_entry() {
    let mut history = abc();
    let mut page = page_over(&history);
    page.handle_key_event(press('j'), &mut history).unwrap();
    page.handle_key_event(press('d'), &mut history).unwrap();
    assert_eq!(page.handle_key_event(press('l'), &mut history), Ok(KeyOutcome::Consumed));
    assert_eq!(page.confirm_state.choice, Choice::Yes);
    assert_eq!(
        page.handle_key_event(KeyEvent::press(KeyCode::Enter), &mut history),
        Ok(KeyOutcome::Request(Actions::SaveHistory))
    );
    assert_eq!(keys(&history), vec!["https://b", "c"]);
}

#[test]
fn toggling_twice_then_enter_deletes_nothing() {
    let mut history = abc();
    let mut page = page_over(&history);
    page.handle_key_event(press('j'), &mut history).unwrap();
    page.handle_key_event(press('d'), &mut history).unwrap();
    page.handle_key_event(KeyEvent::press(KeyCode::Left), &mut history).unwrap();
    page.handle_key_event(KeyEvent::press(KeyCode::Right), &mut history).unwrap();
    assert_eq!(page.confirm_state.choice, Choice::No);
    page.handle_key_event(KeyEvent::press(KeyCode::Enter), &mut history).unwrap();
    assert_eq!(history.len(), 3);
}

#[test]
fn the_dialog_takes_the_list_keys() {
    let mut history = abc();
    let mut page = page_over(&history);
    page.handle_key_event(press('j'), &mut history).unwrap();
    page.handle_key_event(press('d'), &mut history).unwrap();
    let unbound = [
        press('j'),
        press('k'),
        press('d'),
        press('x'),
        KeyEvent::press(KeyCode::Down),
        KeyEvent::press(KeyCode::Up),
        KeyEvent::press(KeyCode::Tab),
        KeyEvent::press(KeyCode::Esc),
        KeyEvent::press(KeyCode::Other),
    ];
    for key in unbound {
        assert_eq!(page.handle_key_event(key, &mut history), Ok(KeyOutcome::Consumed));
        assert_eq!(page.state.selected, Some(0));
        assert!(page.confirm_state.show);
        assert_eq!(page.confirm_state.choice, Choice::No);
        assert_eq!(keys(&history), vec!["a", "https://b", "c"]);
    }
}

#[test]
fn the_dialog_hands_back_what_is_no_press() {
    let mut history = abc();
    let mut page = page_over(&history);
    page.handle_key_event(press('j'), &mut history).unwrap();
    page.handle_key_event(press('d'), &mut history).unwrap();
    let released = KeyEvent { code: KeyCode::Char('y'), kind: KeyEventKind::Release, ctrl: false };
    assert_eq!(page.handle_key_event(released, &mut history), Ok(KeyOutcome::Unhandled(released)));
    assert!(page.confirm_state.show);
    assert_eq!(history.len(), 3);
}

#[test]
fn yes_on_a_stale_selection_deletes_nothing() {
    let mut history = abc();
    let mut page = page_over(&history);
    page.state.select(Some(3));
    page.handle_key_event(press('d'), &mut history).unwrap();
    assert_eq!(page.handle_key_event(press('y'), &mut history), Ok(KeyOutcome::Consumed));
    assert_eq!(history.len(), 3);
    assert!(!page.confirm_state.show);
}

#[test]
fn hints_follow_the_dialog() {
    let mut history = abc();
    let mut page = page_over(&history);
    let browsing = page.key_shortcut_info();
    assert_eq!(browsing.len(), 6);
    assert_eq!(browsing[0], ("选择下一个", "J / ▼"));
    assert_eq!(browsing[4], ("删除选中的历史记录", "D"));
    assert_eq!(browsing[5], ("切换到选择文件", "Tab"));
    page.handle_key_event(press('j'), &mut history).unwrap();
    page.handle_key_event(press('d'), &mut history).unwrap();
    let confirming = page.key_shortcut_info();
    assert_eq!(confirming.len(), 5);
    assert_eq!(confirming[0], ("确认删除", "Y"));
    assert_eq!(confirming[2], ("切换确定/取消", "H / ◄ / L / ► "));
    assert_eq!(confirming[3], ("确认选中", "Enter"));
}

#[test]
fn the_frame_counts_from_one() {
    let mut history = abc();
    let mut page = page_over(&history);
    assert_eq!(page.render(0, 40), HistoryFrame::Empty);
    assert_eq!(page.render(3, 40), HistoryFrame::List { current: 1, total: 3, scrollbar: false });
    page.handle_key_event(press('j'), &mut history).unwrap();
    page.handle_key_event(press('j'), &mut history).unwrap();
    assert_eq!(page.render(3, 15), HistoryFrame::List { current: 2, total: 3, scrollbar: false });
    assert_eq!(page.render(3, 14), HistoryFrame::List { current: 2, total: 3, scrollbar: true });
    assert_eq!(
        page.render(usize::MAX, 14),
        HistoryFrame::List { current: 2, total: usize::MAX, scrollbar: true }
    );
}

#[test]
fn the_file_page_asks_for_the_selected_file() {
    let mut page = SelectFile::new(vec!["a.txt".to_string(), "b.txt".to_string()]);
    assert_eq!(page.state.selected, None);
    let enter = KeyEvent::press(KeyCode::Enter);
    assert_eq!(page.handle_key_event(enter), Err(PageError::NoFileSelected));
    draw_list(&mut page.state, 2);
    assert_eq!(page.handle_key_event(press('j')), Ok(KeyOutcome::Consumed));
    assert_eq!(page.handle_key_event(press('j')), Ok(KeyOutcome::Consumed));
    assert_eq!(page.state.selected, Some(1));
    assert_eq!(
        page.handle_key_event(enter),
        Ok(KeyOutcome::Request(Actions::SelectedFile("b.txt".to_string())))
    );
    assert_eq!(page.handle_key_event(press('k')), Ok(KeyOutcome::Consumed));
    assert_eq!(
        page.handle_key_event(press('l')),
        Ok(KeyOutcome::Request(Actions::SelectedFile("a.txt".to_string())))
    );
    assert_eq!(page.handle_key_event(press('h')), Ok(KeyOutcome::Consumed));
    assert_eq!(page.state.selected, None);
    assert_eq!(page.handle_key_event(press('d')), Ok(KeyOutcome::Unhandled(press('d'))));
    page.state.select(Some(2));
    assert_eq!(page.handle_key_event(enter), Err(PageError::NoFileSelected));
}

#[test]
fn tab_moves_the_focus() {
    let mut history = abc();
    let mut page = SelectNovel::new(SelectFile::new(vec!["a.txt".to_string()]), SelectHistory::new());
    assert_eq!(page.focus, Focus::Files);
    let tab = KeyEvent::press(KeyCode::Tab);
    assert_eq!(page.handle_term_events(tab, &mut history), Ok(KeyOutcome::Consumed));
    assert_eq!(page.focus, Focus::History);
    assert_eq!(page.handle_term_events(tab, &mut history), Ok(KeyOutcome::Consumed));
    assert_eq!(page.focus, Focus::Files);
}

#[test]
fn keys_go_to_the_list_with_the_focus() {
    let mut history = abc();
    let mut page = SelectNovel::new(
        SelectFile::new(vec!["a.txt".to_string(), "b.txt".to_string()]),
        SelectHistory::new(),
    );
    draw_list(&mut page.files.state, 2);
    draw_list(&mut page.history.state, 3);
    page.handle_term_events(press('j'), &mut history).unwrap();
    assert_eq!(page.files.state.selected, Some(0));
    assert_eq!(page.history.state.selected, None);
    page.handle_term_events(KeyEvent::press(KeyCode::Tab), &mut history).unwrap();
    page.handle_term_events(press('j'), &mut history).unwrap();
    page.handle_term_events(press('j'), &mut history).unwrap();
    assert_eq!(page.files.state.selected, Some(0));
    assert_eq!(page.history.state.selected, Some(1));
}

#[test]
fn the_dialog_takes_tab_too() {
    let mut history = abc();
    let mut page = SelectNovel::history_only();
    assert_eq!(page.focus, Focus::History);
    assert!(page.files.files.is_empty());
    draw_list(&mut page.history.state, 3);
    page.handle_term_events(press('j'), &mut history).unwrap();
    page.handle_term_events(press('d'), &mut history).unwrap();
    let tab = KeyEvent::press(KeyCode::Tab);
    assert_eq!(page.handle_term_events(tab, &mut history), Ok(KeyOutcome::Consumed));
    assert_eq!(page.focus, Focus::History);
    assert!(page.history.confirm_state.show);
    assert_eq!(
        page.handle_term_events(press('y'), &mut history),
        Ok(KeyOutcome::Request(Actions::SaveHistory))
    );
    assert_eq!(keys(&history), vec!["https://b", "c"]);
}

#[test]
fn the_reading_page_leaves_on_escape() {
    let novel = TxtNovel { path: "a.txt".to_string(), title: "A".to_string(), chapters: 12 };
    let page = ReadNovel::new(novel);
    assert_eq!(page.position, 0);
    assert_eq!(page.novel.chapters, 12);
    assert_eq!(
        page.handle_key_event(KeyEvent::press(KeyCode::Esc)),
        KeyOutcome::Request(Actions::Back)
    );
    assert_eq!(page.handle_key_event(press('j')), KeyOutcome::Unhandled(press('j')));
    let release = KeyEvent { code: KeyCode::Esc, kind: KeyEventKind::Release, ctrl: false };
    assert_eq!(page.handle_key_event(release), KeyOutcome::Unhandled(release));
}

#[test]
fn the_animation_wraps_round() {
    let mut state = LoadingState { phase: 0 };
    for expected in 1..LOADING_FRAMES {
        state.calc_next();
        assert_eq!(state.phase, expected);
    }
    state.calc_next();
    assert_eq!(state.phase, 0);
    let mut odd = LoadingState { phase: 200 };
    odd.calc_next();
    assert_eq!(odd.phase, 0);
    assert_eq!(LOADING_FRAMES, 8);
}

#[test]
fn loading_pages_carry_their_message() {
    assert_eq!(Loading::new("wait".to_string()).message, "wait");
    assert_eq!(Loading::new("wait".to_string()).state.phase, 0);
    assert_eq!(Loading::scanning().message, "扫描文件中...");
    assert_eq!(Loading::loading_novel().message, "正在加载小说...");
}

#[test]
fn keys_are_told_apart() {
    assert!(press('q').is_quit());
    assert!(!press('c').is_quit());
    assert!(KeyEvent { code: KeyCode::Char('c'), kind: KeyEventKind::Press, ctrl: true }.is_quit());
    assert!(KeyEvent { code: KeyCode::Char('q'), kind: KeyEventKind::Press, ctrl: true }.is_quit());
    assert!(!KeyEvent { code: KeyCode::Char('q'), kind: KeyEventKind::Release, ctrl: false }.is_quit());
    assert!(!KeyEvent::press(KeyCode::Esc).is_quit());
    assert!(KeyEvent::press(KeyCode::Esc).is_dismiss());
    assert!(!KeyEvent { code: KeyCode::Esc, kind: KeyEventKind::Repeat, ctrl: false }.is_dismiss());
    assert!(!press('q').is_dismiss());
    assert!(press('q').is_press());
}
