use novel_tui::bus::EventBus;
use novel_tui::events::{
    load_failed, loading_started, novel_loaded, AfterScan, Events, NovelFiles,
};
use novel_tui::history::{HistoryItem, LocalItem, Progress};
use novel_tui::read_novel::TxtNovel;
use novel_tui::key::{KeyCode, KeyEvent};

fn is_tick(event: &Option<Events>) -> bool {
    matches!(event, Some(Events::Tick))
}

#[test]
fn a_new_bus_is_open_and_empty() {
    let mut bus = EventBus::new();
    assert!(!bus.is_closed());
    assert_eq!(bus.len(), 0);
    assert!(bus.next().is_none());
}

#[test]
fn events_come_out_in_the_order_they_went_in() {
    let mut bus = EventBus::new();
    assert!(bus.emit(Events::Init("books".to_string())));
    assert!(bus.emit(Events::Tick));
    assert!(bus.emit(Events::KeyEvent(KeyEvent::press(KeyCode::Enter))));
    assert!(bus.emit(Events::Render));
    assert_eq!(bus.len(), 4);
    assert!(matches!(bus.next(), Some(Events::Init(path)) if path == "books"));
    assert!(is_tick(&bus.next()));
    assert!(matches!(bus.next(), Some(Events::KeyEvent(key)) if key == KeyEvent::press(KeyCode::Enter)));
    assert!(matches!(bus.next(), Some(Events::Render)));
    assert!(bus.next().is_none());
}

#[test]
fn a_closed_bus_takes_no_event() {
    let mut bus = EventBus::new();
    assert!(bus.emit(Events::Tick));
    bus.close();
    assert!(bus.is_closed());
    assert!(!bus.emit(Events::Render));
    assert_eq!(bus.len(), 1);
    assert!(is_tick(&bus.next()));
    assert!(bus.next().is_none());
    assert!(bus.is_closed());
}

#[test]
fn a_single_file_stands_for_itself() {
    let found = NovelFiles::from_candidates(vec!["only.txt".to_string()]);
    assert_eq!(found, NovelFiles::File("only.txt".to_string()));
}

#[test]
fn several_files_are_a_list_to_choose_from() {
    let files = vec!["a.txt".to_string(), "b.txt".to_string(), "c.txt".to_string()];
    assert_eq!(NovelFiles::from_candidates(files.clone()), NovelFiles::FileTree(files));
    assert_eq!(NovelFiles::from_candidates(Vec::new()), NovelFiles::FileTree(Vec::new()));
}

fn entry(key: &str) -> (String, HistoryItem) {
    let item = HistoryItem::Local(LocalItem {
        title: key.to_uppercase(),
        current_chapter: "一".to_string(),
        percent: Progress::new(10),
        last_read_at: "2024-05-01T08:30:00+08:00".to_string(),
    });
    (key.to_string(), item)
}

#[test]
fn after_a_scan_of_one_file_the_file_is_loaded() {
    let found = NovelFiles::from_candidates(vec!["only.txt".to_string()]);
    let next = found.after_scan(vec![entry("x"), entry("y")]);
    assert!(matches!(next, AfterScan::Load(path) if path == "only.txt"));
}

#[test]
fn after_a_scan_of_several_files_they_are_offered_with_the_history() {
    let files = vec!["a.txt".to_string(), "b.txt".to_string(), "c.txt".to_string()];
    let next = NovelFiles::from_candidates(files.clone()).after_scan(vec![entry("x"), entry("y")]);
    let AfterScan::Offer(Events::SelectNovel(offered, entries)) = next else {
        panic!("several files are offered for selection");
    };
    assert_eq!(offered, files);
    assert_eq!(entries, vec![entry("x"), entry("y")]);
}

#[test]
fn after_a_scan_of_no_file_an_empty_list_is_offered() {
    let next = NovelFiles::from_candidates(Vec::new()).after_scan(Vec::new());
    assert!(matches!(
        next,
        AfterScan::Offer(Events::SelectNovel(files, entries)) if files.is_empty() && entries.is_empty()
    ));
}

#[test]
fn loaders_speak_through_three_events() {
    assert!(matches!(loading_started(), Events::Loading(text) if text == "正在加载小说..."));
    let novel = TxtNovel { path: "a.txt".to_string(), title: "A".to_string(), chapters: 2 };
    assert!(matches!(
        novel_loaded(novel),
        Events::ReadNovel(loaded) if loaded.path == "a.txt" && loaded.title == "A" && loaded.chapters == 2
    ));
    assert!(matches!(load_failed("gone".to_string()), Events::LoadFailed(text) if text == "gone"));
}
