use memo_dioxus::clock::Moment;
use memo_dioxus::memo::{Memo, ResultSearch, SearchMemo};
use memo_dioxus::search::{search_folders, SearchRun};
use memo_dioxus::state::{
    finish_load, plan_load, App, EventAction, Json, KeyCode, NewMemo, State, Tab, TabSet,
    WindowEvent, WindowInfo,
};

fn tab(name: &str) -> Tab {
    Tab { name: name.to_string() }
}

fn app_with_tabs(names: &[&str], current: usize) -> App {
    let mut app = App::default();
    app.tab_set.tabs = names.iter().map(|n| tab(n)).collect();
    app.json.current_num = current;
    app
}

fn key(pressed: bool, key: KeyCode) -> WindowEvent {
    WindowEvent::Key { pressed, key }
}

#[test]
fn app_default_starts_home_and_loads() {
    let app = App::default();
    assert_eq!(app.state, State::Home);
    assert!(app.is_reset_memo);
    assert!(!app.is_request_focus);
    assert!(!app.is_show_dialog);
    assert!(!app.is_pressed_ctrl);
    assert!(!app.is_search);
    assert!(app.tab_set.tabs.is_empty());
    assert!(app.tab_set.memos.is_empty());
    assert_eq!(app.json, Json::new());
    assert_eq!(app.json.current_num, 0);
    assert_eq!(
        app.json.wi,
        WindowInfo { pos_x: 0, pos_y: 0, width: 800, height: 600 }
    );
    assert_eq!(Tab::default().name, "");
}

#[test]
fn tab_set_new_and_clear() {
    let mut ts = TabSet::new(vec![tab("a")], vec![Memo::new("p", "c")], "C:/a".to_string());
    assert_eq!(ts.tabs.len(), 1);
    assert_eq!(ts.memos.len(), 1);
    assert_eq!(ts.current_memo_path, "C:/a");
    ts.clear();
    assert!(ts.tabs.is_empty());
    assert!(ts.memos.is_empty());
    assert_eq!(ts.current_memo_path, "");
    let d = TabSet::default();
    assert!(d.tabs.is_empty() && d.memos.is_empty() && d.current_memo_path.is_empty());
}

#[test]
fn window_moves_and_resizes_are_recorded() {
    let mut app = App::default();
    assert_eq!(app.handle_event(WindowEvent::Resized { width: 1024, height: 700 }), EventAction::Nothing);
    assert_eq!(app.handle_event(WindowEvent::Moved { x: -5, y: 40 }), EventAction::Nothing);
    assert_eq!(app.json.wi, WindowInfo { pos_x: -5, pos_y: 40, width: 1024, height: 700 });
}

#[test]
fn close_saves_settings() {
    let mut app = App::default();
    assert_eq!(app.handle_event(WindowEvent::CloseRequested), EventAction::SaveSettings);
}

#[test]
fn focus_change_releases_ctrl() {
    let mut app = App::default();
    app.handle_event(key(true, KeyCode::ControlLeft));
    assert!(app.is_pressed_ctrl);
    app.handle_event(WindowEvent::Focused);
    assert!(!app.is_pressed_ctrl);
}

#[test]
fn ctrl_n_creates_a_memo() {
    let mut app = App::default();
    assert_eq!(app.handle_event(key(true, KeyCode::KeyN)), EventAction::Nothing);
    app.handle_event(key(true, KeyCode::ControlLeft));
    assert_eq!(app.handle_event(key(true, KeyCode::KeyN)), EventAction::CreateMemo);
    assert_eq!(app.handle_event(key(false, KeyCode::KeyN)), EventAction::Nothing);
    app.handle_event(key(false, KeyCode::ControlLeft));
    assert_eq!(app.handle_event(key(true, KeyCode::KeyN)), EventAction::Nothing);
}

#[test]
fn ctrl_t_opens_add_tab() {
    let mut app = App::default();
    app.handle_event(key(true, KeyCode::KeyT));
    assert_eq!(app.state, State::Home);
    app.handle_event(key(true, KeyCode::ControlLeft));
    app.handle_event(key(true, KeyCode::KeyT));
    assert_eq!(app.state, State::AddTab);
}

#[test]
fn f5_release_reloads() {
    let mut app = App::default();
    app.is_reset_memo = false;
    app.handle_event(key(true, KeyCode::F5));
    assert!(!app.is_reset_memo);
    app.handle_event(key(false, KeyCode::F5));
    assert!(app.is_reset_memo);
}

#[test]
fn keys_ignored_off_home() {
    let mut app = App::default();
    app.is_reset_memo = false;
    app.state = State::Search;
    app.handle_event(key(false, KeyCode::F5));
    assert!(!app.is_reset_memo);
    app.is_pressed_ctrl = true;
    assert_eq!(app.handle_event(key(true, KeyCode::KeyN)), EventAction::Nothing);
    app.handle_event(key(true, KeyCode::KeyT));
    assert_eq!(app.state, State::Search);
}

#[test]
fn ctrl_followed_on_every_screen() {
    let mut app = App::default();
    app.state = State::Search;
    app.handle_event(key(true, KeyCode::ControlLeft));
    assert!(app.is_pressed_ctrl);
    app.handle_event(key(false, KeyCode::ControlRight));
    assert!(!app.is_pressed_ctrl);
}

#[test]
fn right_ctrl_t_opens_add_tab() {
    let mut app = App::default();
    app.handle_event(key(true, KeyCode::ControlRight));
    app.handle_event(key(true, KeyCode::KeyT));
    assert_eq!(app.state, State::AddTab);
}

#[test]
fn right_ctrl_n_creates_a_memo() {
    let mut app = App::default();
    app.handle_event(key(true, KeyCode::ControlRight));
    assert_eq!(app.handle_event(key(true, KeyCode::KeyN)), EventAction::CreateMemo);
}

#[test]
fn ctrl_released_on_add_tab_is_not_held_at_home() {
    let mut app = App::default();
    app.handle_event(key(true, KeyCode::ControlLeft));
    app.handle_event(key(true, KeyCode::KeyT));
    assert_eq!(app.state, State::AddTab);
    app.handle_event(key(false, KeyCode::ControlLeft));
    app.go_home();
    app.handle_event(key(true, KeyCode::KeyT));
    assert_eq!(app.state, State::Home);
    assert_eq!(app.handle_event(key(true, KeyCode::KeyN)), EventAction::Nothing);
}

#[test]
fn memo_reset_cycle() {
    let mut app = app_with_tabs(&["a", "b"], 1);
    assert_eq!(app.begin_memo_reset(), Some(1));
    assert!(!app.is_reset_memo);
    assert!(app.is_request_focus);
    assert!(app.tab_set.tabs.is_empty());
    assert_eq!(app.begin_memo_reset(), None);
    let loaded = TabSet::new(vec![tab("a")], vec![Memo::new("p", "")], String::new());
    app.receive_tab_set(loaded);
    assert!(app.is_request_focus);
    assert!(!app.take_focus_request(0));
    assert!(!app.take_focus_request(2));
    assert!(app.take_focus_request(1));
    assert!(!app.is_request_focus);
}

#[test]
fn empty_load_needs_no_focus() {
    let mut app = App::default();
    app.begin_memo_reset();
    app.receive_tab_set(TabSet::default());
    assert!(!app.is_request_focus);
}

#[test]
fn search_screen_flow() {
    let mut app = App::default();
    app.open_search();
    assert_eq!(app.state, State::Search);
    assert_eq!(app.search_string, "");
    assert!(!app.start_search());
    assert!(!app.is_search);
    app.search_string = "key".to_string();
    assert!(app.start_search());
    assert!(app.is_search);
    let hit = SearchMemo::new("p", "a key", "key");
    app.receive_search_result(ResultSearch::new("1 hit", false, vec![hit]));
    assert!(!app.is_search);
    assert_eq!(app.search_message, "1 hit");
    assert_eq!(app.search_memos.len(), 1);
    app.go_home();
    assert_eq!(app.state, State::Home);
}

#[test]
fn tab_buttons() {
    let mut app = app_with_tabs(&["a", "b", "c"], 0);
    app.is_reset_memo = false;
    app.select_tab(2);
    assert_eq!(app.json.current_num, 2);
    assert!(app.is_reset_memo);
    assert!(app.begin_edit_tab());
    assert_eq!(app.state, State::EditTab);
    assert_eq!(app.edit_tab.name, "c");
    assert_eq!(app.current_tab_folder("C:/m"), "C:/m/c");
    app.edit_tab.name = "d".to_string();
    assert_eq!(app.edited_tab_folder("C:/m"), "C:/m/d");
    app.finish_tab_change();
    assert_eq!(app.state, State::Home);
    app.open_add_tab();
    assert_eq!(app.state, State::AddTab);
    let mut empty = App::default();
    assert!(!empty.begin_edit_tab());
    assert_eq!(empty.state, State::Home);
}

#[test]
fn tab_removal_selects_the_previous() {
    let mut app = app_with_tabs(&["a", "b"], 1);
    app.state = State::EditTab;
    app.tab_removed(true);
    assert_eq!(app.json.current_num, 0);
    assert_eq!(app.state, State::Home);
    assert!(app.is_reset_memo);
    app.tab_removed(true);
    assert_eq!(app.json.current_num, 0);
    let mut gone = app_with_tabs(&["a", "b"], 1);
    gone.tab_removed(false);
    assert_eq!(gone.json.current_num, 1);
}

#[test]
fn credit_and_menu() {
    let mut app = App::default();
    app.toggle_credit();
    assert!(app.is_show_dialog);
    app.toggle_credit();
    assert!(!app.is_show_dialog);
    app.tab_set.memos = vec![Memo::new("C:/m/a/x.txt", "")];
    app.show_menu(0);
    assert!(app.menu.is_show_menu);
    assert_eq!(app.menu.memo_path, "C:/m/a/x.txt");
    app.hide_menu();
    assert!(!app.menu.is_show_menu);
    assert_eq!(app.menu.memo_path, "C:/m/a/x.txt");
}

#[test]
fn busy_while_loading_or_focusing() {
    let mut app = App::default();
    assert!(app.is_busy());
    app.is_reset_memo = false;
    assert!(!app.is_busy());
    app.is_request_focus = true;
    assert!(app.is_busy());
    app.request_memo_reset();
    assert!(app.is_reset_memo);
}

#[test]
fn new_memo_plans() {
    let now = Moment { year: 2024, month: 1, day: 2, hour: 3, minute: 4, second: 5 };
    let app = App::default();
    assert!(matches!(app.plan_new_memo("C:/m", &now), NewMemo::NoTabs));
    let far = app_with_tabs(&["a"], 3);
    assert!(matches!(far.plan_new_memo("C:/m", &now), NewMemo::NoTabSelected));
    let app = app_with_tabs(&["a", "work"], 1);
    match app.plan_new_memo("C:/m", &now) {
        NewMemo::Create(p) => assert_eq!(p, "C:/m/work/20240102030405_work.txt"),
        other => panic!("unexpected {:?}", other),
    }
    let bad = Moment { year: 2024, month: 2, day: 30, hour: 0, minute: 0, second: 0 };
    assert!(matches!(app.plan_new_memo("C:/m", &bad), NewMemo::BadMoment));
    match app.new_memo_with_stamp("C:/m", Some("X".to_string())) {
        NewMemo::Create(p) => assert_eq!(p, "C:/m/work/X_work.txt"),
        other => panic!("unexpected {:?}", other),
    }
    assert!(matches!(app.new_memo_with_stamp("C:/m", None), NewMemo::BadMoment));
}

#[test]
fn load_plan_and_finish() {
    let names = vec![
        "work".to_string(),
        "assets".to_string(),
        "home".to_string(),
    ];
    let (tabs, folder) = plan_load("C:/m", &names, 1);
    let tab_names: Vec<&str> = tabs.iter().map(|t| t.name.as_str()).collect();
    assert_eq!(tab_names, vec!["work", "home"]);
    assert_eq!(folder, Some("C:/m/home".to_string()));
    let (_, none) = plan_load("C:/m", &names, 2);
    assert_eq!(none, None);
    let memos = vec![Memo::new("t/a.txt", ""), Memo::new("t/b.txt", "")];
    let ts = finish_load(tabs, memos, folder);
    assert_eq!(ts.memos[0].name, "b.txt");
    assert_eq!(ts.memos[1].name, "a.txt");
    assert_eq!(ts.current_memo_path, "C:/m/home");
    let empty = finish_load(Vec::new(), Vec::new(), None);
    assert_eq!(empty.current_memo_path, "");
}

#[test]
fn search_run_reports() {
    let (mut run, first) = SearchRun::start("key");
    assert_eq!(first.search_message, "ファイルを取得中です...");
    assert!(first.is_search);
    assert!(first.search_memos.is_empty());
    assert!(run.offer("C:\\m\\a\\1.txt", "nothing here").is_none());
    let rep = run.offer("C:\\m\\a\\2.txt", "a key").unwrap();
    assert_eq!(rep.search_message, "1 ファイルがヒットしました。");
    assert!(rep.is_search);
    assert_eq!(rep.search_memos.len(), 1);
    assert_eq!(rep.search_memos[0].path, "C:/m/a/2.txt");
    assert_eq!(rep.search_memos[0].contents, vec!["a ", "key"]);
    let rep = run.offer("C:/m/a/3.txt", "key key").unwrap();
    assert_eq!(rep.search_message, "2 ファイルがヒットしました。");
    run.end_folder();
    let names: Vec<&str> = run.memos.iter().map(|m| m.name.as_str()).collect();
    assert_eq!(names, vec!["3.txt", "2.txt"]);
    let last = run.finish();
    assert_eq!(last.search_message, "2 ファイルがヒットしました。");
    assert!(!last.is_search);
    assert_eq!(last.search_memos.len(), 2);
}

#[test]
fn search_run_without_hits() {
    let (run, _) = SearchRun::start("zzz");
    let last = run.finish();
    assert_eq!(last.search_message, "0 ファイルがヒットしました。");
    assert!(last.search_memos.is_empty());
}

#[test]
fn search_folders_are_tab_folders() {
    let names = vec!["b".to_string(), "assets".to_string(), "a".to_string()];
    assert_eq!(search_folders("C:/m", &names), vec!["C:/m/b", "C:/m/a"]);
}

#[test]
fn selecting_a_tab_reloads_it() {
    let mut app = app_with_tabs(&["a", "b", "c"], 0);
    app.is_reset_memo = false;
    app.select_tab(2);
    assert_eq!(app.begin_memo_reset(), Some(2));
    assert_eq!(app.begin_memo_reset(), None);
}

#[test]
fn window_events_keep_content() {
    let mut app = app_with_tabs(&["a"], 0);
    app.search_string = "k".to_string();
    for event in [
        WindowEvent::Resized { width: 1, height: 2 },
        WindowEvent::Moved { x: 3, y: 4 },
        WindowEvent::CloseRequested,
        WindowEvent::Focused,
        WindowEvent::Key { pressed: false, key: KeyCode::F5 },
        WindowEvent::Other,
    ] {
        app.handle_event(event);
        assert_eq!(app.tab_set.tabs.len(), 1);
        assert_eq!(app.search_string, "k");
        assert_eq!(app.json.current_num, 0);
    }
}

#[test]
fn old_folder_moves_keep_file_names() {
    let mut app = App::default();
    app.tab_set.memos = vec![Memo::new("C:/m/work\\a.txt", ""), Memo::new("C:/m/work/b.txt", "")];
    let (old, moves) = app.old_folder_moves("C:/m");
    assert_eq!(old, "C:/m/old");
    assert_eq!(
        moves,
        vec![
            ("C:/m/work\\a.txt".to_string(), "C:/m/old/a.txt".to_string()),
            ("C:/m/work/b.txt".to_string(), "C:/m/old/b.txt".to_string()),
        ]
    );
}
