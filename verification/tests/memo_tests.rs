use memo_dioxus::clock::{japan_moment, stamp, Moment};
use memo_dioxus::folders::file_name;
use memo_dioxus::icon::load_icon;
use memo_dioxus::folders::{
    is_memo_file, is_tab_folder, memo_file_path, normalize_separators, old_folder, tab_folders,
};
use memo_dioxus::memo::{
    clone_hits, is_hit_piece, sort_hits, sort_memos, Memo, MemoMenu, ResultSearch, SearchMemo,
};

fn memo(name: &str) -> Memo {
    Memo::new(&format!("C:/m/tab/{}", name), "")
}

#[test]
fn memo_new_keeps_its_parts() {
    let m = Memo::new("C:/m/tab/a.txt", "hello");
    assert_eq!(m.path, "C:/m/tab/a.txt");
    assert_eq!(m.name, "a.txt");
    assert_eq!(m.content, "hello");
}

#[test]
fn write_memo_replaces_the_text() {
    let mut m = Memo::new("d/n", "old text");
    m.write_memo("new text");
    assert_eq!(m.content, "new text");
    assert_eq!(m.path, "d/n");
    assert_eq!(m.name, "n");
}

#[test]
fn search_memo_new_splits_and_normalizes() {
    let m = SearchMemo::new("C:\\m\\tab\\a.txt", "xx key yy key", "key");
    assert_eq!(m.path, "C:/m/tab/a.txt");
    assert_eq!(m.name, "a.txt");
    assert_eq!(m.contents, vec!["xx ", "key", " yy ", "key"]);
}

#[test]
fn search_memo_contains() {
    let m = SearchMemo::new("p", "alpha beta", "beta");
    assert!(m.contains("beta"));
    assert!(m.contains("alpha"));
    assert!(!m.contains("gamma"));
    let miss = SearchMemo::new("p", "alpha", "beta");
    assert!(!miss.contains("beta"));
}

#[test]
fn search_memo_hit_iff_text_contains() {
    for (text, search) in [("abc", "bc"), ("abc", "cd"), ("", "a"), ("", ""), ("abc", "")] {
        let m = SearchMemo::new("p", text, search);
        assert_eq!(m.contains(search), text.contains(search));
    }
}

#[test]
fn search_memo_clone_is_equal() {
    let m = SearchMemo::new("p\\q", "a-b", "-");
    let c = m.clone();
    assert_eq!(c.path, m.path);
    assert_eq!(c.name, m.name);
    assert_eq!(c.name, "q");
    assert_eq!(c.contents, m.contents);
    let v = clone_hits(&vec![m]);
    assert_eq!(v.len(), 1);
    assert_eq!(v[0].contents, vec!["a", "-", "b"]);
}

#[test]
fn result_search_clone_is_equal() {
    let hit = SearchMemo::new("p", "a key", "key");
    let r = ResultSearch::new("1", true, vec![hit]);
    let c = r.clone();
    assert_eq!(c.search_message, "1");
    assert!(c.is_search);
    assert_eq!(c.search_memos.len(), 1);
    assert_eq!(c.search_memos[0].contents, vec!["a ", "key"]);
}

#[test]
fn result_search_new() {
    let r = ResultSearch::new("msg", true, Vec::new());
    assert_eq!(r.search_message, "msg");
    assert!(r.is_search);
    assert!(r.search_memos.is_empty());
}

#[test]
fn memo_menu_default_and_arguments() {
    let mut menu = MemoMenu::default();
    assert!(!menu.is_show_menu);
    assert_eq!(menu.memo_path, "");
    menu.memo_path = "C:/m/tab/a.txt".to_string();
    assert_eq!(menu.folder_select_argument(), "/select,C:\\m\\tab\\a.txt");
    assert_eq!(menu.open_memo_args(), vec!["/c", "start", "C:/m/tab/a.txt"]);
}

#[test]
fn is_hit_piece_is_equality() {
    assert!(is_hit_piece("key", "key"));
    assert!(!is_hit_piece("key ", "key"));
    assert!(!is_hit_piece("", "key"));
    assert!(is_hit_piece("", ""));
}

#[test]
fn sort_memos_last_name_first_ignoring_case() {
    let memos = vec![memo("b.txt"), memo("A.txt"), memo("c.txt"), memo("a.txt")];
    let names: Vec<String> = sort_memos(memos).into_iter().map(|m| m.name).collect();
    assert_eq!(names, vec!["c.txt", "b.txt", "A.txt", "a.txt"]);
}

#[test]
fn sort_memos_newest_stamp_first() {
    let memos = vec![
        memo("20240101120000_work.txt"),
        memo("20241231000000_work.txt"),
        memo("20240601093000_work.txt"),
    ];
    let names: Vec<String> = sort_memos(memos).into_iter().map(|m| m.name).collect();
    assert_eq!(
        names,
        vec!["20241231000000_work.txt", "20240601093000_work.txt", "20240101120000_work.txt"]
    );
}

#[test]
fn sort_hits_orders_by_name() {
    let hits = vec![
        SearchMemo::new("d/a.txt", "k", "k"),
        SearchMemo::new("d\\B.txt", "k", "k"),
    ];
    let names: Vec<String> = sort_hits(hits).into_iter().map(|m| m.name).collect();
    assert_eq!(names, vec!["B.txt", "a.txt"]);
}

#[test]
fn tab_folder_filter() {
    assert!(is_tab_folder("work"));
    assert!(is_tab_folder("assets2"));
    assert!(!is_tab_folder("assets"));
    assert!(!is_tab_folder("memo_dioxus.exe.WebView2"));
    assert!(!is_tab_folder("x_memo_dioxus.exe"));
}

#[test]
fn memo_file_filter() {
    assert!(is_memo_file("a.txt"));
    assert!(is_memo_file("..txt"));
    assert!(is_memo_file("x.y.txt"));
    assert!(!is_memo_file(".txt"));
    assert!(!is_memo_file("a.TXT"));
    assert!(!is_memo_file("a.txt.bak"));
    assert!(!is_memo_file("txt"));
}

#[test]
fn tab_folders_keep_order() {
    let names = vec![
        "work".to_string(),
        "assets".to_string(),
        "memo_dioxus.exe.WebView2".to_string(),
        "home".to_string(),
    ];
    assert_eq!(tab_folders(&names), vec!["work", "home"]);
}

#[test]
fn paths_are_built_with_slashes() {
    assert_eq!(normalize_separators("C:\\Users\\me\\memo"), "C:/Users/me/memo");
    assert_eq!(
        memo_file_path("C:/memo", "work", "20240102030405"),
        "C:/memo/work/20240102030405_work.txt"
    );
    assert_eq!(old_folder("C:/memo"), "C:/memo/old");
}

#[test]
fn stamp_is_the_compact_date_time() {
    let m = Moment { year: 2024, month: 1, day: 2, hour: 3, minute: 4, second: 5 };
    assert_eq!(stamp(&m), Some("20240102030405".to_string()));
    let late = Moment { year: 2025, month: 12, day: 31, hour: 23, minute: 59, second: 58 };
    assert_eq!(stamp(&late), Some("20251231235958".to_string()));
}

#[test]
fn stamp_refuses_a_non_date() {
    let m = Moment { year: 2024, month: 13, day: 2, hour: 3, minute: 4, second: 5 };
    assert_eq!(stamp(&m), None);
    let m = Moment { year: 2023, month: 2, day: 29, hour: 0, minute: 0, second: 0 };
    assert_eq!(stamp(&m), None);
}

fn at(year: i32, month: u32, day: u32) -> Moment {
    Moment { year, month, day, hour: 1, minute: 2, second: 3 }
}

#[test]
fn stamp_pads_and_signs_years() {
    assert_eq!(stamp(&at(5, 6, 7)), Some("00050607010203".to_string()));
    assert_eq!(stamp(&at(-4, 2, 29)), Some("-00040229010203".to_string()));
    assert_eq!(stamp(&at(12345, 1, 1)), Some("+123450101010203".to_string()));
    assert_eq!(stamp(&at(262142, 12, 31)), Some("+2621421231010203".to_string()));
    assert_eq!(stamp(&at(-262143, 1, 1)), Some("-2621430101010203".to_string()));
    assert_eq!(stamp(&at(262143, 1, 1)), None);
    assert_eq!(stamp(&at(-262144, 1, 1)), None);
}

#[test]
fn stamp_follows_the_calendar() {
    assert!(stamp(&at(2000, 2, 29)).is_some());
    assert!(stamp(&at(1900, 2, 29)).is_none());
    assert!(stamp(&at(2024, 4, 31)).is_none());
    assert!(stamp(&at(2024, 4, 30)).is_some());
    assert!(stamp(&at(2024, 1, 0)).is_none());
    let m = Moment { year: 2024, month: 1, day: 1, hour: 24, minute: 0, second: 0 };
    assert!(stamp(&m).is_none());
    let m = Moment { year: 2024, month: 1, day: 1, hour: 23, minute: 59, second: 60 };
    assert!(stamp(&m).is_none());
}

#[test]
fn file_name_is_the_last_component() {
    assert_eq!(file_name("C:/m/tab/a.txt"), Some("a.txt".to_string()));
    assert_eq!(file_name("C:/m/tab\\b.txt"), Some("b.txt".to_string()));
    assert_eq!(file_name("a.txt"), Some("a.txt".to_string()));
    assert_eq!(file_name("dir/sub/"), Some("sub".to_string()));
    assert_eq!(file_name("dir/sub/."), Some("sub".to_string()));
    assert_eq!(file_name("dir/.."), None);
    assert_eq!(file_name("/"), None);
    assert_eq!(file_name(""), None);
    assert_eq!(file_name("."), None);
    assert_eq!(file_name("./"), None);
    assert_eq!(file_name(".hidden"), Some(".hidden".to_string()));
}

#[test]
fn file_name_agrees_with_std_on_slash_paths() {
    for p in ["a/b.txt", "x/y/", "x/y/.", "x/..", "/", "", ".", "a//b", "./c", "x/./y"] {
        let ours = file_name(p);
        let std = std::path::Path::new(p).file_name().map(|n| n.to_str().unwrap().to_string());
        assert_eq!(ours, std, "path {:?}", p);
    }
}

#[test]
fn icon_is_decoded_from_png_bytes() {
    // A 1x1 RGBA PNG with one red pixel.
    let png: Vec<u8> = vec![
        0x89, 0x50, 0x4E, 0x47, 0x0D, 0x0A, 0x1A, 0x0A, 0x00, 0x00, 0x00, 0x0D, 0x49, 0x48,
        0x44, 0x52, 0x00, 0x00, 0x00, 0x01, 0x00, 0x00, 0x00, 0x01, 0x08, 0x06, 0x00, 0x00,
        0x00, 0x1F, 0x15, 0xC4, 0x89, 0x00, 0x00, 0x00, 0x0D, 0x49, 0x44, 0x41, 0x54, 0x78,
        0x9C, 0x63, 0xF8, 0xCF, 0xC0, 0xF0, 0x1F, 0x00, 0x05, 0x00, 0x01, 0xFF, 0x89, 0x99,
        0x3D, 0x1D, 0x00, 0x00, 0x00, 0x00, 0x49, 0x45, 0x4E, 0x44, 0xAE, 0x42, 0x60, 0x82,
    ];
    let icon = load_icon(&png).expect("a valid png");
    assert_eq!(icon.width, 1);
    assert_eq!(icon.height, 1);
    assert_eq!(icon.pixels, vec![255, 0, 0, 255]);
    assert!(load_icon(b"not a png").is_none());
    assert!(load_icon(&[]).is_none());
}

#[test]
fn japan_time_is_nine_hours_ahead() {
    assert_eq!(
        japan_moment(0),
        Some(Moment { year: 1970, month: 1, day: 1, hour: 9, minute: 0, second: 0 })
    );
    assert_eq!(
        japan_moment(1431648000),
        Some(Moment { year: 2015, month: 5, day: 15, hour: 9, minute: 0, second: 0 })
    );
    assert_eq!(
        japan_moment(1431648000 + 15 * 3600 + 59),
        Some(Moment { year: 2015, month: 5, day: 16, hour: 0, minute: 0, second: 59 })
    );
    assert_eq!(japan_moment(i64::MAX), None);
    assert_eq!(japan_moment(i64::MAX - 40000), None);
}
