use vstd::prelude::*;

use crate::clock::{stamp, stamp_of, valid_moment, Moment};
use crate::folders::{
    file_name, file_name_of, memo_file_path, memo_path_spec, old_folder, tab_folder_names,
    tab_folders,
};
use crate::memo::{name_key, sort_memos};
use crate::order::sorted_descending_by;
use crate::text::views;
use crate::memo::{hit_views, Memo, MemoMenu, ResultSearch, SearchMemo};
use crate::text::{join_path, join_spec};

verus! {

/// The screen the window shows.
#[derive(Debug, Clone, Copy, PartialEq, Eq, Structural)]
pub enum State {
    Home,
    EditTab,
    AddTab,
    Search,
}

/// A tab: a folder of memos.
#[derive(Debug, Clone)]
pub struct Tab {
    pub name: String,
}

impl Default for Tab {
    fn default() -> (t: Tab)
        ensures
            t.name@ == Seq::<char>::empty(),
    {
        Tab { name: String::new() }
    }
}

/// The tabs, the memos of the selected tab and the selected tab's folder.
#[derive(Debug, Clone)]
pub struct TabSet {
    pub tabs: Vec<Tab>,
    pub memos: Vec<Memo>,
    pub current_memo_path: String,
}

impl Default for TabSet {
    fn default() -> (t: TabSet)
        ensures
            t.tabs@.len() == 0,
            t.memos@.len() == 0,
            t.current_memo_path@ == Seq::<char>::empty(),
    {
        TabSet { tabs: Vec::new(), memos: Vec::new(), current_memo_path: String::new() }
    }
}

impl TabSet {
    pub fn new(tabs: Vec<Tab>, memos: Vec<Memo>, current_memo_path: String) -> (t: TabSet)
        ensures
            t.tabs == tabs,
            t.memos == memos,
            t.current_memo_path == current_memo_path,
    {
        TabSet { tabs, memos, current_memo_path }
    }

    /// Forgets all tabs and memos.
    pub fn clear(&mut self)
        ensures
            final(self).tabs@.len() == 0,
            final(self).memos@.len() == 0,
            final(self).current_memo_path@ == Seq::<char>::empty(),
    {
        self.memos.clear();
        self.tabs.clear();
        self.current_memo_path = String::new();
    }
}

/// Position and size of the window.
#[derive(Debug, Clone, Copy, PartialEq, Eq)]
pub struct WindowInfo {
    pub pos_x: i32,
    pub pos_y: i32,
    pub width: u32,
    pub height: u32,
}

/// The settings kept between runs: the window and the selected tab.
#[derive(Debug, Clone, Copy, PartialEq, Eq)]
pub struct Json {
    pub wi: WindowInfo,
    pub current_num: usize,
}

/// Settings before any are loaded: the window at the origin, 800 by 600, and the
/// first tab selected.
pub open spec fn default_json() -> Json {
    Json { wi: WindowInfo { pos_x: 0, pos_y: 0, width: 800, height: 600 }, current_num: 0 }
}

impl Json {
    pub fn new() -> (j: Json)
        ensures
            j == default_json(),
    {
        Json { wi: WindowInfo { pos_x: 0, pos_y: 0, width: 800, height: 600 }, current_num: 0 }
    }
}

/// The whole state of the window.
#[derive(Debug, Clone)]
pub struct App {
    pub json: Json,
    pub tab_set: TabSet,
    pub menu: MemoMenu,
    pub is_reset_memo: bool,
    pub is_request_focus: bool,
    pub state: State,
    pub edit_tab: Tab,
    pub is_show_dialog: bool,
    pub is_pressed_ctrl: bool,
    pub search_string: String,
    pub is_search: bool,
    pub search_memos: Vec<SearchMemo>,
    pub search_message: String,
}

impl Default for App {
    /// The start state: home screen, memos to be (re)loaded, nothing else going on.
    fn default() -> (a: App)
        ensures
            a.json == default_json(),
            a.tab_set.tabs@.len() == 0,
            a.tab_set.memos@.len() == 0,
            a.tab_set.current_memo_path@ == Seq::<char>::empty(),
            !a.menu.is_show_menu,
            a.menu.memo_path@ == Seq::<char>::empty(),
            a.is_reset_memo,
            !a.is_request_focus,
            a.state == State::Home,
            a.edit_tab.name@ == Seq::<char>::empty(),
            !a.is_show_dialog,
            !a.is_pressed_ctrl,
            a.search_string@ == Seq::<char>::empty(),
            !a.is_search,
            a.search_memos@.len() == 0,
            a.search_message@ == Seq::<char>::empty(),
    {
        App {
            json: Json::new(),
            tab_set: TabSet::default(),
            menu: MemoMenu::default(),
            is_reset_memo: true,
            is_request_focus: false,
            state: State::Home,
            edit_tab: Tab::default(),
            is_show_dialog: false,
            is_pressed_ctrl: false,
            search_string: String::new(),
            is_search: false,
            search_memos: Vec::new(),
            search_message: String::new(),
        }
    }
}

/// Keys the window reacts to.
#[derive(Debug, Clone, Copy, PartialEq, Eq, Structural)]
pub enum KeyCode {
    F5,
    ControlLeft,
    ControlRight,
    KeyN,
    KeyT,
    Other,
}

/// What happens to the window.
#[derive(Debug, Clone, Copy, PartialEq, Eq, Structural)]
pub enum WindowEvent {
    Resized { width: u32, height: u32 },
    Moved { x: i32, y: i32 },
    CloseRequested,
    Focused,
    Key { pressed: bool, key: KeyCode },
    Other,
}

/// What the window has to do after an event.
#[derive(Debug, Clone, Copy, PartialEq, Eq, Structural)]
pub enum EventAction {
    Nothing,
    SaveSettings,
    CreateMemo,
}

/// Either Ctrl key.
pub open spec fn is_ctrl(key: KeyCode) -> bool {
    key == KeyCode::ControlLeft || key == KeyCode::ControlRight
}

/// The state after `event`, and what is to be done. Whether a Ctrl key is held is
/// followed on every screen; the other keys act on the home screen only.
pub open spec fn after_event(a: App, event: WindowEvent) -> (App, EventAction) {
    match event {
        WindowEvent::Resized { width, height } => (
            App { json: Json { wi: WindowInfo { width, height, ..a.json.wi }, ..a.json }, ..a },
            EventAction::Nothing,
        ),
        WindowEvent::Moved { x, y } => (
            App { json: Json { wi: WindowInfo { pos_x: x, pos_y: y, ..a.json.wi }, ..a.json }, ..a },
            EventAction::Nothing,
        ),
        WindowEvent::CloseRequested => (a, EventAction::SaveSettings),
        WindowEvent::Focused => (App { is_pressed_ctrl: false, ..a }, EventAction::Nothing),
        WindowEvent::Key { pressed, key } => if is_ctrl(key) {
            (App { is_pressed_ctrl: pressed, ..a }, EventAction::Nothing)
        } else if a.state != State::Home {
            (a, EventAction::Nothing)
        } else {
            match key {
                KeyCode::F5 => if !pressed {
                    (App { is_reset_memo: true, ..a }, EventAction::Nothing)
                } else {
                    (a, EventAction::Nothing)
                },
                KeyCode::KeyN => if pressed && a.is_pressed_ctrl {
                    (a, EventAction::CreateMemo)
                } else {
                    (a, EventAction::Nothing)
                },
                KeyCode::KeyT => if pressed && a.is_pressed_ctrl {
                    (App { state: State::AddTab, ..a }, EventAction::Nothing)
                } else {
                    (a, EventAction::Nothing)
                },
                _ => (a, EventAction::Nothing),
            }
        },
        WindowEvent::Other => (a, EventAction::Nothing),
    }
}

/// The state after selecting tab `u`.
pub open spec fn selected(a: App, u: usize) -> App {
    App { json: Json { current_num: u, ..a.json }, is_reset_memo: true, ..a }
}

/// The tab whose memos a state asks to load, if it asks.
pub open spec fn reload_request(a: App) -> Option<usize> {
    if a.is_reset_memo {
        Some(a.json.current_num)
    } else {
        None
    }
}

/// The state after showing or hiding the credits.
pub open spec fn credit_toggled(a: App) -> App {
    App { is_show_dialog: !a.is_show_dialog, ..a }
}

/// What a request to create a memo comes to.
#[derive(Debug)]
pub enum NewMemo {
    /// There is no tab to put it in.
    NoTabs,
    /// The selected tab is past the tabs.
    NoTabSelected,
    /// The clock reading is no date and time.
    BadMoment,
    /// Create the (empty) file at this path.
    Create(String),
}

impl App {
    /// Reacts to a window event.
    pub fn handle_event(&mut self, event: WindowEvent) -> (action: EventAction)
        ensures
            (*final(self), action) == after_event(*old(self), event),
    {
        match event {
            WindowEvent::Resized { width, height } => {
                self.json.wi.width = width;
                self.json.wi.height = height;
                EventAction::Nothing
            },
            WindowEvent::Moved { x, y } => {
                self.json.wi.pos_x = x;
                self.json.wi.pos_y = y;
                EventAction::Nothing
            },
            WindowEvent::CloseRequested => EventAction::SaveSettings,
            WindowEvent::Focused => {
                self.is_pressed_ctrl = false;
                EventAction::Nothing
            },
            WindowEvent::Key { pressed, key } => {
                if key == KeyCode::ControlLeft || key == KeyCode::ControlRight {
                    self.is_pressed_ctrl = pressed;
                    return EventAction::Nothing;
                }
                if self.state != State::Home {
                    return EventAction::Nothing;
                }
                match key {
                    KeyCode::F5 => {
                        if !pressed {
                            self.is_reset_memo = true;
                        }
                        EventAction::Nothing
                    },
                    KeyCode::KeyN => {
                        if pressed && self.is_pressed_ctrl {
                            EventAction::CreateMemo
                        } else {
                            EventAction::Nothing
                        }
                    },
                    KeyCode::KeyT => {
                        if pressed && self.is_pressed_ctrl {
                            self.state = State::AddTab;
                        }
                        EventAction::Nothing
                    },
                    _ => EventAction::Nothing,
                }
            },
            WindowEvent::Other => EventAction::Nothing,
        }
    }
}

impl App {
    /// When a reload of the memos is due: forgets the tabs and memos, asks for the focus
    /// once they are back, and gives the selected tab to load them for. `None` when no
    /// reload is due.
    pub fn begin_memo_reset(&mut self) -> (r: Option<usize>)
        ensures
            r == reload_request(*old(self)),
            old(self).is_reset_memo ==> {
                &&& r == Some(old(self).json.current_num)
                &&& final(self).tab_set.tabs@.len() == 0
                &&& final(self).tab_set.memos@.len() == 0
                &&& final(self).tab_set.current_memo_path@ == Seq::<char>::empty()
                &&& *final(self) == (App {
                    tab_set: final(self).tab_set,
                    is_reset_memo: false,
                    is_request_focus: true,
                    ..*old(self)
                })
            },
            !old(self).is_reset_memo ==> r is None && *final(self) == *old(self),
    {
        if self.is_reset_memo {
            self.tab_set.clear();
            let current = self.json.current_num;
            self.is_reset_memo = false;
            self.is_request_focus = true;
            Some(current)
        } else {
            None
        }
    }

    /// Whether the first memo is to get the focus now, with `mounted` memo fields on
    /// screen: focus was asked for and every memo is on screen. The request is then
    /// dropped.
    pub fn take_focus_request(&mut self, mounted: usize) -> (r: bool)
        ensures
            r == (old(self).is_request_focus && mounted != 0 && mounted
                == old(self).tab_set.memos@.len()),
            *final(self) == (App { is_request_focus: old(self).is_request_focus && !r, ..*old(self) }),
    {
        let ready = self.is_request_focus && mounted != 0 && mounted == self.tab_set.memos.len();
        if ready {
            self.is_request_focus = false;
        }
        ready
    }

    /// Takes the freshly loaded tabs and memos; with no memo there is nothing to focus.
    pub fn receive_tab_set(&mut self, tab_set: TabSet)
        ensures
            *final(self) == (App {
                tab_set: tab_set,
                is_request_focus: if tab_set.memos@.len() == 0 {
                    false
                } else {
                    old(self).is_request_focus
                },
                ..*old(self)
            }),
    {
        self.tab_set = tab_set;
        if self.tab_set.memos.len() == 0 {
            self.is_request_focus = false;
        }
    }

    /// Takes a report of the running search.
    pub fn receive_search_result(&mut self, res: ResultSearch)
        ensures
            *final(self) == (App {
                is_search: res.is_search,
                search_memos: res.search_memos,
                search_message: res.search_message,
                ..*old(self)
            }),
    {
        self.is_search = res.is_search;
        self.search_memos = res.search_memos;
        self.search_message = res.search_message;
    }

    /// Starts a search for the search string, unless it is empty; the former results
    /// are dropped.
    pub fn start_search(&mut self) -> (started: bool)
        ensures
            started == (old(self).search_string@.len() > 0),
            started ==> {
                &&& final(self).search_memos@.len() == 0
                &&& final(self).search_message@ == Seq::<char>::empty()
                &&& *final(self) == (App {
                    search_memos: final(self).search_memos,
                    search_message: final(self).search_message,
                    is_search: true,
                    ..*old(self)
                })
            },
            !started ==> *final(self) == *old(self),
    {
        if !self.search_string.as_str().is_empty() {
            self.search_memos = Vec::new();
            self.search_message = String::new();
            self.is_search = true;
            true
        } else {
            false
        }
    }

    /// Opens the search screen with an empty search string and no results.
    pub fn open_search(&mut self)
        ensures
            final(self).search_memos@.len() == 0,
            final(self).search_message@ == Seq::<char>::empty(),
            final(self).search_string@ == Seq::<char>::empty(),
            *final(self) == (App {
                search_memos: final(self).search_memos,
                search_message: final(self).search_message,
                search_string: final(self).search_string,
                state: State::Search,
                ..*old(self)
            }),
    {
        self.search_memos = Vec::new();
        self.search_message = String::new();
        self.search_string = String::new();
        self.state = State::Search;
    }

    /// Back to the home screen.
    pub fn go_home(&mut self)
        ensures
            *final(self) == (App { state: State::Home, ..*old(self) }),
    {
        self.state = State::Home;
    }

    /// Opens the screen that adds a tab.
    pub fn open_add_tab(&mut self)
        ensures
            *final(self) == (App { state: State::AddTab, ..*old(self) }),
    {
        self.state = State::AddTab;
    }

    /// Selects tab `u` and has its memos loaded.
    pub fn select_tab(&mut self, u: usize)
        ensures
            *final(self) == selected(*old(self), u),
    {
        self.json.current_num = u;
        self.is_reset_memo = true;
    }

    /// Has the memos loaded again.
    pub fn request_memo_reset(&mut self)
        ensures
            *final(self) == (App { is_reset_memo: true, ..*old(self) }),
    {
        self.is_reset_memo = true;
    }

    /// Opens the screen that edits the selected tab, when there are tabs.
    pub fn begin_edit_tab(&mut self) -> (opened: bool)
        requires
            old(self).tab_set.tabs@.len() > 0 ==> old(self).json.current_num < old(
                self,
            ).tab_set.tabs@.len(),
        ensures
            opened == (old(self).tab_set.tabs@.len() > 0),
            opened ==> {
                &&& final(self).edit_tab.name@ == old(
                    self,
                ).tab_set.tabs@[old(self).json.current_num as int].name@
                &&& *final(self) == (App {
                    edit_tab: final(self).edit_tab,
                    state: State::EditTab,
                    ..*old(self)
                })
            },
            !opened ==> *final(self) == *old(self),
    {
        if self.tab_set.tabs.len() > 0 {
            let name = self.tab_set.tabs[self.json.current_num].name.clone();
            self.edit_tab = Tab { name };
            self.state = State::EditTab;
            true
        } else {
            false
        }
    }

    /// Shows or hides the credits.
    pub fn toggle_credit(&mut self)
        ensures
            *final(self) == credit_toggled(*old(self)),
    {
        self.is_show_dialog = !self.is_show_dialog;
    }

    /// Hides the memo menu.
    pub fn hide_menu(&mut self)
        ensures
            *final(self) == (App {
                menu: MemoMenu { is_show_menu: false, ..old(self).menu },
                ..*old(self)
            }),
    {
        self.menu.is_show_menu = false;
    }

    /// Shows the menu of memo `i`.
    pub fn show_menu(&mut self, i: usize)
        requires
            i < old(self).tab_set.memos@.len(),
        ensures
            final(self).menu.is_show_menu,
            final(self).menu.memo_path@ == old(self).tab_set.memos@[i as int].path@,
            *final(self) == (App { menu: final(self).menu, ..*old(self) }),
    {
        let path = self.tab_set.memos[i].path.clone();
        self.menu = MemoMenu { is_show_menu: true, memo_path: path };
    }

    /// Whether memos are being loaded or focused, when the buttons are off.
    pub fn is_busy(&self) -> (r: bool)
        ensures
            r == (self.is_reset_memo || self.is_request_focus),
    {
        self.is_reset_memo || self.is_request_focus
    }

    /// The folder of the selected tab.
    pub fn current_tab_folder(&self, exe_path: &str) -> (r: String)
        requires
            self.json.current_num < self.tab_set.tabs@.len(),
        ensures
            r@ == join_spec(exe_path@, self.tab_set.tabs@[self.json.current_num as int].name@),
    {
        join_path(exe_path, self.tab_set.tabs[self.json.current_num].name.as_str())
    }

    /// Where the memos of the selected tab go when they are put aside: the "old" folder
    /// inside `root`, and for each memo its path and the path of its copy there (the
    /// same file name).
    pub fn old_folder_moves(&self, root: &str) -> (r: (String, Vec<(String, String)>))
        requires
            forall|k: int|
                0 <= k < self.tab_set.memos@.len() ==> (file_name_of(
                    #[trigger] self.tab_set.memos@[k].path@,
                ) is Some),
        ensures
            r.0@ == join_spec(root@, "old"@),
            r.1@.len() == self.tab_set.memos@.len(),
            forall|k: int|
                0 <= k < r.1@.len() ==> {
                    &&& (#[trigger] r.1@[k]).0@ == self.tab_set.memos@[k].path@
                    &&& file_name_of(self.tab_set.memos@[k].path@) matches Some(n) && r.1@[k].1@
                        == join_spec(r.0@, n)
                },
    {
        let old = old_folder(root);
        let mut moves: Vec<(String, String)> = Vec::new();
        let mut i: usize = 0;
        while i < self.tab_set.memos.len()
            invariant
                i <= self.tab_set.memos@.len(),
                old@ == join_spec(root@, "old"@),
                moves@.len() == i,
                forall|k: int|
                    0 <= k < self.tab_set.memos@.len() ==> (file_name_of(
                        #[trigger] self.tab_set.memos@[k].path@,
                    ) is Some),
                forall|k: int|
                    0 <= k < i ==> {
                        &&& (#[trigger] moves@[k]).0@ == self.tab_set.memos@[k].path@
                        &&& file_name_of(self.tab_set.memos@[k].path@) matches Some(n)
                            && moves@[k].1@ == join_spec(old@, n)
                    },
            decreases self.tab_set.memos.len() - i,
        {
            let path = &self.tab_set.memos[i].path;
            let name = match file_name(path.as_str()) {
                Some(n) => n,
                None => String::new(),
            };
            let target = join_path(old.as_str(), name.as_str());
            moves.push((path.clone(), target));
            i = i + 1;
        }
        (old, moves)
    }

    /// The folder the edited tab name stands for.
    pub fn edited_tab_folder(&self, exe_path: &str) -> (r: String)
        ensures
            r@ == join_spec(exe_path@, self.edit_tab.name@),
    {
        join_path(exe_path, self.edit_tab.name.as_str())
    }

    /// After a tab was added, renamed or emptied: home screen, memos reloaded.
    pub fn finish_tab_change(&mut self)
        ensures
            *final(self) == (App { state: State::Home, is_reset_memo: true, ..*old(self) }),
    {
        self.state = State::Home;
        self.is_reset_memo = true;
    }

    /// After the selected tab was deleted (`existed`: its folder was there and is gone):
    /// the tab before it is selected, unless it was the first; home screen, memos
    /// reloaded.
    pub fn tab_removed(&mut self, existed: bool)
        ensures
            *final(self) == (App {
                json: Json {
                    current_num: if existed && old(self).json.current_num != 0 {
                        (old(self).json.current_num - 1) as usize
                    } else {
                        old(self).json.current_num
                    },
                    ..old(self).json
                },
                state: State::Home,
                is_reset_memo: true,
                ..*old(self)
            }),
    {
        if existed && self.json.current_num != 0 {
            self.json.current_num = self.json.current_num - 1;
        }
        self.is_reset_memo = true;
        self.state = State::Home;
    }

    /// Where a new memo goes, given the time stamp of its creation (`None`: the clock
    /// reading was no date and time): refused without tabs or with the selected tab
    /// past the tabs; otherwise the file in the selected tab's folder named after the
    /// time stamp and the tab.
    pub fn new_memo_with_stamp(&self, exe_path: &str, stamp: Option<String>) -> (r: NewMemo)
        requires
            !(self.tab_set.tabs@.len() > 0 && self.tab_set.tabs@.len() == self.json.current_num),
        ensures
            self.tab_set.tabs@.len() == 0 ==> r is NoTabs,
            self.tab_set.tabs@.len() > 0 && self.tab_set.tabs@.len() < self.json.current_num
                ==> r is NoTabSelected,
            self.json.current_num < self.tab_set.tabs@.len() ==> match stamp {
                Some(s) => r matches NewMemo::Create(path) && path@ == memo_path_spec(
                    exe_path@,
                    self.tab_set.tabs@[self.json.current_num as int].name@,
                    s@,
                ),
                None => r is BadMoment,
            },
    {
        let n = self.tab_set.tabs.len();
        if n == 0 {
            return NewMemo::NoTabs;
        } else if n < self.json.current_num {
            return NewMemo::NoTabSelected;
        }
        let tab = &self.tab_set.tabs[self.json.current_num];
        match stamp {
            Some(s) => NewMemo::Create(memo_file_path(exe_path, tab.name.as_str(), s.as_str())),
            None => NewMemo::BadMoment,
        }
    }

    /// Where a new memo goes, made at the time `now`: as `new_memo_with_stamp`, with
    /// the time stamp chrono writes for `now` (refused when `now` is no date and time,
    /// which a clock reading always is).
    pub fn plan_new_memo(&self, exe_path: &str, now: &Moment) -> (r: NewMemo)
        requires
            !(self.tab_set.tabs@.len() > 0 && self.tab_set.tabs@.len() == self.json.current_num),
        ensures
            self.tab_set.tabs@.len() == 0 ==> r is NoTabs,
            self.tab_set.tabs@.len() > 0 && self.tab_set.tabs@.len() < self.json.current_num
                ==> r is NoTabSelected,
            self.json.current_num < self.tab_set.tabs@.len() ==> if valid_moment(*now) {
                r matches NewMemo::Create(path) && path@ == memo_path_spec(
                    exe_path@,
                    self.tab_set.tabs@[self.json.current_num as int].name@,
                    stamp_of(*now),
                )
            } else {
                r is BadMoment
            },
    {
        self.new_memo_with_stamp(exe_path, stamp(now))
    }
}



/// The names of tabs.
pub open spec fn tab_names(tabs: Seq<Tab>) -> Seq<Seq<char>> {
    tabs.map_values(|t: Tab| t.name@)
}

/// The tabs found among the folders `names` (in their order), and the folder of the
/// selected tab `current_num` when there is such a tab.
pub fn plan_load(exe_path: &str, names: &Vec<String>, current_num: usize) -> (r: (
    Vec<Tab>,
    Option<String>,
))
    ensures
        tab_names(r.0@) == tab_folder_names(views(names@)),
        current_num < r.0@.len() ==> (r.1 matches Some(f) && f@ == join_spec(
            exe_path@,
            r.0@[current_num as int].name@,
        )),
        current_num >= r.0@.len() ==> r.1 is None,
{
    let folders = tab_folders(names);
    let mut tabs: Vec<Tab> = Vec::new();
    let mut i: usize = 0;
    while i < folders.len()
        invariant
            i <= folders@.len(),
            views(folders@) == tab_folder_names(views(names@)),
            tab_names(tabs@) == views(folders@).subrange(0, i as int),
        decreases folders.len() - i,
    {
        let ghost before = tab_names(tabs@);
        tabs.push(Tab { name: folders[i].clone() });
        proof {
            assert(tab_names(tabs@) =~= before.push(folders@[i as int]@));
            assert(views(folders@).subrange(0, i + 1) =~= views(folders@).subrange(0, i as int).push(
                folders@[i as int]@,
            ));
        }
        i = i + 1;
    }
    proof {
        assert(views(folders@).subrange(0, folders@.len() as int) =~= views(folders@));
    }
    let folder = if current_num < tabs.len() {
        Some(join_path(exe_path, tabs[current_num].name.as_str()))
    } else {
        None
    };
    (tabs, folder)
}

/// The loaded tab set: the tabs, the memos of the selected tab ordered by lower-cased
/// file name, last first, and the selected tab's folder (empty when no tab is
/// selected).
pub fn finish_load(tabs: Vec<Tab>, memos: Vec<Memo>, folder: Option<String>) -> (t: TabSet)
    ensures
        t.tabs == tabs,
        sorted_descending_by(memos@, memos@.map_values(|m: Memo| name_key(m.name@)), t.memos@),
        crate::memo::names_descending(t.memos@.map_values(|m: Memo| m.name@)),
        t.current_memo_path@ == match folder {
            Some(f) => f@,
            None => Seq::<char>::empty(),
        },
{
    let path = match folder {
        Some(f) => f,
        None => String::new(),
    };
    TabSet::new(tabs, sort_memos(memos), path)
}



/// Selecting a tab has the memos of that tab loaded.
pub proof fn lemma_selected_tab_is_loaded(a: App, u: usize)
    ensures
        reload_request(selected(a, u)) == Some(u),
{
}

/// Showing the credits and hiding them again leaves the state as it was.
pub proof fn lemma_credit_toggle_undoes(a: App)
    ensures
        credit_toggled(credit_toggled(a)) == a,
{
}

/// Pressing or releasing either Ctrl key records whether Ctrl is held, on every
/// screen, and does nothing else.
pub proof fn lemma_ctrl_followed_everywhere(a: App, pressed: bool, key: KeyCode)
    requires
        is_ctrl(key),
    ensures
        after_event(a, WindowEvent::Key { pressed, key }) == (
            App { is_pressed_ctrl: pressed, ..a },
            EventAction::Nothing,
        ),
{
}

/// Off the home screen, a key other than Ctrl changes nothing and asks for nothing.
pub proof fn lemma_keys_only_at_home(a: App, pressed: bool, key: KeyCode)
    requires
        a.state != State::Home,
        !is_ctrl(key),
    ensures
        after_event(a, WindowEvent::Key { pressed, key }) == (a, EventAction::Nothing),
{
}

/// A new memo is asked for only on the home screen, while a Ctrl key is held, when N
/// is pressed.
pub proof fn lemma_new_memo_needs_ctrl_n(a: App, event: WindowEvent)
    ensures
        after_event(a, event).1 == EventAction::CreateMemo <==> (a.state == State::Home
            && a.is_pressed_ctrl && event == WindowEvent::Key { pressed: true, key: KeyCode::KeyN }),
{
}

/// The add-tab screen opens on a key only from the home screen, while a Ctrl key is
/// held, when T is pressed.
pub proof fn lemma_add_tab_needs_ctrl_t(a: App, event: WindowEvent)
    requires
        a.state != State::AddTab,
    ensures
        after_event(a, event).0.state == State::AddTab <==> (a.state == State::Home
            && a.is_pressed_ctrl && event == WindowEvent::Key { pressed: true, key: KeyCode::KeyT }),
{
}

/// After a Ctrl key is released, on any screen, neither N nor T acts until a Ctrl key
/// is pressed again.
pub proof fn lemma_released_ctrl_is_not_held(a: App, key: KeyCode, next: KeyCode)
    requires
        is_ctrl(key),
        !is_ctrl(next),
    ensures
        ({
            let b = after_event(a, WindowEvent::Key { pressed: false, key }).0;
            let c = after_event(b, WindowEvent::Key { pressed: true, key: next });
            c.1 == EventAction::Nothing && (c.0.state == State::AddTab ==> a.state == State::AddTab)
        }),
{
}

/// A key other than F5, N, T or Ctrl changes nothing and asks for nothing, on any
/// screen.
pub proof fn lemma_other_keys_do_nothing(a: App, pressed: bool)
    ensures
        after_event(a, WindowEvent::Key { pressed, key: KeyCode::Other }) == (a, EventAction::Nothing),
{
}

/// Memos are reloaded on an event only when F5 is released on the home screen: no
/// event asks for a reload otherwise, and that one always does.
pub proof fn lemma_reload_only_on_f5(a: App, event: WindowEvent)
    ensures
        after_event(a, event).0.is_reset_memo == (a.is_reset_memo || (a.state == State::Home
            && event == WindowEvent::Key { pressed: false, key: KeyCode::F5 })),
        after_event(a, event).0.state == a.state || after_event(a, event).0.state == State::AddTab,
{
}

/// Window events never touch the tabs, the memos or the search.
pub proof fn lemma_events_keep_content(a: App, event: WindowEvent)
    ensures
        after_event(a, event).0.tab_set == a.tab_set,
        after_event(a, event).0.search_memos == a.search_memos,
        after_event(a, event).0.search_string == a.search_string,
        after_event(a, event).0.json.current_num == a.json.current_num,
{
}

} // verus!

