use backyupy::fs_ops::dir::{BupyConfig, FsEntry, FsEntryType, IgnoreError};
use backyupy::fs_ops::mounts::Mount;
use backyupy::ui::state::{
    command_for_key, AppState, Command, DirListState, KeyEffect, KeyInput, ListSelection, MenuMode,
    MountListState, MoveUpDown, SelectedMenu, SubMenuState,
};

fn entry(name: &str, path: &str, t: FsEntryType) -> FsEntry {
    FsEntry { name: name.to_string(), abs_path: path.to_string(), error: None, ignored: false, e_type: t }
}

fn root_listing() -> Vec<FsEntry> {
    vec![
        entry("a.txt", "/r/a.txt", FsEntryType::File),
        entry("docs", "/r/docs", FsEntryType::Folder),
        entry("pics", "/r/pics", FsEntryType::Folder),
    ]
}

fn mount(dev: &str) -> Mount {
    Mount { fs_type: "vfat".to_string(), dev: dev.to_string(), mounted_to: None, total_space: 1 }
}

fn app() -> AppState {
    let left = SubMenuState::new(Some("/r".to_string()), root_listing(), vec![mount("usb")]);
    let right = SubMenuState::new(None, Vec::new(), vec![mount("usb"), mount("sd")]);
    let mut a = AppState::default();
    a.start_path = "/r".to_string();
    a.left = left;
    a.right = right;
    a
}

#[test]
fn selection_moves_like_a_list_state() {
    let mut s = ListSelection::default();
    assert_eq!(s.selected(), None);
    s.select_next();
    assert_eq!(s.selected(), Some(0));
    s.select_previous();
    assert_eq!(s.selected(), Some(0));
    let mut s = ListSelection::default();
    s.select_previous();
    assert_eq!(s.selected(), Some(usize::MAX));
    s.select_next();
    assert_eq!(s.selected(), Some(usize::MAX));
    let mut s = ListSelection { offset: 7, selected: Some(3) };
    s.select(Some(5));
    assert_eq!(s, ListSelection { offset: 7, selected: Some(5) });
    s.select(None);
    assert_eq!(s, ListSelection { offset: 0, selected: None });
}

#[test]
fn up_then_down_returns_to_the_same_row() {
    let mut s = ListSelection { offset: 0, selected: Some(3) };
    s.select_previous();
    assert_eq!(s.selected(), Some(2));
    s.select_next();
    assert_eq!(s, ListSelection { offset: 0, selected: Some(3) });
}

#[test]
fn default_browser_focuses_the_left_pane() {
    let a = AppState::default();
    assert_eq!(a.selected_state, SelectedMenu::Left);
    assert_eq!(a.start_path, "");
    assert_eq!(a.left.menu_mode, MenuMode::Mount);
    assert_eq!(a.right.dir_list.list_state.selected(), None);
}

#[test]
fn down_then_up_returns_to_the_same_row() {
    let mut s = ListSelection { offset: 2, selected: Some(4) };
    s.select_next();
    s.select_previous();
    assert_eq!(s, ListSelection { offset: 2, selected: Some(4) });
}

#[test]
fn new_panes_follow_the_start_path() {
    let with_path = SubMenuState::new(Some("/r".to_string()), root_listing(), Vec::new());
    assert_eq!(with_path.menu_mode, MenuMode::Dir);
    assert!(!with_path.mount_select_allowed);
    assert_eq!(with_path.dir_list.curr_path, "/r");
    assert_eq!(with_path.dir_list.curr_list.len(), 3);
    assert_eq!(with_path.dir_list.list_state.selected(), Some(0));
    let without = SubMenuState::new(None, root_listing(), vec![mount("usb")]);
    assert_eq!(without.menu_mode, MenuMode::Mount);
    assert!(without.mount_select_allowed);
    assert_eq!(without.dir_list.curr_path, "");
    assert!(without.dir_list.curr_list.is_empty());
    assert_eq!(without.dir_list.list_state.selected(), None);
    assert_eq!(without.mount_list.curr_list.len(), 1);
    assert_eq!(without.mount_list.list_state.selected(), Some(0));
    let d = SubMenuState::default();
    assert_eq!(d.menu_mode, MenuMode::Mount);
    let m = MountListState::new(vec![mount("a")]);
    assert_eq!(m.selected_mount, None);
}

#[test]
fn move_dir_enters_only_folders() {
    let mut d = DirListState::new(Some("/r".to_string()), root_listing());
    assert_eq!(d.move_dir(), None);
    assert_eq!(d.curr_path, "/r");
    d.move_down();
    assert_eq!(d.move_dir(), Some("/r/docs".to_string()));
    assert_eq!(d.curr_path, "/r/docs");
    assert_eq!(d.list_state.selected(), Some(0));
    assert_eq!(d.source_path_stack, vec![(1usize, "/r".to_string())]);
    d.load_listing(vec![entry("x", "/r/docs/x", FsEntryType::File)]);
    assert_eq!(d.pop_dir(), Some("/r".to_string()));
    assert_eq!(d.curr_path, "/r");
    assert_eq!(d.list_state.selected(), Some(1));
    assert!(d.source_path_stack.is_empty());
    assert_eq!(d.pop_dir(), None);
}

#[test]
fn move_dir_past_the_end_does_nothing() {
    let mut d = DirListState::new(Some("/r".to_string()), root_listing());
    d.list_state.select(Some(10));
    assert_eq!(d.move_dir(), None);
    d.list_state.select(None);
    assert_eq!(d.move_dir(), None);
    assert_eq!(d.curr_path, "/r");
}

#[test]
fn focus_moves_between_panes() {
    let mut a = app();
    assert_eq!(a.selected_state, SelectedMenu::Left);
    a.handle_left();
    assert_eq!(a.selected_state, SelectedMenu::Left);
    a.handle_right();
    assert_eq!(a.selected_state, SelectedMenu::Right);
    a.handle_right();
    assert_eq!(a.selected_state, SelectedMenu::Bottom);
    a.handle_right();
    assert_eq!(a.selected_state, SelectedMenu::Bottom);
    a.handle_left();
    assert_eq!(a.selected_state, SelectedMenu::Right);
    a.handle_left();
    assert_eq!(a.selected_state, SelectedMenu::Left);
}

#[test]
fn up_and_down_move_the_focused_list() {
    let mut a = app();
    a.handle_down();
    assert_eq!(a.left.dir_list.list_state.selected(), Some(1));
    a.handle_right();
    a.handle_down();
    assert_eq!(a.right.mount_list.list_state.selected(), Some(1));
    assert_eq!(a.right.dir_list.list_state.selected(), None);
    a.handle_up();
    assert_eq!(a.right.mount_list.list_state.selected(), Some(0));
    a.handle_right();
    a.handle_down();
    assert_eq!(a.left.dir_list.list_state.selected(), Some(2));
}

#[test]
fn enter_then_escape_comes_back() {
    let mut a = app();
    a.handle_down();
    a.handle_down();
    assert_eq!(a.handle_enter(), Some("/r/pics".to_string()));
    a.load_listing(Vec::new());
    assert_eq!(a.left.dir_list.curr_path, "/r/pics");
    assert!(a.left.dir_list.curr_list.is_empty());
    assert_eq!(a.handle_esc(), Some("/r".to_string()));
    a.load_listing(root_listing());
    assert_eq!(a.left.dir_list.curr_path, "/r");
    assert_eq!(a.left.dir_list.list_state.selected(), Some(2));
    assert_eq!(a.left.dir_list.curr_list.len(), 3);
    assert_eq!(a.handle_esc(), None);
}

#[test]
fn enter_and_escape_do_nothing_in_a_disk_pane() {
    let mut a = app();
    a.handle_right();
    assert_eq!(a.handle_enter(), None);
    assert_eq!(a.handle_esc(), None);
}

#[test]
fn keys_map_to_commands() {
    assert_eq!(command_for_key(KeyInput::Char('j')), Some(Command::Down));
    assert_eq!(command_for_key(KeyInput::Down), Some(Command::Down));
    assert_eq!(command_for_key(KeyInput::Char('k')), Some(Command::Up));
    assert_eq!(command_for_key(KeyInput::Up), Some(Command::Up));
    assert_eq!(command_for_key(KeyInput::Char('q')), Some(Command::Quit));
    assert_eq!(command_for_key(KeyInput::Char('h')), Some(Command::Left));
    assert_eq!(command_for_key(KeyInput::Left), Some(Command::Left));
    assert_eq!(command_for_key(KeyInput::Char('l')), Some(Command::Right));
    assert_eq!(command_for_key(KeyInput::Right), Some(Command::Right));
    assert_eq!(command_for_key(KeyInput::Char('s')), Some(Command::Back));
    assert_eq!(command_for_key(KeyInput::Esc), Some(Command::Back));
    assert_eq!(command_for_key(KeyInput::Char('w')), Some(Command::Enter));
    assert_eq!(command_for_key(KeyInput::Enter), Some(Command::Enter));
    assert_eq!(command_for_key(KeyInput::Char('e')), Some(Command::Ignore));
    assert_eq!(command_for_key(KeyInput::Char(' ')), Some(Command::Ignore));
    assert_eq!(command_for_key(KeyInput::Char('x')), None);
    assert_eq!(command_for_key(KeyInput::Other), None);
}

#[test]
fn handle_key_drives_the_browser() {
    let mut a = app();
    let mut c = BupyConfig::new("/r");
    assert!(matches!(a.handle_key(KeyInput::Char('x'), &mut c), KeyEffect::Continue));
    assert!(matches!(a.handle_key(KeyInput::Down, &mut c), KeyEffect::Continue));
    match a.handle_key(KeyInput::Enter, &mut c) {
        KeyEffect::LoadListing(p) => assert_eq!(p, "/r/docs"),
        _ => panic!("expected a listing to load"),
    }
    a.load_listing(vec![entry("x", "/r/docs/x", FsEntryType::File)]);
    assert!(matches!(a.handle_key(KeyInput::Char(' '), &mut c), KeyEffect::SaveConfig));
    assert!(a.left.dir_list.curr_list[0].ignored);
    assert!(c.is_ignored(&"/r/docs/x".to_string()));
    assert!(matches!(a.handle_key(KeyInput::Char('e'), &mut c), KeyEffect::SaveConfig));
    assert!(!c.is_ignored(&"/r/docs/x".to_string()));
    a.handle_down();
    assert!(matches!(
        a.handle_key(KeyInput::Char('e'), &mut c),
        KeyEffect::IgnoreFailed(IgnoreError::NotFound)
    ));
    match a.handle_key(KeyInput::Esc, &mut c) {
        KeyEffect::LoadListing(p) => assert_eq!(p, "/r"),
        _ => panic!("expected a listing to load"),
    }
    assert!(matches!(a.handle_key(KeyInput::Right, &mut c), KeyEffect::Continue));
    assert!(matches!(a.handle_key(KeyInput::Char(' '), &mut c), KeyEffect::Continue));
    assert!(matches!(a.handle_key(KeyInput::Char('q'), &mut c), KeyEffect::Quit));
}

#[test]
fn get_state_to_modify_follows_the_focus() {
    let mut a = app();
    assert_eq!(a.get_state_to_modify().menu_mode, MenuMode::Dir);
    a.handle_right();
    assert_eq!(a.get_state_to_modify().menu_mode, MenuMode::Mount);
    a.handle_right();
    assert_eq!(a.get_state_to_modify().menu_mode, MenuMode::Dir);
    let l = AppState::get_list_to_move(&mut a.right);
    l.select_next();
    assert_eq!(a.right.mount_list.list_state.selected(), Some(1));
}
