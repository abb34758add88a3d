//! The state of the two-pane browser and how each key changes it.

use vstd::prelude::*;

use crate::fs_ops::dir::{
    mark_for_ignore, paths_after_toggle, toggled_entries, BupyConfig, FsEntry, FsEntryType, IgnoreError,
};
use crate::fs_ops::mounts::Mount;

verus! {

/// Which rows of a list are in view and which row is selected: `offset` is
/// the first row shown, `selected` the selected row, if any. It moves as the
/// list state of ratatui's list widget does; the program hands it to that
/// widget to draw the list and takes back what drawing settles on (a
/// selection past the end of the list is pulled back to the last row).
#[derive(Debug, Clone, Copy, PartialEq, Eq, Structural)]
pub struct ListSelection {
    pub offset: usize,
    pub selected: Option<usize>,
}

impl ListSelection {
    /// The selection after `index` is selected; clearing it also scrolls back
    /// to the top.
    pub open spec fn after_select(self, index: Option<usize>) -> ListSelection {
        ListSelection { offset: if index is None { 0 } else { self.offset }, selected: index }
    }

    /// The selection after moving down: the next row, or the first row when
    /// nothing was selected; the row number never wraps around.
    pub open spec fn after_next(self) -> ListSelection {
        let next = match self.selected {
            Some(i) => if i == usize::MAX { i } else { (i + 1) as usize },
            None => 0,
        };
        self.after_select(Some(next))
    }

    /// The selection after moving up: the row before, staying on the first
    /// row; the last row when nothing was selected.
    pub open spec fn after_previous(self) -> ListSelection {
        let previous = match self.selected {
            Some(i) => if i == 0 { 0 } else { (i - 1) as usize },
            None => usize::MAX,
        };
        self.after_select(Some(previous))
    }

    /// The selected row, if any.
    pub fn selected(&self) -> (r: Option<usize>)
        ensures
            r == self.selected,
    {
        self.selected
    }

    /// Selects `index` (see `after_select`).
    pub fn select(&mut self, index: Option<usize>)
        ensures
            *final(self) == old(self).after_select(index),
    {
        self.selected = index;
        if index.is_none() {
            self.offset = 0;
        }
    }

    /// Moves the selection down (see `after_next`).
    pub fn select_next(&mut self)
        ensures
            *final(self) == old(self).after_next(),
    {
        let next = match self.selected {
            Some(i) => if i == usize::MAX { i } else { i + 1 },
            None => 0,
        };
        self.select(Some(next));
    }

    /// Moves the selection up (see `after_previous`).
    pub fn select_previous(&mut self)
        ensures
            *final(self) == old(self).after_previous(),
    {
        let previous = match self.selected {
            Some(i) => if i == 0 { 0 } else { i - 1 },
            None => usize::MAX,
        };
        self.select(Some(previous));
    }
}

impl Default for ListSelection {
    /// Nothing selected, the first row on top.
    fn default() -> (s: Self)
        ensures
            s == (ListSelection { offset: 0, selected: None }),
    {
        ListSelection { offset: 0, selected: None }
    }
}

/// Which list a pane shows: the disks to back up to, or a directory.
#[derive(Debug, Clone, Copy, PartialEq, Eq, Structural)]
pub enum MenuMode {
    Mount,
    Dir,
}

impl Default for MenuMode {
    fn default() -> (m: Self)
        ensures
            m == MenuMode::Mount,
    {
        MenuMode::Mount
    }
}

/// A list whose selection moves up and down.
pub trait MoveUpDown {
    fn move_up(&mut self);

    fn move_down(&mut self);
}

/// A pane that browses directories: the directory shown, its listing, the
/// selection, and for each directory entered, the row selected in the
/// directory it was entered from and that directory's path.
pub struct DirListState {
    pub curr_path: String,
    pub curr_list: Vec<FsEntry>,
    pub list_state: ListSelection,
    pub source_path_stack: Vec<(usize, String)>,
}

/// A directory pane as a value.
pub struct DirListView {
    pub curr_path: Seq<char>,
    pub curr_list: Seq<FsEntry>,
    pub list_state: ListSelection,
    pub source_path_stack: Seq<(usize, Seq<char>)>,
}

impl View for DirListState {
    type V = DirListView;

    open spec fn view(&self) -> DirListView {
        DirListView {
            curr_path: self.curr_path@,
            curr_list: self.curr_list@,
            list_state: self.list_state,
            source_path_stack: self.source_path_stack@.map_values(|e: (usize, String)| (e.0, e.1@)),
        }
    }
}

impl DirListView {
    /// A folder is selected, and so can be entered.
    pub open spec fn can_enter(self) -> bool {
        match self.list_state.selected {
            Some(i) => i < self.curr_list.len() && self.curr_list[i as int].e_type == FsEntryType::Folder,
            None => false,
        }
    }

    /// The pane after entering the selected folder: the row and the path
    /// left are remembered, the folder becomes the directory shown, and its
    /// first row is selected. Nothing changes when no folder is selected.
    /// The listing stays until the new directory's listing is loaded.
    pub open spec fn after_move_dir(self) -> DirListView {
        if self.can_enter() {
            let i = self.list_state.selected->0;
            DirListView {
                curr_path: self.curr_list[i as int].abs_path@,
                curr_list: self.curr_list,
                list_state: self.list_state.after_select(Some(0)),
                source_path_stack: self.source_path_stack.push((i, self.curr_path)),
            }
        } else {
            self
        }
    }

    /// The pane after going back: the directory last entered from is shown
    /// again with the row that was selected there. Nothing changes when no
    /// directory was entered.
    pub open spec fn after_pop_dir(self) -> DirListView {
        if self.source_path_stack.len() > 0 {
            let (row, path) = self.source_path_stack.last();
            DirListView {
                curr_path: path,
                curr_list: self.curr_list,
                list_state: self.list_state.after_select(Some(row)),
                source_path_stack: self.source_path_stack.drop_last(),
            }
        } else {
            self
        }
    }

    /// The pane with `list` as its listing.
    pub open spec fn with_listing(self, list: Seq<FsEntry>) -> DirListView {
        DirListView { curr_list: list, ..self }
    }

    /// The pane with `s` as its selection.
    pub open spec fn with_selection(self, s: ListSelection) -> DirListView {
        DirListView { list_state: s, ..self }
    }
}

impl DirListState {
    /// A pane showing `path` with `listing` as its listing and its first row
    /// selected; with no path, an empty pane with nothing selected.
    pub fn new(path: Option<String>, listing: Vec<FsEntry>) -> (s: Self)
        ensures
            s.source_path_stack@.len() == 0,
            match path {
                Some(p) => s.curr_path == p && s.curr_list == listing
                    && s.list_state == (ListSelection { offset: 0, selected: Some(0) }),
                None => s.curr_path@.len() == 0 && s.curr_list@.len() == 0
                    && s.list_state == (ListSelection { offset: 0, selected: None }),
            },
    {
        let mut instance = DirListState::default();
        if let Some(path) = path {
            instance.curr_list = listing;
            instance.curr_path = path;
            instance.list_state.select(Some(0));
        }
        instance
    }

    /// Enters the selected folder (see `after_move_dir`) and answers the
    /// path whose listing is to be loaded, or `None` when no folder was
    /// selected.
    pub fn move_dir(&mut self) -> (load: Option<String>)
        ensures
            final(self)@ == old(self)@.after_move_dir(),
            old(self)@.can_enter() ==> load is Some && load->0@ == final(self)@.curr_path,
            !old(self)@.can_enter() ==> load is None,
    {
        let selected = self.list_state.selected();
        let selected_idx = match selected {
            Some(i) => i,
            None => {
                return None;
            },
        };
        if selected_idx >= self.curr_list.len() {
            return None;
        }
        if self.curr_list[selected_idx].e_type == FsEntryType::Folder {
            let target = self.curr_list[selected_idx].abs_path.clone();
            let ghost old_stack = self.source_path_stack@;
            self.source_path_stack.push((selected_idx, self.curr_path.clone()));
            self.curr_path = target;
            self.list_state.select(Some(0));
            assert(self.source_path_stack@.map_values(|e: (usize, String)| (e.0, e.1@)) =~= old_stack.map_values(
                |e: (usize, String)| (e.0, e.1@),
            ).push((selected_idx, old(self).curr_path@)));
            Some(self.curr_path.clone())
        } else {
            None
        }
    }

    /// Goes back to the directory last entered from (see `after_pop_dir`)
    /// and answers the path whose listing is to be loaded, or `None` when no
    /// directory was entered.
    pub fn pop_dir(&mut self) -> (load: Option<String>)
        ensures
            final(self)@ == old(self)@.after_pop_dir(),
            old(self)@.source_path_stack.len() > 0 ==> load is Some && load->0@ == final(self)@.curr_path,
            old(self)@.source_path_stack.len() == 0 ==> load is None,
    {
        let ghost old_stack = self.source_path_stack@;
        let (selection, back_to) = match self.source_path_stack.pop() {
            Some(top) => top,
            None => {
                return None;
            },
        };
        assert(self.source_path_stack@.map_values(|e: (usize, String)| (e.0, e.1@)) =~= old_stack.map_values(
            |e: (usize, String)| (e.0, e.1@),
        ).drop_last());
        self.curr_path = back_to;
        self.list_state.select(Some(selection));
        Some(self.curr_path.clone())
    }

    /// Puts in the listing of the directory shown.
    pub fn load_listing(&mut self, listing: Vec<FsEntry>)
        ensures
            final(self)@ == old(self)@.with_listing(listing@),
    {
        self.curr_list = listing;
    }
}

impl Default for DirListState {
    fn default() -> (s: Self)
        ensures
            s.curr_path@.len() == 0,
            s.curr_list@.len() == 0,
            s.list_state == (ListSelection { offset: 0, selected: None }),
            s.source_path_stack@.len() == 0,
    {
        DirListState {
            curr_path: String::new(),
            curr_list: Vec::new(),
            list_state: ListSelection::default(),
            source_path_stack: Vec::new(),
        }
    }
}

impl MoveUpDown for DirListState {
    fn move_up(&mut self)
        ensures
            final(self)@ == old(self)@.with_selection(old(self).list_state.after_previous()),
    {
        self.list_state.select_previous();
    }

    fn move_down(&mut self)
        ensures
            final(self)@ == old(self)@.with_selection(old(self).list_state.after_next()),
    {
        self.list_state.select_next();
    }
}

/// A pane that offers the disks to back up to.
pub struct MountListState {
    pub selected_mount: Option<String>,
    pub curr_list: Vec<Mount>,
    pub list_state: ListSelection,
}

impl MountListState {
    /// A pane offering `mounts`, with the first one selected.
    pub fn new(mounts: Vec<Mount>) -> (s: Self)
        ensures
            s.selected_mount is None,
            s.curr_list == mounts,
            s.list_state == (ListSelection { offset: 0, selected: Some(0) }),
    {
        let mut instance = MountListState::default();
        instance.curr_list = mounts;
        instance.list_state.select(Some(0));
        instance
    }
}

impl Default for MountListState {
    fn default() -> (s: Self)
        ensures
            s.selected_mount is None,
            s.curr_list@.len() == 0,
            s.list_state == (ListSelection { offset: 0, selected: None }),
    {
        MountListState { selected_mount: None, curr_list: Vec::new(), list_state: ListSelection::default() }
    }
}

impl MoveUpDown for MountListState {
    fn move_up(&mut self)
        ensures
            final(self).list_state == old(self).list_state.after_previous(),
            final(self).curr_list == old(self).curr_list,
            final(self).selected_mount == old(self).selected_mount,
    {
        self.list_state.select_previous();
    }

    fn move_down(&mut self)
        ensures
            final(self).list_state == old(self).list_state.after_next(),
            final(self).curr_list == old(self).curr_list,
            final(self).selected_mount == old(self).selected_mount,
    {
        self.list_state.select_next();
    }
}

/// A disk pane as a value.
pub struct MountListView {
    pub selected_mount: Option<String>,
    pub curr_list: Seq<Mount>,
    pub list_state: ListSelection,
}

impl View for MountListState {
    type V = MountListView;

    open spec fn view(&self) -> MountListView {
        MountListView {
            selected_mount: self.selected_mount,
            curr_list: self.curr_list@,
            list_state: self.list_state,
        }
    }
}

/// One pane of the browser: a directory list and a disk list, of which the
/// mode says which is shown.
pub struct SubMenuState {
    pub dir_list: DirListState,
    pub mount_list: MountListState,
    pub selected_mount: Option<String>,
    pub menu_mode: MenuMode,
    pub mount_select_allowed: bool,
}

/// A pane as a value.
pub struct SubMenuView {
    pub dir_list: DirListView,
    pub mount_list: MountListView,
    pub selected_mount: Option<String>,
    pub menu_mode: MenuMode,
    pub mount_select_allowed: bool,
}

impl View for SubMenuState {
    type V = SubMenuView;

    open spec fn view(&self) -> SubMenuView {
        SubMenuView {
            dir_list: self.dir_list@,
            mount_list: self.mount_list@,
            selected_mount: self.selected_mount,
            menu_mode: self.menu_mode,
            mount_select_allowed: self.mount_select_allowed,
        }
    }
}

impl SubMenuView {
    /// The selection of the list that the pane shows.
    pub open spec fn shown_selection(self) -> ListSelection {
        if self.menu_mode == MenuMode::Mount {
            self.mount_list.list_state
        } else {
            self.dir_list.list_state
        }
    }

    /// The pane with `s` as the selection of the list it shows.
    pub open spec fn with_shown_selection(self, s: ListSelection) -> SubMenuView {
        if self.menu_mode == MenuMode::Mount {
            SubMenuView { mount_list: MountListView { list_state: s, ..self.mount_list }, ..self }
        } else {
            SubMenuView { dir_list: self.dir_list.with_selection(s), ..self }
        }
    }

    /// The pane with `d` as its directory list.
    pub open spec fn with_dir_list(self, d: DirListView) -> SubMenuView {
        SubMenuView { dir_list: d, ..self }
    }
}

impl SubMenuState {
    /// The pane that `default` gives: empty, showing disks, with nothing
    /// selected anywhere.
    pub open spec fn default_view() -> SubMenuView {
        SubMenuView {
            dir_list: DirListView {
                curr_path: Seq::empty(),
                curr_list: Seq::empty(),
                list_state: ListSelection { offset: 0, selected: None },
                source_path_stack: Seq::empty(),
            },
            mount_list: MountListView {
                selected_mount: None,
                curr_list: Seq::empty(),
                list_state: ListSelection { offset: 0, selected: None },
            },
            selected_mount: None,
            menu_mode: MenuMode::Mount,
            mount_select_allowed: false,
        }
    }

    /// A pane that browses from `start_path` when there is one, showing
    /// `listing` as its listing, and else offers `mounts` as destinations.
    /// Choosing a disk is allowed only in the second case.
    pub fn new(start_path: Option<String>, listing: Vec<FsEntry>, mounts: Vec<Mount>) -> (s: Self)
        ensures
            s.menu_mode == (if start_path is Some { MenuMode::Dir } else { MenuMode::Mount }),
            s.mount_select_allowed == start_path is None,
            s.selected_mount is None,
            s.dir_list.source_path_stack@.len() == 0,
            match start_path {
                Some(p) => s.dir_list.curr_path == p && s.dir_list.curr_list == listing
                    && s.dir_list.list_state == (ListSelection { offset: 0, selected: Some(0) }),
                None => s.dir_list.curr_path@.len() == 0 && s.dir_list.curr_list@.len() == 0
                    && s.dir_list.list_state == (ListSelection { offset: 0, selected: None }),
            },
            s.mount_list.selected_mount is None,
            s.mount_list.curr_list == mounts,
            s.mount_list.list_state == (ListSelection { offset: 0, selected: Some(0) }),
    {
        let mut instance = SubMenuState::default();
        instance.menu_mode = if start_path.is_some() {
            MenuMode::Dir
        } else {
            MenuMode::Mount
        };
        instance.mount_select_allowed = start_path.is_none();
        instance.dir_list = DirListState::new(start_path, listing);
        instance.mount_list = MountListState::new(mounts);
        instance
    }
}

impl Default for SubMenuState {
    fn default() -> (s: Self)
        ensures
            s.dir_list.curr_path@.len() == 0,
            s.dir_list.curr_list@.len() == 0,
            s.dir_list.list_state == (ListSelection { offset: 0, selected: None }),
            s.dir_list.source_path_stack@.len() == 0,
            s.mount_list.selected_mount is None,
            s.mount_list.curr_list@.len() == 0,
            s.mount_list.list_state == (ListSelection { offset: 0, selected: None }),
            s.selected_mount is None,
            s.menu_mode == MenuMode::Mount,
            !s.mount_select_allowed,
            s@ == SubMenuState::default_view(),
    {
        let s = SubMenuState {
            dir_list: DirListState::default(),
            mount_list: MountListState::default(),
            selected_mount: None,
            menu_mode: MenuMode::default(),
            mount_select_allowed: false,
        };
        assert(s.dir_list@.curr_path =~= Seq::empty());
        assert(s.dir_list@.curr_list =~= Seq::empty());
        assert(s.dir_list@.source_path_stack =~= Seq::empty());
        assert(s.mount_list@.curr_list =~= Seq::empty());
        s
    }
}

/// Which part of the screen has the focus.
#[derive(Debug, Clone, Copy, PartialEq, Eq, Structural)]
pub enum SelectedMenu {
    Left,
    Right,
    Bottom,
}

impl Default for SelectedMenu {
    fn default() -> (m: Self)
        ensures
            m == SelectedMenu::Left,
    {
        SelectedMenu::Left
    }
}

/// The focus after a move to the right: left to right, right to the bottom;
/// it stays at the bottom.
pub open spec fn focus_after_right(m: SelectedMenu) -> SelectedMenu {
    match m {
        SelectedMenu::Left => SelectedMenu::Right,
        SelectedMenu::Right => SelectedMenu::Bottom,
        SelectedMenu::Bottom => SelectedMenu::Bottom,
    }
}

/// The focus after a move to the left: the bottom to right, right to left;
/// it stays at the left.
pub open spec fn focus_after_left(m: SelectedMenu) -> SelectedMenu {
    match m {
        SelectedMenu::Left => SelectedMenu::Left,
        SelectedMenu::Right => SelectedMenu::Left,
        SelectedMenu::Bottom => SelectedMenu::Right,
    }
}

/// The whole browser: the directory it started from, the source pane on the
/// left, the destination pane on the right, and the focus.
pub struct AppState {
    pub start_path: String,
    pub left: SubMenuState,
    pub right: SubMenuState,
    pub selected_state: SelectedMenu,
}

/// The browser as a value.
pub struct AppView {
    pub start_path: Seq<char>,
    pub left: SubMenuView,
    pub right: SubMenuView,
    pub selected_state: SelectedMenu,
}

impl View for AppState {
    type V = AppView;

    open spec fn view(&self) -> AppView {
        AppView {
            start_path: self.start_path@,
            left: self.left@,
            right: self.right@,
            selected_state: self.selected_state,
        }
    }
}

impl Default for AppState {
    fn default() -> (s: Self)
        ensures
            s.start_path@.len() == 0,
            s.left@ == SubMenuState::default_view(),
            s.right@ == SubMenuState::default_view(),
            s.selected_state == SelectedMenu::Left,
    {
        AppState {
            start_path: String::new(),
            left: SubMenuState::default(),
            right: SubMenuState::default(),
            selected_state: SelectedMenu::default(),
        }
    }
}

impl AppView {
    /// The pane that keys act on: the right pane when it has the focus,
    /// else the left one (also when the bottom has the focus).
    pub open spec fn focused(self) -> SubMenuView {
        if self.selected_state == SelectedMenu::Right {
            self.right
        } else {
            self.left
        }
    }

    /// The browser with `s` in place of the pane that keys act on.
    pub open spec fn with_focused(self, s: SubMenuView) -> AppView {
        if self.selected_state == SelectedMenu::Right {
            AppView { right: s, ..self }
        } else {
            AppView { left: s, ..self }
        }
    }

    /// After a move up: the selection of the list shown in the pane keys
    /// act on moves up.
    pub open spec fn after_up(self) -> AppView {
        let f = self.focused();
        self.with_focused(f.with_shown_selection(f.shown_selection().after_previous()))
    }

    /// After a move down: the selection of the list shown in the pane keys
    /// act on moves down.
    pub open spec fn after_down(self) -> AppView {
        let f = self.focused();
        self.with_focused(f.with_shown_selection(f.shown_selection().after_next()))
    }

    /// After Enter: a pane browsing directories enters the selected folder.
    pub open spec fn after_enter(self) -> AppView {
        let f = self.focused();
        if f.menu_mode == MenuMode::Dir {
            self.with_focused(f.with_dir_list(f.dir_list.after_move_dir()))
        } else {
            self
        }
    }

    /// Whether Enter enters a folder, so that a listing is to be loaded.
    pub open spec fn enter_loads(self) -> bool {
        self.focused().menu_mode == MenuMode::Dir && self.focused().dir_list.can_enter()
    }

    /// After Escape: a pane browsing directories goes back.
    pub open spec fn after_esc(self) -> AppView {
        let f = self.focused();
        if f.menu_mode == MenuMode::Dir {
            self.with_focused(f.with_dir_list(f.dir_list.after_pop_dir()))
        } else {
            self
        }
    }

    /// Whether Escape leaves a directory, so that a listing is to be loaded.
    pub open spec fn esc_loads(self) -> bool {
        self.focused().menu_mode == MenuMode::Dir && self.focused().dir_list.source_path_stack.len() > 0
    }

    /// After a move to the right (see `focus_after_right`).
    pub open spec fn after_right(self) -> AppView {
        AppView { selected_state: focus_after_right(self.selected_state), ..self }
    }

    /// After a move to the left (see `focus_after_left`).
    pub open spec fn after_left(self) -> AppView {
        AppView { selected_state: focus_after_left(self.selected_state), ..self }
    }

    /// The row whose ignore mark the space key flips: the selected row of
    /// the pane keys act on, when that pane browses directories.
    pub open spec fn space_target(self) -> Option<usize> {
        if self.focused().menu_mode == MenuMode::Dir {
            self.focused().dir_list.list_state.selected
        } else {
            None
        }
    }

    /// The browser with `list` as the listing of the pane keys act on.
    pub open spec fn with_focused_listing(self, list: Seq<FsEntry>) -> AppView {
        let f = self.focused();
        self.with_focused(f.with_dir_list(f.dir_list.with_listing(list)))
    }
}

impl AppState {
    /// The pane that keys act on (see `AppView::focused`).
    pub fn get_state_to_modify(&mut self) -> (s: &mut SubMenuState)
        ensures
            s@ == old(self)@.focused(),
            final(self)@ == old(self)@.with_focused(final(s)@),
    {
        if self.selected_state == SelectedMenu::Left {
            return &mut self.left;
        } else if self.selected_state == SelectedMenu::Right {
            return &mut self.right;
        }
        &mut self.left
    }

    /// The selection of the list that `submenu` shows.
    pub fn get_list_to_move(submenu: &mut SubMenuState) -> (l: &mut ListSelection)
        ensures
            *l == old(submenu)@.shown_selection(),
            final(submenu)@ == old(submenu)@.with_shown_selection(*final(l)),
    {
        if submenu.menu_mode == MenuMode::Mount {
            &mut submenu.mount_list.list_state
        } else {
            &mut submenu.dir_list.list_state
        }
    }

    /// Moves the selection up (see `AppView::after_up`).
    pub fn handle_up(&mut self)
        ensures
            final(self)@ == old(self)@.after_up(),
    {
        let to_modify = self.get_state_to_modify();
        let list = AppState::get_list_to_move(to_modify);
        list.select_previous();
    }

    /// Moves the selection down (see `AppView::after_down`).
    pub fn handle_down(&mut self)
        ensures
            final(self)@ == old(self)@.after_down(),
    {
        let to_modify = self.get_state_to_modify();
        let list = AppState::get_list_to_move(to_modify);
        list.select_next();
    }

    /// Enters the selected folder of the pane keys act on when it browses
    /// directories (see `AppView::after_enter`), and answers the path whose
    /// listing is to be loaded into that pane, if a folder was entered.
    pub fn handle_enter(&mut self) -> (load: Option<String>)
        ensures
            final(self)@ == old(self)@.after_enter(),
            load is Some <==> old(self)@.enter_loads(),
            load is Some ==> load->0@ == final(self)@.focused().dir_list.curr_path,
    {
        let to_modify = self.get_state_to_modify();
        if to_modify.menu_mode == MenuMode::Dir {
            to_modify.dir_list.move_dir()
        } else {
            None
        }
    }

    /// Goes back in the pane keys act on when it browses directories (see
    /// `AppView::after_esc`), and answers the path whose listing is to be
    /// loaded into that pane, if it went back.
    pub fn handle_esc(&mut self) -> (load: Option<String>)
        ensures
            final(self)@ == old(self)@.after_esc(),
            load is Some <==> old(self)@.esc_loads(),
            load is Some ==> load->0@ == final(self)@.focused().dir_list.curr_path,
    {
        let state = self.get_state_to_modify();
        if state.menu_mode == MenuMode::Dir {
            state.dir_list.pop_dir()
        } else {
            None
        }
    }

    /// Moves the focus to the right (see `focus_after_right`).
    pub fn handle_right(&mut self)
        ensures
            final(self)@ == old(self)@.after_right(),
    {
        if self.selected_state == SelectedMenu::Left {
            self.selected_state = SelectedMenu::Right;
            return;
        }
        if self.selected_state == SelectedMenu::Right {
            self.selected_state = SelectedMenu::Bottom;
            return;
        }
    }

    /// Moves the focus to the left (see `focus_after_left`).
    pub fn handle_left(&mut self)
        ensures
            final(self)@ == old(self)@.after_left(),
    {
        if self.selected_state == SelectedMenu::Right {
            self.selected_state = SelectedMenu::Left;
            return;
        }
        if self.selected_state == SelectedMenu::Bottom {
            self.selected_state = SelectedMenu::Right;
            return;
        }
    }

    /// Puts in the listing of the directory shown in the pane keys act on.
    pub fn load_listing(&mut self, listing: Vec<FsEntry>)
        ensures
            final(self)@ == old(self)@.with_focused_listing(listing@),
    {
        let state = self.get_state_to_modify();
        state.dir_list.load_listing(listing);
    }

    /// Flips the ignore mark of the selected entry of the pane keys act on,
    /// when that pane browses directories and has a selection (see
    /// `mark_for_ignore`); answers `None` when there is nothing to mark.
    pub fn handle_space(&mut self, config: &mut BupyConfig) -> (r: Option<Result<(), IgnoreError>>)
        ensures
            match old(self)@.space_target() {
                None => r is None && final(self)@ == old(self)@ && *final(config) == *old(config),
                Some(i) => {
                    let list = old(self)@.focused().dir_list.curr_list;
                    if i < list.len() {
                        &&& r == Some(Ok::<(), IgnoreError>(()))
                        &&& final(self)@ == old(self)@.with_focused_listing(toggled_entries(list, i as int))
                        &&& final(config).ignored_paths() == paths_after_toggle(old(config).ignored_paths(), list[i as int])
                        &&& old(config).wf() ==> final(config).wf()
                        &&& final(config).preselected_drive == old(config).preselected_drive
                        &&& final(config).base_path == old(config).base_path
                    } else {
                        &&& r == Some(Err::<(), IgnoreError>(IgnoreError::NotFound))
                        &&& final(self)@ == old(self)@
                        &&& *final(config) == *old(config)
                    }
                },
            },
    {
        let state = self.get_state_to_modify();
        if state.menu_mode == MenuMode::Dir {
            match state.dir_list.list_state.selected() {
                Some(i) => Some(mark_for_ignore(&mut state.dir_list.curr_list, i, config)),
                None => None,
            }
        } else {
            None
        }
    }
}

/// A key press, as far as the browser tells keys apart.
#[derive(Debug, Clone, Copy, PartialEq, Eq, Structural)]
pub enum KeyInput {
    Char(char),
    Up,
    Down,
    Left,
    Right,
    Esc,
    Enter,
    Other,
}

/// What the browser is asked to do.
#[derive(Debug, Clone, Copy, PartialEq, Eq, Structural)]
pub enum Command {
    Down,
    Up,
    Quit,
    Left,
    Right,
    Back,
    Enter,
    Ignore,
}

/// The command of a key: `j` or Down moves down, `k` or Up moves up, `q`
/// quits, `h` or Left and `l` or Right move the focus, `s` or Escape goes
/// back, `w` or Enter enters a folder, `e` or Space flips an ignore mark.
/// Other keys do nothing.
pub open spec fn key_command(key: KeyInput) -> Option<Command> {
    match key {
        KeyInput::Char('j') | KeyInput::Down => Some(Command::Down),
        KeyInput::Char('k') | KeyInput::Up => Some(Command::Up),
        KeyInput::Char('q') => Some(Command::Quit),
        KeyInput::Char('h') | KeyInput::Left => Some(Command::Left),
        KeyInput::Char('l') | KeyInput::Right => Some(Command::Right),
        KeyInput::Char('s') | KeyInput::Esc => Some(Command::Back),
        KeyInput::Char('w') | KeyInput::Enter => Some(Command::Enter),
        KeyInput::Char('e') | KeyInput::Char(' ') => Some(Command::Ignore),
        _ => None,
    }
}

/// The command of a key (see `key_command`).
pub fn command_for_key(key: KeyInput) -> (c: Option<Command>)
    ensures
        c == key_command(key),
{
    match key {
        KeyInput::Char('j') | KeyInput::Down => Some(Command::Down),
        KeyInput::Char('k') | KeyInput::Up => Some(Command::Up),
        KeyInput::Char('q') => Some(Command::Quit),
        KeyInput::Char('h') | KeyInput::Left => Some(Command::Left),
        KeyInput::Char('l') | KeyInput::Right => Some(Command::Right),
        KeyInput::Char('s') | KeyInput::Esc => Some(Command::Back),
        KeyInput::Char('w') | KeyInput::Enter => Some(Command::Enter),
        KeyInput::Char('e') | KeyInput::Char(' ') => Some(Command::Ignore),
        _ => None,
    }
}

/// What the program around the browser is to do after a key.
#[derive(Debug)]
pub enum KeyEffect {
    /// Nothing: draw again and wait for the next key.
    Continue,
    /// Leave the program.
    Quit,
    /// Load the listing of this directory into the pane keys act on.
    LoadListing(String),
    /// The ignore list changed: write the settings.
    SaveConfig,
    /// An ignore mark could not be flipped.
    IgnoreFailed(IgnoreError),
}

impl AppView {
    /// The browser after a command other than flipping an ignore mark.
    pub open spec fn after_command(self, c: Command) -> AppView {
        match c {
            Command::Down => self.after_down(),
            Command::Up => self.after_up(),
            Command::Left => self.after_left(),
            Command::Right => self.after_right(),
            Command::Back => self.after_esc(),
            Command::Enter => self.after_enter(),
            _ => self,
        }
    }
}

impl AppState {
    /// Acts on one key press: the key's command changes the browser as the
    /// matching handler does, and the answer tells the program what to do
    /// next. A key without a command changes nothing.
    pub fn handle_key(&mut self, key: KeyInput, config: &mut BupyConfig) -> (effect: KeyEffect)
        ensures
            match key_command(key) {
                None => final(self)@ == old(self)@ && *final(config) == *old(config) && effect is Continue,
                Some(Command::Quit) => final(self)@ == old(self)@ && *final(config) == *old(config) && effect is Quit,
                Some(Command::Ignore) => match old(self)@.space_target() {
                    None => final(self)@ == old(self)@ && *final(config) == *old(config) && effect is Continue,
                    Some(i) => {
                        let list = old(self)@.focused().dir_list.curr_list;
                        if i < list.len() {
                            &&& effect is SaveConfig
                            &&& final(self)@ == old(self)@.with_focused_listing(toggled_entries(list, i as int))
                            &&& final(config).ignored_paths() == paths_after_toggle(old(config).ignored_paths(), list[i as int])
                            &&& old(config).wf() ==> final(config).wf()
                            &&& final(config).preselected_drive == old(config).preselected_drive
                            &&& final(config).base_path == old(config).base_path
                        } else {
                            &&& effect matches KeyEffect::IgnoreFailed(IgnoreError::NotFound)
                            &&& final(self)@ == old(self)@
                            &&& *final(config) == *old(config)
                        }
                    },
                },
                Some(c) => {
                    &&& final(self)@ == old(self)@.after_command(c)
                    &&& *final(config) == *old(config)
                    &&& c == Command::Enter ==> (if old(self)@.enter_loads() {
                        effect matches KeyEffect::LoadListing(p) && p@ == final(self)@.focused().dir_list.curr_path
                    } else {
                        effect is Continue
                    })
                    &&& c == Command::Back ==> (if old(self)@.esc_loads() {
                        effect matches KeyEffect::LoadListing(p) && p@ == final(self)@.focused().dir_list.curr_path
                    } else {
                        effect is Continue
                    })
                    &&& c != Command::Enter && c != Command::Back ==> effect is Continue
                },
            },
    {
        match command_for_key(key) {
            None => KeyEffect::Continue,
            Some(Command::Quit) => KeyEffect::Quit,
            Some(Command::Down) => {
                self.handle_down();
                KeyEffect::Continue
            },
            Some(Command::Up) => {
                self.handle_up();
                KeyEffect::Continue
            },
            Some(Command::Left) => {
                self.handle_left();
                KeyEffect::Continue
            },
            Some(Command::Right) => {
                self.handle_right();
                KeyEffect::Continue
            },
            Some(Command::Back) => match self.handle_esc() {
                Some(path) => KeyEffect::LoadListing(path),
                None => KeyEffect::Continue,
            },
            Some(Command::Enter) => match self.handle_enter() {
                Some(path) => KeyEffect::LoadListing(path),
                None => KeyEffect::Continue,
            },
            Some(Command::Ignore) => match self.handle_space(config) {
                None => KeyEffect::Continue,
                Some(Ok(())) => KeyEffect::SaveConfig,
                Some(Err(e)) => KeyEffect::IgnoreFailed(e),
            },
        }
    }
}

/// Moving down and then up comes back to the row selected before, unless the
/// selection stood on the last possible row number.
pub proof fn lemma_down_then_up(s: ListSelection)
    requires
        s.selected is Some,
        s.selected->0 < usize::MAX,
    ensures
        s.after_next().after_previous() == s,
{
}

/// Moving up and then down comes back to the row selected before, unless
/// the selection stood on the first row.
pub proof fn lemma_up_then_down(s: ListSelection)
    requires
        s.selected is Some,
        s.selected->0 > 0,
    ensures
        s.after_previous().after_next() == s,
{
}

/// In the browser, moving down and then up restores the whole state, when
/// the list shown in the pane keys act on has a selection that is not on
/// the last possible row number.
pub proof fn lemma_browser_down_then_up(v: AppView)
    requires
        v.focused().shown_selection().selected is Some,
        v.focused().shown_selection().selected->0 < usize::MAX,
    ensures
        v.after_down().after_up() == v,
{
    lemma_down_then_up(v.focused().shown_selection());
    let f = v.focused();
    let g = f.with_shown_selection(f.shown_selection().after_next());
    assert(v.after_down().focused() == g);
    assert(g.shown_selection() == f.shown_selection().after_next());
    assert(g.with_shown_selection(g.shown_selection().after_previous()) == f);
}

/// Moving the focus right and then left comes back to where it was, unless
/// it was at the bottom; left and then right, unless it was on the left.
pub proof fn lemma_focus_right_left(v: AppView)
    ensures
        v.selected_state != SelectedMenu::Bottom ==> v.after_right().after_left() == v,
        v.selected_state != SelectedMenu::Left ==> v.after_left().after_right() == v,
{
}

/// Going back after entering a folder returns to the directory, the
/// selection and the path history from before, once the directory's
/// listing is loaded again; whatever listing was loaded in between.
pub proof fn lemma_enter_then_back(d: DirListView, inner: Seq<FsEntry>)
    requires
        d.can_enter(),
    ensures
        d.after_move_dir().with_listing(inner).after_pop_dir().with_listing(d.curr_list) == d,
{
    let e = d.after_move_dir().with_listing(inner);
    assert(e.source_path_stack.drop_last() =~= d.source_path_stack);
}

/// In the browser, Escape after an Enter that entered a folder gives back
/// the state from before, once each move has loaded its listing.
pub proof fn lemma_browser_enter_then_back(v: AppView, inner: Seq<FsEntry>)
    requires
        v.enter_loads(),
    ensures
        v.after_enter().with_focused_listing(inner).esc_loads(),
        v.after_enter().with_focused_listing(inner).after_esc().with_focused_listing(v.focused().dir_list.curr_list) == v,
{
    let f = v.focused();
    lemma_enter_then_back(f.dir_list, inner);
    let e = v.after_enter().with_focused_listing(inner);
    assert(e.focused().dir_list == f.dir_list.after_move_dir().with_listing(inner));
    let back = e.after_esc();
    assert(back.focused().dir_list == f.dir_list.after_move_dir().with_listing(inner).after_pop_dir());
}

/// One step down selects the next row (the first when nothing was
/// selected, and it stays on the last possible row number); one step up
/// selects the row before (it stays on the first row, and goes to the last
/// possible row number when nothing was selected). Neither step scrolls.
pub proof fn lemma_selection_steps(s: ListSelection)
    ensures
        s.after_next().offset == s.offset,
        s.after_previous().offset == s.offset,
        s.selected is None ==> s.after_next().selected == Some(0usize),
        s.selected is None ==> s.after_previous().selected == Some(usize::MAX),
        s.selected is Some && s.selected->0 < usize::MAX ==> s.after_next().selected == Some((s.selected->0 + 1) as usize),
        s.selected == Some(usize::MAX) ==> s.after_next().selected == Some(usize::MAX),
        s.selected is Some && s.selected->0 > 0 ==> s.after_previous().selected == Some((s.selected->0 - 1) as usize),
        s.selected == Some(0usize) ==> s.after_previous().selected == Some(0usize),
{
}

/// Selecting a row keeps the scroll position; clearing the selection
/// scrolls back to the top.
pub proof fn lemma_select(s: ListSelection, index: Option<usize>)
    ensures
        s.after_select(index).selected == index,
        index is Some ==> s.after_select(index).offset == s.offset,
        index is None ==> s.after_select(index).offset == 0,
{
}

/// A folder can be entered exactly when a row within the listing is
/// selected and holds a folder, whatever the row; where none can, entering
/// changes nothing.
pub proof fn lemma_can_enter(d: DirListView)
    ensures
        d.can_enter() <==> (d.list_state.selected matches Some(i) && i < d.curr_list.len()
            && d.curr_list[i as int].e_type == FsEntryType::Folder),
        !d.can_enter() ==> d.after_move_dir() == d,
{
}

/// Entering the folder on the selected row `i` shows that folder's path,
/// remembers row `i` and the path left on top of the history, selects the
/// first row, and keeps the listing (until the new one is loaded) and the
/// scroll position.
pub proof fn lemma_enter_folder(d: DirListView, i: usize)
    requires
        d.list_state.selected == Some(i),
        i < d.curr_list.len(),
        d.curr_list[i as int].e_type == FsEntryType::Folder,
    ensures
        d.can_enter(),
        d.after_move_dir().curr_path == d.curr_list[i as int].abs_path@,
        d.after_move_dir().source_path_stack.len() == d.source_path_stack.len() + 1,
        d.after_move_dir().source_path_stack.last() == (i, d.curr_path),
        d.after_move_dir().source_path_stack.drop_last() == d.source_path_stack,
        d.after_move_dir().list_state.selected == Some(0usize),
        d.after_move_dir().list_state.offset == d.list_state.offset,
        d.after_move_dir().curr_list == d.curr_list,
{
    assert(d.after_move_dir().source_path_stack.drop_last() =~= d.source_path_stack);
}

/// Going back shows the path on top of the history with the row kept with
/// it selected, and takes that entry off the history; with no history it
/// changes nothing.
pub proof fn lemma_go_back(d: DirListView)
    ensures
        d.source_path_stack.len() == 0 ==> d.after_pop_dir() == d,
        d.source_path_stack.len() > 0 ==> {
            &&& d.after_pop_dir().curr_path == d.source_path_stack.last().1
            &&& d.after_pop_dir().list_state.selected == Some(d.source_path_stack.last().0)
            &&& d.after_pop_dir().list_state.offset == d.list_state.offset
            &&& d.after_pop_dir().source_path_stack == d.source_path_stack.subrange(0, d.source_path_stack.len() - 1)
            &&& d.after_pop_dir().curr_list == d.curr_list
        },
{
    if d.source_path_stack.len() > 0 {
        assert(d.after_pop_dir().source_path_stack =~= d.source_path_stack.subrange(0, d.source_path_stack.len() - 1));
    }
}

/// The focus moves right from the left pane to the right pane and from the
/// right pane to the bottom, and stays at the bottom; it moves left from the
/// bottom to the right pane and from the right pane to the left pane, and
/// stays on the left pane.
pub proof fn lemma_focus_moves(m: SelectedMenu)
    ensures
        focus_after_right(m) == (if m == SelectedMenu::Left { SelectedMenu::Right } else { SelectedMenu::Bottom }),
        focus_after_left(m) == (if m == SelectedMenu::Bottom { SelectedMenu::Right } else { SelectedMenu::Left }),
{
}

/// Keys act on the right pane when it has the focus, else on the left
/// pane; replacing that pane leaves the other pane, the start path and the
/// focus as they were.
pub proof fn lemma_focused_pane(v: AppView, s: SubMenuView)
    ensures
        v.selected_state == SelectedMenu::Right ==> v.focused() == v.right,
        v.selected_state != SelectedMenu::Right ==> v.focused() == v.left,
        v.selected_state == SelectedMenu::Right ==> v.with_focused(s).right == s && v.with_focused(s).left == v.left,
        v.selected_state != SelectedMenu::Right ==> v.with_focused(s).left == s && v.with_focused(s).right == v.right,
        v.with_focused(s).selected_state == v.selected_state,
        v.with_focused(s).start_path == v.start_path,
        v.with_focused(s).focused() == s,
{
}

/// A pane in disk mode moves its disk list, a pane in directory mode its
/// directory list; the other list and the pane's other facts stay.
pub proof fn lemma_shown_list(p: SubMenuView, x: ListSelection)
    ensures
        p.menu_mode == MenuMode::Mount ==> p.shown_selection() == p.mount_list.list_state,
        p.menu_mode == MenuMode::Dir ==> p.shown_selection() == p.dir_list.list_state,
        p.menu_mode == MenuMode::Mount ==> {
            &&& p.with_shown_selection(x).mount_list.list_state == x
            &&& p.with_shown_selection(x).mount_list.curr_list == p.mount_list.curr_list
            &&& p.with_shown_selection(x).dir_list == p.dir_list
        },
        p.menu_mode == MenuMode::Dir ==> {
            &&& p.with_shown_selection(x).dir_list.list_state == x
            &&& p.with_shown_selection(x).dir_list.curr_list == p.dir_list.curr_list
            &&& p.with_shown_selection(x).dir_list.curr_path == p.dir_list.curr_path
            &&& p.with_shown_selection(x).mount_list == p.mount_list
        },
        p.with_shown_selection(x).menu_mode == p.menu_mode,
        p.with_shown_selection(x).selected_mount == p.selected_mount,
        p.with_shown_selection(x).mount_select_allowed == p.mount_select_allowed,
{
}

/// Moving down or up changes only the selection of the list shown in the
/// pane keys act on, by one step; Enter and Escape change only the
/// directory list of that pane, and only when it is in directory mode.
pub proof fn lemma_browser_moves(v: AppView)
    ensures
        v.after_down().selected_state == v.selected_state,
        v.after_down().focused().shown_selection() == v.focused().shown_selection().after_next(),
        v.after_up().selected_state == v.selected_state,
        v.after_up().focused().shown_selection() == v.focused().shown_selection().after_previous(),
        v.selected_state == SelectedMenu::Right ==> v.after_down().left == v.left && v.after_up().left == v.left,
        v.selected_state != SelectedMenu::Right ==> v.after_down().right == v.right && v.after_up().right == v.right,
        v.focused().menu_mode == MenuMode::Dir ==> v.after_enter().focused().dir_list == v.focused().dir_list.after_move_dir(),
        v.focused().menu_mode == MenuMode::Dir ==> v.after_esc().focused().dir_list == v.focused().dir_list.after_pop_dir(),
        v.focused().menu_mode == MenuMode::Mount ==> v.after_enter() == v && v.after_esc() == v,
        v.enter_loads() <==> (v.focused().menu_mode == MenuMode::Dir && v.focused().dir_list.can_enter()),
        v.esc_loads() <==> (v.focused().menu_mode == MenuMode::Dir && v.focused().dir_list.source_path_stack.len() > 0),
        v.space_target() == (if v.focused().menu_mode == MenuMode::Dir { v.focused().dir_list.list_state.selected } else { None }),
{
    let f = v.focused();
    lemma_focused_pane(v, f.with_shown_selection(f.shown_selection().after_next()));
    lemma_focused_pane(v, f.with_shown_selection(f.shown_selection().after_previous()));
    lemma_shown_list(f, f.shown_selection().after_next());
    lemma_shown_list(f, f.shown_selection().after_previous());
    lemma_focused_pane(v, f.with_dir_list(f.dir_list.after_move_dir()));
    lemma_focused_pane(v, f.with_dir_list(f.dir_list.after_pop_dir()));
}

/// Each command does what its key promises: moves down or up, moves the
/// focus left or right, goes back, enters a folder; quitting and flipping
/// an ignore mark leave the browser's state to the program and to
/// `handle_space`.
pub proof fn lemma_command_effects(v: AppView)
    ensures
        v.after_command(Command::Left).selected_state
            == (if v.selected_state == SelectedMenu::Bottom { SelectedMenu::Right } else { SelectedMenu::Left }),
        v.after_command(Command::Right).selected_state
            == (if v.selected_state == SelectedMenu::Left { SelectedMenu::Right } else { SelectedMenu::Bottom }),
        v.after_command(Command::Left).left == v.left && v.after_command(Command::Left).right == v.right,
        v.after_command(Command::Right).left == v.left && v.after_command(Command::Right).right == v.right,
        v.after_command(Command::Left).start_path == v.start_path,
        v.after_command(Command::Right).start_path == v.start_path,
        v.after_command(Command::Down) == v.after_down(),
        v.after_command(Command::Up) == v.after_up(),
        v.after_command(Command::Back) == v.after_esc(),
        v.after_command(Command::Enter) == v.after_enter(),
        v.after_command(Command::Quit) == v,
        v.after_command(Command::Ignore) == v,
{
}

/// The keys of each command: `j` or Down, `k` or Up, `q`, `h` or Left, `l`
/// or Right, `s` or Escape, `w` or Enter, `e` or Space; no other key has a
/// command.
pub proof fn lemma_key_commands(k: KeyInput)
    ensures
        key_command(k) == Some(Command::Down) <==> (k == KeyInput::Char('j') || k == KeyInput::Down),
        key_command(k) == Some(Command::Up) <==> (k == KeyInput::Char('k') || k == KeyInput::Up),
        key_command(k) == Some(Command::Quit) <==> k == KeyInput::Char('q'),
        key_command(k) == Some(Command::Left) <==> (k == KeyInput::Char('h') || k == KeyInput::Left),
        key_command(k) == Some(Command::Right) <==> (k == KeyInput::Char('l') || k == KeyInput::Right),
        key_command(k) == Some(Command::Back) <==> (k == KeyInput::Char('s') || k == KeyInput::Esc),
        key_command(k) == Some(Command::Enter) <==> (k == KeyInput::Char('w') || k == KeyInput::Enter),
        key_command(k) == Some(Command::Ignore) <==> (k == KeyInput::Char('e') || k == KeyInput::Char(' ')),
{
}

/// Loading a listing or setting a selection changes only that part of a
/// directory pane; putting a listing into the browser changes only the
/// directory list of the pane keys act on.
pub proof fn lemma_pane_updates(d: DirListView, list: Seq<FsEntry>, x: ListSelection, v: AppView, p: SubMenuView)
    ensures
        d.with_listing(list).curr_list == list,
        d.with_listing(list).curr_path == d.curr_path,
        d.with_listing(list).list_state == d.list_state,
        d.with_listing(list).source_path_stack == d.source_path_stack,
        d.with_selection(x).list_state == x,
        d.with_selection(x).curr_list == d.curr_list,
        d.with_selection(x).curr_path == d.curr_path,
        d.with_selection(x).source_path_stack == d.source_path_stack,
        p.with_dir_list(d).dir_list == d,
        p.with_dir_list(d).mount_list == p.mount_list,
        p.with_dir_list(d).menu_mode == p.menu_mode,
        v.with_focused_listing(list).focused().dir_list.curr_list == list,
        v.with_focused_listing(list).focused().dir_list.curr_path == v.focused().dir_list.curr_path,
        v.with_focused_listing(list).focused().dir_list.list_state == v.focused().dir_list.list_state,
        v.with_focused_listing(list).focused().menu_mode == v.focused().menu_mode,
        v.with_focused_listing(list).selected_state == v.selected_state,
{
    let f = v.focused();
    lemma_focused_pane(v, f.with_dir_list(f.dir_list.with_listing(list)));
}

} // verus!
