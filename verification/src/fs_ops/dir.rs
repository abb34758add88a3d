//! Directory entries, the list of paths left out of the back-up, and the
//! ordered listing of a directory.

use vstd::prelude::*;
use vstd::string::*;

use crate::byte_order::{
    lemma_byte_order_equal, lemma_byte_order_range, lemma_byte_order_transitive, str_le, str_le_exec, str_same_place,
    utf8_key,
};

verus! {

/// What a listed path is.
#[derive(Debug, Clone, Copy, PartialEq, Eq, Structural)]
pub enum FsEntryType {
    File,
    Folder,
    HiddenFile,
    ErrorFile,
}

/// One line of a directory listing.
#[derive(Debug)]
pub struct FsEntry {
    pub name: String,
    pub abs_path: String,
    pub error: Option<String>,
    pub ignored: bool,
    pub e_type: FsEntryType,
}

/// An entry with its strings taken as sequences of characters.
pub struct FsEntryView {
    pub name: Seq<char>,
    pub abs_path: Seq<char>,
    pub error: Option<Seq<char>>,
    pub ignored: bool,
    pub e_type: FsEntryType,
}

pub open spec fn opt_str_view(o: Option<String>) -> Option<Seq<char>> {
    match o {
        Some(s) => Some(s@),
        None => None,
    }
}

impl View for FsEntry {
    type V = FsEntryView;

    open spec fn view(&self) -> FsEntryView {
        FsEntryView {
            name: self.name@,
            abs_path: self.abs_path@,
            error: opt_str_view(self.error),
            ignored: self.ignored,
            e_type: self.e_type,
        }
    }
}

/// The views of a sequence of entries.
pub open spec fn entry_views(s: Seq<FsEntry>) -> Seq<FsEntryView> {
    s.map_values(|e: FsEntry| e@)
}

/// The entry that stands for a path that could not be read.
pub open spec fn error_view(err: Seq<char>) -> FsEntryView {
    FsEntryView {
        name: "???"@,
        abs_path: "???"@,
        error: Some(err),
        ignored: false,
        e_type: FsEntryType::ErrorFile,
    }
}

/// What the operating system told about one path of a directory. A field is
/// `None` where it could not be had: a name or a path that is not valid
/// Unicode, or a file type that could not be read.
pub struct DirItem {
    pub name: Option<String>,
    pub abs_path: Option<String>,
    pub is_dir: Option<bool>,
}

/// The entry that a read path becomes, before the ignore list is consulted.
pub open spec fn item_view(item: DirItem) -> FsEntryView {
    match item.name {
        None => error_view("Unparasable name"@),
        Some(name) => match item.abs_path {
            None => error_view("Unparasable path"@),
            Some(path) => match item.is_dir {
                None => error_view("Unknow file type"@),
                Some(is_dir) => FsEntryView {
                    name: name@,
                    abs_path: path@,
                    error: None,
                    ignored: false,
                    e_type: if is_dir {
                        FsEntryType::Folder
                    } else {
                        FsEntryType::File
                    },
                },
            },
        },
    }
}

/// The entry that a listed item becomes: a read path is marked ignored when
/// its path is on the ignore list; a path that could not be read at all
/// becomes an error entry carrying the error's text.
pub open spec fn listed_view(item: Result<DirItem, String>, ignored: Set<Seq<char>>) -> FsEntryView {
    match item {
        Ok(d) => {
            let e = item_view(d);
            FsEntryView {
                name: e.name,
                abs_path: e.abs_path,
                error: e.error,
                ignored: ignored.contains(e.abs_path),
                e_type: e.e_type,
            }
        },
        Err(msg) => error_view(msg@),
    }
}

/// The entries that listed items become, in the order of the items.
pub open spec fn listed_views(items: Seq<Result<DirItem, String>>, ignored: Set<Seq<char>>) -> Seq<FsEntryView> {
    items.map_values(|it: Result<DirItem, String>| listed_view(it, ignored))
}

/// `s` is in ascending order of names, as Rust orders strings.
pub open spec fn sorted_by_name(s: Seq<FsEntryView>) -> bool {
    forall|i: int, j: int| 0 <= i < j < s.len() ==> str_le(#[trigger] s[i].name, #[trigger] s[j].name)
}

/// `output` is `input` sorted by name with a stable sort: `perm[k]` is the
/// place in `input` of `output[k]`, every place is taken once, and entries
/// whose names hold the same place keep their order.
pub open spec fn stable_sort_by_name(
    input: Seq<FsEntryView>,
    output: Seq<FsEntryView>,
    perm: Seq<int>,
) -> bool {
    &&& output.len() == input.len()
    &&& perm.len() == input.len()
    &&& forall|k: int| 0 <= k < perm.len() ==> 0 <= #[trigger] perm[k] < input.len()
    &&& forall|k: int| 0 <= k < perm.len() ==> output[k] == input[#[trigger] perm[k]]
    &&& forall|k: int, l: int| 0 <= k < l < perm.len() ==> #[trigger] perm[k] != #[trigger] perm[l]
    &&& sorted_by_name(output)
    &&& forall|k: int, l: int|
        0 <= k < l < perm.len() && str_same_place(output[k].name, output[l].name)
            ==> #[trigger] perm[k] < #[trigger] perm[l]
}

/// Why an entry could not be marked.
#[derive(Debug, Clone, Copy, PartialEq, Eq, Structural)]
pub enum IgnoreError {
    /// No entry stands at the given place of the listing.
    NotFound,
}

/// The settings kept in the base directory: the paths left out of the
/// back-up, the drive chosen before, and the directory the settings belong
/// to. No path is on the ignore list twice.
pub struct BupyConfig {
    pub ignore_list: Vec<String>,
    pub preselected_drive: Option<String>,
    pub base_path: String,
}

impl BupyConfig {
    /// The paths on the ignore list, as a set.
    pub open spec fn ignored_paths(&self) -> Set<Seq<char>> {
        Set::new(|p: Seq<char>| exists|i: int| 0 <= i < self.ignore_list@.len() && #[trigger] self.ignore_list@[i]@ == p)
    }

    /// No path is on the ignore list twice.
    pub open spec fn wf(&self) -> bool {
        forall|i: int, j: int|
            0 <= i < j < self.ignore_list@.len() ==> #[trigger] self.ignore_list@[i]@ != #[trigger] self.ignore_list@[j]@
    }

    /// Settings for `base_path` that leave nothing out.
    pub fn new(base_path: &str) -> (config: Self)
        ensures
            config.wf(),
            config.ignore_list@.len() == 0,
            config.ignored_paths() == Set::<Seq<char>>::empty(),
            config.preselected_drive is None,
            config.base_path@ == base_path@,
    {
        let config = BupyConfig {
            ignore_list: Vec::new(),
            preselected_drive: None,
            base_path: base_path.to_owned(),
        };
        assert(config.ignored_paths() =~= Set::<Seq<char>>::empty());
        config
    }

    /// The place of `path` on the ignore list, if it is there.
    fn position_of(&self, path: &String) -> (r: Option<usize>)
        ensures
            match r {
                Some(i) => i < self.ignore_list@.len() && self.ignore_list@[i as int]@ == path@,
                None => !self.ignored_paths().contains(path@),
            },
    {
        let mut i: usize = 0;
        while i < self.ignore_list.len()
            invariant
                i <= self.ignore_list@.len(),
                forall|k: int| 0 <= k < i ==> #[trigger] self.ignore_list@[k]@ != path@,
            decreases self.ignore_list@.len() - i,
        {
            if self.ignore_list[i] == *path {
                return Some(i);
            }
            i = i + 1;
        }
        None
    }

    /// Whether `path` is on the ignore list.
    pub fn is_ignored(&self, path: &String) -> (r: bool)
        ensures
            r == self.ignored_paths().contains(path@),
    {
        match self.position_of(path) {
            Some(_) => true,
            None => false,
        }
    }

    /// Puts `path` on the ignore list; nothing changes if it is there already.
    pub fn ignore_path(&mut self, path: String)
        ensures
            final(self).ignored_paths() == old(self).ignored_paths().insert(path@),
            old(self).wf() ==> final(self).wf(),
            final(self).preselected_drive == old(self).preselected_drive,
            final(self).base_path == old(self).base_path,
    {
        if self.position_of(&path).is_none() {
            let ghost before = self.ignore_list@;
            self.ignore_list.push(path);
            assert(self.ignored_paths() =~= old(self).ignored_paths().insert(path@)) by {
                assert forall|p: Seq<char>| #[trigger] self.ignored_paths().contains(p)
                    == old(self).ignored_paths().insert(path@).contains(p) by {
                    if old(self).ignored_paths().contains(p) {
                        let i = choose|i: int| 0 <= i < before.len() && #[trigger] before[i]@ == p;
                        assert(self.ignore_list@[i]@ == p);
                    }
                    if p == path@ {
                        assert(self.ignore_list@[before.len() as int]@ == p);
                    }
                }
            }
        } else {
            assert(self.ignored_paths() =~= old(self).ignored_paths().insert(path@));
        }
    }

    /// Takes every copy of `path` off the ignore list.
    pub fn unignore_path(&mut self, path: &String)
        ensures
            final(self).ignored_paths() == old(self).ignored_paths().remove(path@),
            old(self).wf() ==> final(self).wf(),
            final(self).preselected_drive == old(self).preselected_drive,
            final(self).base_path == old(self).base_path,
    {
        let mut i: usize = 0;
        while i < self.ignore_list.len()
            invariant
                i <= self.ignore_list@.len(),
                forall|k: int| 0 <= k < i ==> #[trigger] self.ignore_list@[k]@ != path@,
                forall|p: Seq<char>|
                    p != path@ ==> (#[trigger] self.ignored_paths().contains(p) == old(self).ignored_paths().contains(p)),
                old(self).wf() ==> self.wf(),
                self.preselected_drive == old(self).preselected_drive,
                self.base_path == old(self).base_path,
            decreases self.ignore_list@.len() - i,
        {
            if self.ignore_list[i] == *path {
                let ghost before = *self;
                self.ignore_list.remove(i);
                assert forall|p: Seq<char>| p != path@ implies
                    (#[trigger] self.ignored_paths().contains(p) == before.ignored_paths().contains(p)) by {
                    if before.ignored_paths().contains(p) {
                        let j = choose|j: int| 0 <= j < before.ignore_list@.len() && #[trigger] before.ignore_list@[j]@ == p;
                        if j < i {
                            assert(self.ignore_list@[j]@ == p);
                        } else {
                            assert(j != i);
                            assert(self.ignore_list@[j - 1]@ == p);
                        }
                    }
                    if self.ignored_paths().contains(p) {
                        let j = choose|j: int| 0 <= j < self.ignore_list@.len() && #[trigger] self.ignore_list@[j]@ == p;
                        if j < i {
                            assert(before.ignore_list@[j]@ == p);
                        } else {
                            assert(before.ignore_list@[j + 1]@ == p);
                        }
                    }
                }
                assert(before.wf() ==> self.wf()) by {
                    if before.wf() {
                        assert forall|a: int, b: int| 0 <= a < b < self.ignore_list@.len() implies
                            #[trigger] self.ignore_list@[a]@ != #[trigger] self.ignore_list@[b]@ by {
                            let a2 = if a < i { a } else { a + 1 };
                            let b2 = if b < i { b } else { b + 1 };
                            assert(self.ignore_list@[a] == before.ignore_list@[a2]);
                            assert(self.ignore_list@[b] == before.ignore_list@[b2]);
                        }
                    }
                }
            } else {
                i = i + 1;
            }
        }
        assert(self.ignored_paths() =~= old(self).ignored_paths().remove(path@)) by {
            assert forall|p: Seq<char>| #[trigger] self.ignored_paths().contains(p)
                == old(self).ignored_paths().remove(path@).contains(p) by {
                if p == path@ && self.ignored_paths().contains(p) {
                    let j = choose|j: int| 0 <= j < self.ignore_list@.len() && #[trigger] self.ignore_list@[j]@ == p;
                    assert(false);
                }
            }
        }
    }
}

impl FsEntry {
    /// The entry that stands for a path that could not be read: named and
    /// placed `???`, with the error's text, never ignored.
    pub fn err_entry(err: String) -> (e: Self)
        ensures
            e@ == error_view(err@),
    {
        FsEntry {
            name: String::from_str("???"),
            abs_path: String::from_str("???"),
            error: Some(err),
            ignored: false,
            e_type: FsEntryType::ErrorFile,
        }
    }

    /// The entry for a read path: an error entry when its name, its path
    /// or its file type could not be had (checked in that order), else a
    /// folder or a file with that name and path, not ignored.
    pub fn from_dir_item(item: DirItem) -> (e: Self)
        ensures
            e@ == item_view(item),
    {
        let DirItem { name, abs_path, is_dir } = item;
        let name = match name {
            Some(n) => n,
            None => {
                return FsEntry::err_entry(String::from_str("Unparasable name"));
            },
        };
        let abs_path = match abs_path {
            Some(p) => p,
            None => {
                return FsEntry::err_entry(String::from_str("Unparasable path"));
            },
        };
        let is_dir = match is_dir {
            Some(d) => d,
            None => {
                return FsEntry::err_entry(String::from_str("Unknow file type"));
            },
        };
        FsEntry {
            name,
            abs_path,
            error: None,
            ignored: false,
            e_type: if is_dir {
                FsEntryType::Folder
            } else {
                FsEntryType::File
            },
        }
    }

    /// The entry for a read path, marked ignored exactly when its path is on
    /// the ignore list of `config`.
    pub fn from_de_and_config(item: DirItem, config: &BupyConfig) -> (e: Self)
        ensures
            e@ == listed_view(Ok(item), config.ignored_paths()),
    {
        let mut instance = FsEntry::from_dir_item(item);
        instance.ignored = config.is_ignored(&instance.abs_path);
        instance
    }
}

/// The entry for one listed item: a read path, or the text of an error met
/// while listing.
fn listed_entry(item: Result<DirItem, String>, config: &BupyConfig) -> (e: FsEntry)
    ensures
        e@ == listed_view(item, config.ignored_paths()),
{
    match item {
        Ok(de) => FsEntry::from_de_and_config(de, config),
        Err(msg) => FsEntry::err_entry(msg),
    }
}

/// The place in `out` where `e` goes so that `out` stays sorted and `e`
/// comes before every entry whose name holds the same place as its own.
fn insertion_place(out: &Vec<FsEntry>, e: &FsEntry) -> (pos: usize)
    ensures
        pos <= out@.len(),
        forall|j: int| 0 <= j < pos ==> !str_le(e.name@, #[trigger] out@[j].name@),
        pos < out@.len() ==> str_le(e.name@, out@[pos as int].name@),
{
    let mut pos: usize = 0;
    while pos < out.len()
        invariant
            pos <= out@.len(),
            forall|j: int| 0 <= j < pos ==> !str_le(e.name@, #[trigger] out@[j].name@),
        decreases out@.len() - pos,
    {
        if str_le_exec(e.name.as_str(), out[pos].name.as_str()) {
            return pos;
        }
        pos = pos + 1;
    }
    pos
}

/// A directory's listing: each item becomes its entry (see `listed_view`),
/// and the entries are sorted by name, as Rust orders strings, with a
/// stable sort.
pub fn list_dir_own(items: Vec<Result<DirItem, String>>, config: &BupyConfig) -> (out: Vec<FsEntry>)
    ensures
        exists|perm: Seq<int>|
            #[trigger] stable_sort_by_name(
                listed_views(items@, config.ignored_paths()),
                entry_views(out@),
                perm,
            ),
{
    let ghost paths = config.ignored_paths();
    let ghost input = listed_views(items@, paths);
    let ghost n = items@.len();
    let ghost original = items@;
    let mut items = items;
    let mut out: Vec<FsEntry> = Vec::new();
    let ghost mut perm: Seq<int> = Seq::empty();
    while items.len() > 0
        invariant
            paths == config.ignored_paths(),
            input.len() == n,
            original.len() == n,
            forall|k: int| 0 <= k < n ==> #[trigger] input[k] == listed_view(original[k], paths),
            items@.len() <= n,
            forall|k: int| 0 <= k < items@.len() ==> #[trigger] items@[k] == original[k],
            out@.len() + items@.len() == n,
            perm.len() == out@.len(),
            forall|k: int| 0 <= k < perm.len() ==> items@.len() <= #[trigger] perm[k] < n,
            forall|k: int| 0 <= k < perm.len() ==> out@[k]@ == input[#[trigger] perm[k]],
            forall|k: int, l: int| 0 <= k < l < perm.len() ==> #[trigger] perm[k] != #[trigger] perm[l],
            sorted_by_name(entry_views(out@)),
            forall|k: int, l: int|
                0 <= k < l < perm.len() && str_same_place(out@[k].name@, out@[l].name@)
                    ==> #[trigger] perm[k] < #[trigger] perm[l],
        decreases items@.len(),
    {
        let item = items.pop().unwrap();
        let ghost m = items@.len() as int;
        let entry = listed_entry(item, config);
        let pos = insertion_place(&out, &entry);
        let ghost old_out = out@;
        let ghost old_perm = perm;
        out.insert(pos, entry);
        proof {
            perm = old_perm.insert(pos as int, m);
            assert(out@[pos as int] == entry);
            assert forall|k: int| 0 <= k < out@.len() implies
                #[trigger] out@[k] == (if k < pos { old_out[k] } else if k == pos { entry } else { old_out[k - 1] }) by {}
            assert forall|k: int| 0 <= k < perm.len() implies
                #[trigger] perm[k] == (if k < pos { old_perm[k] } else if k == pos { m } else { old_perm[k - 1] }) by {}
            assert(entry@ == input[m]);
            // sortedness
            assert forall|i: int, j: int| 0 <= i < j < out@.len() implies
                str_le(#[trigger] entry_views(out@)[i].name, #[trigger] entry_views(out@)[j].name) by {
                let a = out@[i].name@;
                let b = out@[j].name@;
                lemma_byte_order_range(utf8_key(entry.name@), utf8_key(a));
                lemma_byte_order_range(utf8_key(entry.name@), utf8_key(b));
                if j == pos {
                    // i < pos: old_out[i] comes strictly before entry
                    assert(!str_le(entry.name@, old_out[i].name@));
                } else if i == pos {
                    let pj = old_out[j - 1].name@;
                    assert(str_le(entry.name@, old_out[pos as int].name@));
                    if j - 1 > pos {
                        assert(str_le(entry_views(old_out)[pos as int].name, entry_views(old_out)[j - 1].name));
                        lemma_byte_order_transitive(utf8_key(entry.name@), utf8_key(old_out[pos as int].name@), utf8_key(pj));
                    }
                } else {
                    let i2 = if i < pos { i } else { i - 1 };
                    let j2 = if j < pos { j } else { j - 1 };
                    assert(str_le(entry_views(old_out)[i2].name, entry_views(old_out)[j2].name));
                }
            }
            // stability
            assert forall|k: int, l: int|
                0 <= k < l < perm.len() && str_same_place(out@[k].name@, out@[l].name@)
                    implies #[trigger] perm[k] < #[trigger] perm[l] by {
                if l == pos {
                    assert(!str_le(entry.name@, old_out[k].name@));
                    lemma_byte_order_range(utf8_key(entry.name@), utf8_key(old_out[k].name@));
                } else if k == pos {
                    assert(perm[l] == old_perm[l - 1]);
                } else {
                    let k2 = if k < pos { k } else { k - 1 };
                    let l2 = if l < pos { l } else { l - 1 };
                    assert(perm[k] == old_perm[k2]);
                    assert(perm[l] == old_perm[l2]);
                }
            }
            assert forall|k: int, l: int| 0 <= k < l < perm.len() implies #[trigger] perm[k] != #[trigger] perm[l] by {
                if k != pos && l != pos {
                    let k2 = if k < pos { k } else { k - 1 };
                    let l2 = if l < pos { l } else { l - 1 };
                    assert(old_perm[k2] != old_perm[l2]);
                }
            }
            assert forall|k: int| 0 <= k < perm.len() implies out@[k]@ == input[#[trigger] perm[k]] by {
                if k < pos {
                    assert(old_out[k]@ == input[old_perm[k]]);
                } else if k > pos {
                    assert(old_out[k - 1]@ == input[old_perm[k - 1]]);
                }
            }
        }
    }
    proof {
        assert(items@.len() == 0);
        assert forall|k: int| 0 <= k < perm.len() implies entry_views(out@)[k] == input[#[trigger] perm[k]] by {}
        assert(stable_sort_by_name(input, entry_views(out@), perm));
    }
    out
}

/// `e` with its ignore mark set to `ignored`.
pub open spec fn with_ignored(e: FsEntry, ignored: bool) -> FsEntry {
    FsEntry { name: e.name, abs_path: e.abs_path, error: e.error, ignored, e_type: e.e_type }
}

/// The listing after the mark of the entry at `index` is flipped.
pub open spec fn toggled_entries(list: Seq<FsEntry>, index: int) -> Seq<FsEntry> {
    list.update(index, with_ignored(list[index], !list[index].ignored))
}

/// The ignore list after the mark of `e` is flipped: its path joins the list
/// when `e` was not ignored, and leaves it when `e` was.
pub open spec fn paths_after_toggle(paths: Set<Seq<char>>, e: FsEntry) -> Set<Seq<char>> {
    if !e.ignored {
        paths.insert(e.abs_path@)
    } else {
        paths.remove(e.abs_path@)
    }
}

/// Flips the ignore mark of the entry at `index` and brings the ignore list
/// of `config` in line with it: its path is put on the list when the entry
/// is now ignored, and taken off when it is not. An `index` past the end of
/// the listing changes nothing and is answered with `NotFound`.
pub fn mark_for_ignore(list: &mut Vec<FsEntry>, index: usize, config: &mut BupyConfig) -> (r: Result<(), IgnoreError>)
    ensures
        index >= old(list)@.len() ==> {
            &&& r == Err::<(), IgnoreError>(IgnoreError::NotFound)
            &&& final(list)@ == old(list)@
            &&& *final(config) == *old(config)
        },
        index < old(list)@.len() ==> {
            &&& r == Ok::<(), IgnoreError>(())
            &&& final(list)@ == toggled_entries(old(list)@, index as int)
            &&& final(config).ignored_paths() == paths_after_toggle(old(config).ignored_paths(), old(list)@[index as int])
            &&& old(config).wf() ==> final(config).wf()
            &&& final(config).preselected_drive == old(config).preselected_drive
            &&& final(config).base_path == old(config).base_path
        },
{
    if index < list.len() {
        let now_ignored = !list[index].ignored;
        list[index].ignored = now_ignored;
        let path = list[index].abs_path.clone();
        if now_ignored {
            config.ignore_path(path);
        } else {
            config.unignore_path(&path);
        }
        assert(list@ =~= toggled_entries(old(list)@, index as int));
        Ok(())
    } else {
        Err(IgnoreError::NotFound)
    }
}

/// The settings to start with: those read from the settings file of
/// `base_path` when it could be read and understood, else new ones.
pub fn get_config_instance(base_path: &str, stored: Option<BupyConfig>) -> (config: BupyConfig)
    ensures
        match stored {
            Some(c) => config == c,
            None => config.ignore_list@.len() == 0 && config.preselected_drive is None
                && config.base_path@ == base_path@,
        },
{
    match stored {
        Some(c) => c,
        None => BupyConfig::new(base_path),
    }
}

/// Sets the settings once: an empty `slot` takes the settings for
/// `base_path` (see `get_config_instance`); a filled one is kept as it is.
pub fn init_config(slot: &mut Option<BupyConfig>, base_path: &str, stored: Option<BupyConfig>)
    ensures
        (*old(slot)) is Some ==> *final(slot) == *old(slot),
        (*old(slot)) is None ==> ((*final(slot)) is Some && match stored {
            Some(c) => (*final(slot))->0 == c,
            None => (*final(slot))->0.ignore_list@.len() == 0 && (*final(slot))->0.preselected_drive is None
                && (*final(slot))->0.base_path@ == base_path@,
        }),
{
    if slot.is_none() {
        *slot = Some(get_config_instance(base_path, stored));
    }
}

/// The settings set by `init_config`.
pub fn get_config(slot: &Option<BupyConfig>) -> (config: &BupyConfig)
    requires
        (*slot) is Some,
    ensures
        *config == (*slot)->0,
{
    slot.as_ref().unwrap()
}

/// What a read path becomes: an error entry, named and placed `???` and not
/// ignored, whose text names the first fact that could not be had (the name,
/// then the path, then the file type); else an entry with that name and
/// path, no error, not ignored, a folder exactly when the path is a
/// directory and a file otherwise, whatever its name.
pub proof fn lemma_item_entry(item: DirItem)
    ensures
        item.name is None ==> {
            &&& item_view(item).e_type == FsEntryType::ErrorFile
            &&& item_view(item).error == Some("Unparasable name"@)
            &&& item_view(item).name == "???"@
            &&& item_view(item).abs_path == "???"@
            &&& !item_view(item).ignored
        },
        item.name is Some && item.abs_path is None ==> {
            &&& item_view(item).e_type == FsEntryType::ErrorFile
            &&& item_view(item).error == Some("Unparasable path"@)
            &&& item_view(item).name == "???"@
            &&& item_view(item).abs_path == "???"@
            &&& !item_view(item).ignored
        },
        item.name is Some && item.abs_path is Some && item.is_dir is None ==> {
            &&& item_view(item).e_type == FsEntryType::ErrorFile
            &&& item_view(item).error == Some("Unknow file type"@)
            &&& item_view(item).name == "???"@
            &&& item_view(item).abs_path == "???"@
            &&& !item_view(item).ignored
        },
        item.name is Some && item.abs_path is Some && item.is_dir is Some ==> {
            &&& item_view(item).e_type == (if item.is_dir->0 { FsEntryType::Folder } else { FsEntryType::File })
            &&& item_view(item).name == item.name->0@
            &&& item_view(item).abs_path == item.abs_path->0@
            &&& item_view(item).error is None
            &&& !item_view(item).ignored
        },
{
}

/// What a listed item becomes: a read path is listed as its entry, marked
/// ignored exactly when its entry's path is on the ignore list; an error met
/// while listing becomes an error entry named and placed `???` with the
/// error's text.
pub proof fn lemma_listed_entry(item: Result<DirItem, String>, ignored: Set<Seq<char>>)
    ensures
        item matches Ok(d) ==> {
            let e = item_view(d);
            let l = listed_view(item, ignored);
            &&& l.name == e.name
            &&& l.abs_path == e.abs_path
            &&& l.error == e.error
            &&& l.e_type == e.e_type
            &&& l.ignored == ignored.contains(e.abs_path)
        },
        item matches Err(msg) ==> {
            let l = listed_view(item, ignored);
            &&& l.name == "???"@
            &&& l.abs_path == "???"@
            &&& l.error == Some(msg@)
            &&& l.e_type == FsEntryType::ErrorFile
            &&& !l.ignored
        },
{
}

/// A sorted listing holds every entry of what was listed: each item's entry
/// stands at some place of the listing.
pub proof fn lemma_sorted_listing_holds_every_entry(
    input: Seq<FsEntryView>,
    output: Seq<FsEntryView>,
    perm: Seq<int>,
)
    requires
        stable_sort_by_name(input, output, perm),
    ensures
        forall|k: int| 0 <= k < input.len() ==> #[trigger] output.contains(input[k]),
{
    let n = input.len() as int;
    assert(perm.no_duplicates()) by {
        assert forall|i: int, j: int| 0 <= i < perm.len() && 0 <= j < perm.len() && i != j implies perm[i] != perm[j] by {
            if i < j {
                assert(perm[i] != perm[j]);
            } else {
                assert(perm[j] != perm[i]);
            }
        }
    }
    perm.unique_seq_to_set();
    vstd::set_lib::lemma_int_range(0, n);
    let range = vstd::set_lib::set_int_range(0, n);
    assert(perm.to_set().subset_of(range)) by {
        assert forall|x: int| perm.to_set().contains(x) implies range.contains(x) by {
            let j = choose|j: int| 0 <= j < perm.len() && perm[j] == x;
            assert(0 <= perm[j] < n);
        }
    }
    assert(perm.to_set().finite()) by {
        vstd::set_lib::lemma_set_subset_finite(range, perm.to_set());
    }
    vstd::set_lib::lemma_subset_equality(perm.to_set(), range);
    assert forall|k: int| 0 <= k < input.len() implies #[trigger] output.contains(input[k]) by {
        assert(range.contains(k));
        assert(perm.to_set().contains(k));
        let j = choose|j: int| 0 <= j < perm.len() && perm[j] == k;
        assert(output[j] == input[perm[j]]);
        assert(0 <= j < output.len() && output[j] == input[k]);
    }
}

/// A sorted listing starts with an entry whose name comes no later than the
/// name of any listed item.
pub proof fn lemma_sorted_listing_starts_with_least(
    input: Seq<FsEntryView>,
    output: Seq<FsEntryView>,
    perm: Seq<int>,
)
    requires
        stable_sort_by_name(input, output, perm),
        input.len() > 0,
    ensures
        forall|k: int| 0 <= k < input.len() ==> str_le(output[0].name, #[trigger] input[k].name),
{
    lemma_sorted_listing_holds_every_entry(input, output, perm);
    assert forall|k: int| 0 <= k < input.len() implies str_le(output[0].name, #[trigger] input[k].name) by {
        assert(output.contains(input[k]));
        let j = choose|j: int| 0 <= j < output.len() && output[j] == input[k];
        if j == 0 {
            lemma_byte_order_equal(utf8_key(output[0].name), utf8_key(output[0].name));
        } else {
            assert(str_le(output[0].name, output[j].name));
        }
    }
}

/// A sorted listing keeps entries of the same name in the order in which
/// they were listed: when the item listed first stands at place `j1` and
/// the one listed later at `j2`, then `j1` comes before `j2`.
pub proof fn lemma_sorted_listing_keeps_order_of_equal_names(
    input: Seq<FsEntryView>,
    output: Seq<FsEntryView>,
    perm: Seq<int>,
    j1: int,
    j2: int,
)
    requires
        stable_sort_by_name(input, output, perm),
        0 <= j1 < output.len(),
        0 <= j2 < output.len(),
        perm[j1] < perm[j2],
        output[j1].name == output[j2].name,
    ensures
        j1 < j2,
{
    crate::byte_order::lemma_same_place_is_equal(output[j1].name, output[j2].name);
    crate::byte_order::lemma_same_place_is_equal(output[j2].name, output[j1].name);
    if j2 < j1 {
        assert(perm[j2] < perm[j1]);
    }
}

/// The settings are well formed exactly when no path is on the ignore list
/// twice.
pub proof fn lemma_config_wf(c: BupyConfig)
    ensures
        c.wf() <==> (forall|i: int, j: int|
            0 <= i < c.ignore_list@.len() && 0 <= j < c.ignore_list@.len() && i != j
                ==> #[trigger] c.ignore_list@[i]@ != #[trigger] c.ignore_list@[j]@),
        forall|p: Seq<char>| #[trigger] c.ignored_paths().contains(p)
            <==> exists|i: int| 0 <= i < c.ignore_list@.len() && c.ignore_list@[i]@ == p,
{
    if c.wf() {
        assert forall|i: int, j: int|
            0 <= i < c.ignore_list@.len() && 0 <= j < c.ignore_list@.len() && i != j
                implies #[trigger] c.ignore_list@[i]@ != #[trigger] c.ignore_list@[j]@ by {
            if i < j {
                assert(c.ignore_list@[i]@ != c.ignore_list@[j]@);
            } else {
                assert(c.ignore_list@[j]@ != c.ignore_list@[i]@);
            }
        }
    }
}

/// A listing's entries stand one for one with the listed items, and the
/// views of a sequence of entries stand one for one with the entries.
pub proof fn lemma_views_one_for_one(items: Seq<Result<DirItem, String>>, ignored: Set<Seq<char>>, es: Seq<FsEntry>)
    ensures
        listed_views(items, ignored).len() == items.len(),
        forall|k: int| 0 <= k < items.len() ==> #[trigger] listed_views(items, ignored)[k] == listed_view(items[k], ignored),
        entry_views(es).len() == es.len(),
        forall|k: int| 0 <= k < es.len() ==> #[trigger] entry_views(es)[k] == es[k]@,
{
}

/// Flipping the ignore mark of the same entry twice gives back the listing
/// and the ignore list it started from, when the entry's mark agreed with
/// the ignore list to begin with.
pub proof fn lemma_toggle_twice_restores(list: Seq<FsEntry>, index: int, paths: Set<Seq<char>>)
    requires
        0 <= index < list.len(),
        list[index].ignored == paths.contains(list[index].abs_path@),
    ensures
        toggled_entries(toggled_entries(list, index), index) == list,
        paths_after_toggle(paths_after_toggle(paths, list[index]), toggled_entries(list, index)[index]) == paths,
{
    let once = toggled_entries(list, index);
    assert(toggled_entries(once, index) =~= list);
    let p = list[index].abs_path@;
    if list[index].ignored {
        assert(paths.remove(p).insert(p) =~= paths);
    } else {
        assert(paths.insert(p).remove(p) =~= paths);
    }
}

/// After its mark is flipped, an entry is ignored exactly when its path is
/// on the ignore list, whatever the list held before.
pub proof fn lemma_toggle_agrees(list: Seq<FsEntry>, index: int, paths: Set<Seq<char>>)
    requires
        0 <= index < list.len(),
    ensures
        toggled_entries(list, index)[index].ignored
            == paths_after_toggle(paths, list[index]).contains(list[index].abs_path@),
        toggled_entries(list, index)[index].ignored == !list[index].ignored,
        toggled_entries(list, index)[index].name == list[index].name,
        toggled_entries(list, index)[index].abs_path == list[index].abs_path,
        toggled_entries(list, index)[index].error == list[index].error,
        toggled_entries(list, index)[index].e_type == list[index].e_type,
        paths_after_toggle(paths, list[index]).contains(list[index].abs_path@) == !list[index].ignored,
        forall|p: Seq<char>| p != list[index].abs_path@ ==> #[trigger] paths_after_toggle(paths, list[index]).contains(p) == paths.contains(p),
        toggled_entries(list, index).len() == list.len(),
        forall|k: int| 0 <= k < list.len() && k != index ==> #[trigger] toggled_entries(list, index)[k] == list[k],
{
}

/// In a listing, every path that could be read is marked ignored exactly
/// when it is on the ignore list.
pub proof fn lemma_listing_agrees_with_ignore_list(
    items: Seq<Result<DirItem, String>>,
    ignored: Set<Seq<char>>,
    k: int,
)
    requires
        0 <= k < items.len(),
        items[k] is Ok,
        item_view(items[k]->Ok_0).e_type != FsEntryType::ErrorFile,
    ensures
        listed_views(items, ignored)[k].ignored == ignored.contains(listed_views(items, ignored)[k].abs_path),
        listed_views(items, ignored)[k].error is None,
{
}

/// A flipped mark is kept when the directory is listed again with the
/// ignore list that the flip produced: the item is listed with the new mark.
pub proof fn lemma_mark_survives_relisting(item: DirItem, paths: Set<Seq<char>>, e: FsEntry)
    requires
        e@ == listed_view(Ok(item), paths),
    ensures
        with_ignored(e, !e.ignored)@ == listed_view(Ok(item), paths_after_toggle(paths, e)),
{
}

} // verus!
