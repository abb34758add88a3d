//! What the screen shows of an entry and of a disk size.

pub mod state;

use vstd::prelude::*;
use vstd::string::*;

use crate::fs_ops::dir::{FsEntry, FsEntryType};

verus! {

/// The mark put before the name of a folder; other entries have none.
pub open spec fn entry_icon(t: FsEntryType) -> Seq<char> {
    if t == FsEntryType::Folder {
        "\u{1F5C0}"@
    } else {
        Seq::empty()
    }
}

/// The line that shows an entry: its icon, a space, and its name.
pub fn file_name(entry: &FsEntry) -> (line: String)
    ensures
        line@ == entry_icon(entry.e_type) + " "@ + entry.name@,
{
    let mut line = match entry.e_type {
        FsEntryType::Folder => String::from_str("\u{1F5C0}"),
        _ => String::new(),
    };
    line.append(" ");
    line.append(entry.name.as_str());
    line
}

/// The number of bytes in one unit of the given rank: 1000 to the power of
/// the rank.
pub open spec fn unit_bytes(unit: int) -> int {
    if unit <= 0 {
        1
    } else if unit == 1 {
        1_000
    } else if unit == 2 {
        1_000_000
    } else if unit == 3 {
        1_000_000_000
    } else if unit == 4 {
        1_000_000_000_000
    } else {
        1_000_000_000_000_000
    }
}

/// The names of the units, from bytes to terabytes.
pub open spec fn unit_names() -> Seq<Seq<char>> {
    seq!["B"@, "KB"@, "MB"@, "GB"@, "TB"@]
}

/// The unit in which a size is shown: the largest of bytes, kilobytes,
/// megabytes, gigabytes and terabytes (decimal) of which the size holds at
/// least one, bytes for a size under a kilobyte.
pub fn size_unit(size: u64) -> (unit: usize)
    ensures
        unit <= 4,
        unit == 0 || unit_bytes(unit as int) <= size,
        unit == 4 || size < unit_bytes(unit + 1),
{
    if size >= 1_000_000_000_000 {
        4
    } else if size >= 1_000_000_000 {
        3
    } else if size >= 1_000_000 {
        2
    } else if size >= 1_000 {
        1
    } else {
        0
    }
}

/// The name of a unit.
pub fn unit_name(unit: usize) -> (name: &'static str)
    requires
        unit <= 4,
    ensures
        name@ == unit_names()[unit as int],
{
    if unit == 0 {
        "B"
    } else if unit == 1 {
        "KB"
    } else if unit == 2 {
        "MB"
    } else if unit == 3 {
        "GB"
    } else {
        "TB"
    }
}

/// Units are decimal: a byte is the first unit, and each unit is a
/// thousand of the one before.
pub proof fn lemma_unit_bytes_decimal(unit: int)
    requires
        0 <= unit < 5,
    ensures
        unit_bytes(0) == 1,
        unit_bytes(unit + 1) == 1000 * unit_bytes(unit),
{
}

/// The units are named B, KB, MB, GB and TB, in that order.
pub proof fn lemma_unit_names()
    ensures
        unit_names().len() == 5,
        unit_names()[0] == seq!['B'],
        unit_names()[1] == seq!['K', 'B'],
        unit_names()[2] == seq!['M', 'B'],
        unit_names()[3] == seq!['G', 'B'],
        unit_names()[4] == seq!['T', 'B'],
{
    reveal_strlit("B");
    reveal_strlit("KB");
    reveal_strlit("MB");
    reveal_strlit("GB");
    reveal_strlit("TB");
    assert("B"@ =~= seq!['B']);
    assert("KB"@ =~= seq!['K', 'B']);
    assert("MB"@ =~= seq!['M', 'B']);
    assert("GB"@ =~= seq!['G', 'B']);
    assert("TB"@ =~= seq!['T', 'B']);
}

/// A folder is shown with the folder sign before its name; every other
/// entry with nothing before the space.
pub proof fn lemma_entry_icon(t: FsEntryType)
    ensures
        t == FsEntryType::Folder ==> entry_icon(t) == seq!['\u{1F5C0}'],
        t != FsEntryType::Folder ==> entry_icon(t).len() == 0,
{
    reveal_strlit("\u{1F5C0}");
    assert("\u{1F5C0}"@ =~= seq!['\u{1F5C0}']);
}

} // verus!
