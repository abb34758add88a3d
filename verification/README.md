# backyupy

A small back-up selector: a two-pane terminal browser in which the files and
folders to leave out of a back-up are marked, and a removable disk is chosen
as the destination.

- `src/` is the library, verified with Verus:
  - `byte_order.rs`: the order in which names are sorted (byte order of their
    UTF-8 text) and its comparison;
  - `fs_ops/dir.rs`: directory entries, the settings with their ignore list,
    the sorted listing of a directory, and marking an entry as ignored;
  - `fs_ops/mounts.rs`: which disks are offered as destinations;
  - `ui/mod.rs`: the line shown for an entry and the unit of a disk size;
  - `ui/state/mod.rs`: the browser's state and what each key does to it.
- `app/` is the program: command line, reading directories and disks,
  reading and writing the settings file, and drawing with ratatui.
- `tests/` runs the library on concrete values.
