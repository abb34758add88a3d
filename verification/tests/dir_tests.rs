use backyupy::byte_order::{compare_str, str_le_exec};
use backyupy::fs_ops::dir::{
    get_config, get_config_instance, init_config, list_dir_own, mark_for_ignore, BupyConfig, DirItem,
    FsEntry, FsEntryType, IgnoreError,
};

fn item(name: &str, path: &str, is_dir: bool) -> DirItem {
    DirItem { name: Some(name.to_string()), abs_path: Some(path.to_string()), is_dir: Some(is_dir) }
}

fn config_with(paths: &[&str]) -> BupyConfig {
    let mut c = BupyConfig::new("/base");
    for p in paths {
        c.ignore_path(p.to_string());
    }
    c
}

#[test]
fn compare_str_orders_by_utf8_bytes() {
    assert_eq!(compare_str("a", "b"), -1);
    assert_eq!(compare_str("b", "a"), 1);
    assert_eq!(compare_str("abc", "abc"), 0);
    assert_eq!(compare_str("ab", "abc"), -1);
    assert_eq!(compare_str("", ""), 0);
    assert_eq!(compare_str("Z", "a"), -1);
    assert_eq!(compare_str("\u{e9}", "z"), 1);
    assert!(str_le_exec("same", "same"));
    assert!(!str_le_exec("b", "a"));
}

#[test]
fn err_entry_is_named_and_placed_unknown() {
    let e = FsEntry::err_entry("boom".to_string());
    assert_eq!(e.name, "???");
    assert_eq!(e.abs_path, "???");
    assert_eq!(e.error, Some("boom".to_string()));
    assert!(!e.ignored);
    assert_eq!(e.e_type, FsEntryType::ErrorFile);
}

#[test]
fn from_dir_item_checks_name_then_path_then_type() {
    let e = FsEntry::from_dir_item(DirItem { name: None, abs_path: None, is_dir: None });
    assert_eq!(e.error, Some("Unparasable name".to_string()));
    let e = FsEntry::from_dir_item(DirItem { name: Some("x".to_string()), abs_path: None, is_dir: None });
    assert_eq!(e.error, Some("Unparasable path".to_string()));
    let e = FsEntry::from_dir_item(DirItem {
        name: Some("x".to_string()),
        abs_path: Some("/d/x".to_string()),
        is_dir: None,
    });
    assert_eq!(e.error, Some("Unknow file type".to_string()));
    assert_eq!(e.e_type, FsEntryType::ErrorFile);
    let e = FsEntry::from_dir_item(item("x", "/d/x", true));
    assert_eq!(e.e_type, FsEntryType::Folder);
    assert_eq!(e.name, "x");
    assert_eq!(e.abs_path, "/d/x");
    assert_eq!(e.error, None);
    let e = FsEntry::from_dir_item(item("y", "/d/y", false));
    assert_eq!(e.e_type, FsEntryType::File);
}

#[test]
fn from_de_and_config_marks_ignored_paths() {
    let c = config_with(&["/d/x"]);
    assert!(FsEntry::from_de_and_config(item("x", "/d/x", false), &c).ignored);
    assert!(!FsEntry::from_de_and_config(item("y", "/d/y", false), &c).ignored);
}

#[test]
fn config_set_operations() {
    let mut c = BupyConfig::new("/base");
    assert_eq!(c.base_path, "/base");
    assert!(c.ignore_list.is_empty());
    assert_eq!(c.preselected_drive, None);
    c.ignore_path("/a".to_string());
    c.ignore_path("/a".to_string());
    c.ignore_path("/b".to_string());
    assert_eq!(c.ignore_list.len(), 2);
    assert!(c.is_ignored(&"/a".to_string()));
    c.unignore_path(&"/a".to_string());
    assert!(!c.is_ignored(&"/a".to_string()));
    assert!(c.is_ignored(&"/b".to_string()));
    c.unignore_path(&"/zzz".to_string());
    assert_eq!(c.ignore_list, vec!["/b".to_string()]);
}

#[test]
fn unignore_removes_every_copy() {
    let mut c = BupyConfig {
        ignore_list: vec!["/a".to_string(), "/b".to_string(), "/a".to_string()],
        preselected_drive: None,
        base_path: "/".to_string(),
    };
    c.unignore_path(&"/a".to_string());
    assert_eq!(c.ignore_list, vec!["/b".to_string()]);
}

#[test]
fn listing_is_sorted_by_name() {
    let c = config_with(&["/d/b"]);
    let items = vec![Ok(item("b", "/d/b", true)), Ok(item("a", "/d/a", false)), Ok(item("C", "/d/C", false))];
    let out = list_dir_own(items, &c);
    let names: Vec<&str> = out.iter().map(|e| e.name.as_str()).collect();
    assert_eq!(names, vec!["C", "a", "b"]);
    assert!(out[2].ignored);
    assert!(!out[0].ignored);
    assert!(!out[1].ignored);
}

#[test]
fn listing_sort_is_stable_for_equal_names() {
    let c = BupyConfig::new("/");
    let items = vec![
        Err("first".to_string()),
        Ok(item("m", "/m", false)),
        Err("second".to_string()),
        Ok(DirItem { name: None, abs_path: None, is_dir: None }),
        Ok(item("A", "/A", false)),
    ];
    let out = list_dir_own(items, &c);
    let names: Vec<&str> = out.iter().map(|e| e.name.as_str()).collect();
    assert_eq!(names, vec!["???", "???", "???", "A", "m"]);
    assert_eq!(out[0].error, Some("first".to_string()));
    assert_eq!(out[1].error, Some("second".to_string()));
    assert_eq!(out[2].error, Some("Unparasable name".to_string()));
}

#[test]
fn listing_of_nothing_is_empty() {
    let out = list_dir_own(Vec::new(), &BupyConfig::new("/"));
    assert!(out.is_empty());
}

#[test]
fn mark_for_ignore_toggles_and_updates_config() {
    let c0 = BupyConfig::new("/base");
    let mut c = BupyConfig::new("/base");
    let mut list = list_dir_own(vec![Ok(item("a", "/d/a", false)), Ok(item("b", "/d/b", true))], &c0);
    assert_eq!(mark_for_ignore(&mut list, 1, &mut c), Ok(()));
    assert!(list[1].ignored);
    assert!(!list[0].ignored);
    assert!(c.is_ignored(&"/d/b".to_string()));
    assert_eq!(mark_for_ignore(&mut list, 1, &mut c), Ok(()));
    assert!(!list[1].ignored);
    assert!(!c.is_ignored(&"/d/b".to_string()));
    assert!(c.ignore_list.is_empty());
}

#[test]
fn mark_for_ignore_past_the_end_is_not_found() {
    let mut c = BupyConfig::new("/base");
    let mut list = list_dir_own(vec![Ok(item("a", "/d/a", false))], &c);
    assert_eq!(mark_for_ignore(&mut list, 1, &mut c), Err(IgnoreError::NotFound));
    assert!(!list[0].ignored);
    assert!(c.ignore_list.is_empty());
}

#[test]
fn config_instance_prefers_stored_settings() {
    let stored = config_with(&["/x"]);
    let c = get_config_instance("/other", Some(stored));
    assert_eq!(c.base_path, "/base");
    assert_eq!(c.ignore_list, vec!["/x".to_string()]);
    let c = get_config_instance("/other", None);
    assert_eq!(c.base_path, "/other");
    assert!(c.ignore_list.is_empty());
}

#[test]
fn init_config_keeps_the_first_settings() {
    let mut slot: Option<BupyConfig> = None;
    init_config(&mut slot, "/first", None);
    assert_eq!(get_config(&slot).base_path, "/first");
    init_config(&mut slot, "/second", Some(config_with(&["/y"])));
    assert_eq!(get_config(&slot).base_path, "/first");
    assert!(get_config(&slot).ignore_list.is_empty());
}

#[test]
fn mark_survives_listing_again() {
    let mut c = BupyConfig::new("/d");
    let items = || vec![Ok(item("a", "/d/a", false)), Ok(item("b", "/d/b", false))];
    let mut list = list_dir_own(items(), &c);
    assert_eq!(mark_for_ignore(&mut list, 0, &mut c), Ok(()));
    let again = list_dir_own(items(), &c);
    assert!(again[0].ignored);
    assert!(!again[1].ignored);
}
