use backyupy::fs_ops::mounts::{get_avail_mounts, DiskInfo};
use backyupy::ui::{file_name, size_unit, unit_name};
use backyupy::fs_ops::dir::{FsEntry, FsEntryType};

fn disk(read_only: bool, removable: bool, fs: Option<&str>, name: Option<&str>, space: u64) -> DiskInfo {
    DiskInfo {
        read_only,
        removable,
        file_system: fs.map(|s| s.to_string()),
        name: name.map(|s| s.to_string()),
        mount_point: Some(format!("/media/{}", name.unwrap_or("none"))),
        total_space: space,
    }
}

#[test]
fn only_writable_removable_disks_are_offered() {
    let disks = vec![
        disk(false, true, Some("vfat"), Some("usb1"), 10),
        disk(true, true, Some("vfat"), Some("cdrom"), 20),
        disk(false, false, Some("ext4"), Some("root"), 30),
        disk(false, true, None, Some("weird"), 40),
        disk(false, true, Some("exfat"), None, 50),
        disk(false, true, Some("exfat"), Some("usb2"), 60),
    ];
    let mounts = get_avail_mounts(&disks);
    assert_eq!(mounts.len(), 2);
    assert_eq!(mounts[0].dev, "usb1");
    assert_eq!(mounts[0].fs_type, "vfat");
    assert_eq!(mounts[0].mounted_to, Some("/media/usb1".to_string()));
    assert_eq!(mounts[0].total_space, 10);
    assert_eq!(mounts[1].dev, "usb2");
    assert_eq!(mounts[1].total_space, 60);
}

#[test]
fn no_disks_no_mounts() {
    assert!(get_avail_mounts(&Vec::new()).is_empty());
}

#[test]
fn size_units_follow_decimal_thresholds() {
    assert_eq!(size_unit(0), 0);
    assert_eq!(size_unit(999), 0);
    assert_eq!(size_unit(1000), 1);
    assert_eq!(size_unit(999_999), 1);
    assert_eq!(size_unit(1_000_000), 2);
    assert_eq!(size_unit(2_500_000_000), 3);
    assert_eq!(size_unit(1_000_000_000_000), 4);
    assert_eq!(size_unit(u64::MAX), 4);
    assert_eq!(unit_name(0), "B");
    assert_eq!(unit_name(1), "KB");
    assert_eq!(unit_name(2), "MB");
    assert_eq!(unit_name(3), "GB");
    assert_eq!(unit_name(4), "TB");
}

fn entry(name: &str, t: FsEntryType) -> FsEntry {
    FsEntry { name: name.to_string(), abs_path: format!("/{}", name), error: None, ignored: false, e_type: t }
}

#[test]
fn file_name_puts_an_icon_before_folders() {
    assert_eq!(file_name(&entry("docs", FsEntryType::Folder)), "\u{1F5C0} docs");
    assert_eq!(file_name(&entry("a.txt", FsEntryType::File)), " a.txt");
    assert_eq!(file_name(&FsEntry::err_entry("e".to_string())), " ???");
}
