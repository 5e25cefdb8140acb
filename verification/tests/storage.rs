use hwinfo::storage::{collect_storage, Disk, DiskLayoutEntry, FilesystemEntry, StorageInfo};

fn disk(name: &str, mount: &str, fs: &str, kind: &str, total: u64, available: u64) -> Disk {
    Disk {
        name: name.to_string(),
        mount: mount.to_string(),
        file_system: fs.to_string(),
        kind: kind.to_string(),
        total,
        available,
    }
}

fn device(name: &str, disk_type: &str, size: u64) -> DiskLayoutEntry {
    DiskLayoutEntry {
        name: name.to_string(),
        disk_type: disk_type.to_string(),
        size,
        interface_type: String::new(),
    }
}

fn filesystem(mount: &str, fs_type: &str, used: u64, size: u64) -> FilesystemEntry {
    FilesystemEntry { mount: mount.to_string(), fs_type: fs_type.to_string(), used, size }
}

#[test]
fn one_device_for_each_name_and_one_file_system_for_each_mount() {
    let disks = vec![
        disk("/dev/sda1", "/", "ext4", "SSD", 1000, 400),
        disk("/dev/sda1", "/home", "ext4", "HDD", 2000, 500),
        disk("/dev/sdb1", "/data", "xfs", "HDD", 5000, 5000),
        disk("/dev/sda1", "/var", "ext4", "SSD", 1000, 100),
    ];
    let info = collect_storage(&disks);
    assert_eq!(
        info.disk_layout,
        vec![device("/dev/sda1", "SSD", 1000), device("/dev/sdb1", "HDD", 5000)]
    );
    assert_eq!(
        info.filesystems,
        vec![
            filesystem("/", "ext4", 600, 1000),
            filesystem("/home", "ext4", 1500, 2000),
            filesystem("/data", "xfs", 0, 5000),
            filesystem("/var", "ext4", 900, 1000),
        ]
    );
}

#[test]
fn same_mount_twice_gives_two_file_systems() {
    let disks = vec![
        disk("a", "/mnt", "ext4", "SSD", 10, 1),
        disk("b", "/mnt", "ext4", "SSD", 10, 2),
    ];
    let info = collect_storage(&disks);
    assert_eq!(info.filesystems.len(), 2);
    assert_eq!(info.disk_layout.len(), 2);
}

#[test]
fn used_space_is_never_negative() {
    let info = collect_storage(&vec![disk("a", "/", "ext4", "SSD", 100, 250)]);
    assert_eq!(info.filesystems, vec![filesystem("/", "ext4", 0, 100)]);
    let info = collect_storage(&vec![disk("a", "/", "ext4", "SSD", 0, 0)]);
    assert_eq!(info.filesystems, vec![filesystem("/", "ext4", 0, 0)]);
    let info = collect_storage(&vec![disk("a", "/", "ext4", "SSD", u64::MAX, 0)]);
    assert_eq!(info.filesystems, vec![filesystem("/", "ext4", u64::MAX, u64::MAX)]);
}

#[test]
fn no_disks() {
    assert_eq!(collect_storage(&Vec::new()), StorageInfo::default());
}

#[test]
fn empty_names_count_as_one_name() {
    let disks = vec![disk("", "/a", "x", "k", 1, 0), disk("", "/b", "y", "l", 2, 0)];
    assert_eq!(collect_storage(&disks).disk_layout, vec![device("", "k", 1)]);
    assert_eq!(DiskLayoutEntry::default(), device("", "", 0));
    assert_eq!(FilesystemEntry::default(), filesystem("", "", 0, 0));
}
