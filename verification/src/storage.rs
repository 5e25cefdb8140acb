//! Disks and the file systems mounted from them.

use vstd::prelude::*;

verus! {

/// What the metrics source tells of one mounted disk.
#[derive(Clone, Debug, PartialEq, Eq)]
pub struct Disk {
    /// Name of the device.
    pub name: String,
    /// Where it is mounted.
    pub mount: String,
    pub file_system: String,
    /// Kind of the device, as the source names it.
    pub kind: String,
    /// Size in bytes.
    pub total: u64,
    /// Free space in bytes.
    pub available: u64,
}

/// The view of [`Disk`]: its texts as sequences of characters.
pub struct DiskView {
    pub name: Seq<char>,
    pub mount: Seq<char>,
    pub file_system: Seq<char>,
    pub kind: Seq<char>,
    pub total: u64,
    pub available: u64,
}

impl View for Disk {
    type V = DiskView;

    open spec fn view(&self) -> DiskView {
        DiskView {
            name: self.name@,
            mount: self.mount@,
            file_system: self.file_system@,
            kind: self.kind@,
            total: self.total,
            available: self.available,
        }
    }
}

impl DeepView for Disk {
    type V = DiskView;

    open spec fn deep_view(&self) -> DiskView {
        self@
    }
}

/// One physical device.
#[derive(Clone, Debug, PartialEq, Eq)]
pub struct DiskLayoutEntry {
    pub name: String,
    pub disk_type: String,
    /// Size in bytes.
    pub size: u64,
    pub interface_type: String,
}

/// The view of [`DiskLayoutEntry`]: its texts as sequences of characters.
pub struct DiskLayoutEntryView {
    pub name: Seq<char>,
    pub disk_type: Seq<char>,
    pub size: u64,
    pub interface_type: Seq<char>,
}

impl View for DiskLayoutEntry {
    type V = DiskLayoutEntryView;

    open spec fn view(&self) -> DiskLayoutEntryView {
        DiskLayoutEntryView {
            name: self.name@,
            disk_type: self.disk_type@,
            size: self.size,
            interface_type: self.interface_type@,
        }
    }
}

impl DeepView for DiskLayoutEntry {
    type V = DiskLayoutEntryView;

    open spec fn deep_view(&self) -> DiskLayoutEntryView {
        self@
    }
}

impl Default for DiskLayoutEntry {
    fn default() -> (out: Self)
        ensures
            out@ == (DiskLayoutEntryView {
                name: Seq::empty(),
                disk_type: Seq::empty(),
                size: 0,
                interface_type: Seq::empty(),
            }),
    {
        DiskLayoutEntry {
            name: String::new(),
            disk_type: String::new(),
            size: 0,
            interface_type: String::new(),
        }
    }
}

/// One mounted file system. The share in use follows from `used` and `size`.
#[derive(Clone, Debug, PartialEq, Eq)]
pub struct FilesystemEntry {
    pub mount: String,
    pub fs_type: String,
    /// Bytes in use.
    pub used: u64,
    /// Size in bytes.
    pub size: u64,
}

/// The view of [`FilesystemEntry`]: its texts as sequences of characters.
pub struct FilesystemEntryView {
    pub mount: Seq<char>,
    pub fs_type: Seq<char>,
    pub used: u64,
    pub size: u64,
}

impl View for FilesystemEntry {
    type V = FilesystemEntryView;

    open spec fn view(&self) -> FilesystemEntryView {
        FilesystemEntryView {
            mount: self.mount@,
            fs_type: self.fs_type@,
            used: self.used,
            size: self.size,
        }
    }
}

impl DeepView for FilesystemEntry {
    type V = FilesystemEntryView;

    open spec fn deep_view(&self) -> FilesystemEntryView {
        self@
    }
}

impl Default for FilesystemEntry {
    fn default() -> (out: Self)
        ensures
            out@ == (FilesystemEntryView {
                mount: Seq::empty(),
                fs_type: Seq::empty(),
                used: 0,
                size: 0,
            }),
    {
        FilesystemEntry { mount: String::new(), fs_type: String::new(), used: 0, size: 0 }
    }
}

/// The storage of the machine: its devices, and its mounted file systems.
#[derive(Clone, Debug, PartialEq, Eq)]
pub struct StorageInfo {
    pub disk_layout: Vec<DiskLayoutEntry>,
    pub filesystems: Vec<FilesystemEntry>,
}

/// The view of [`StorageInfo`]: its texts as sequences of characters.
pub struct StorageInfoView {
    pub disk_layout: Seq<DiskLayoutEntryView>,
    pub filesystems: Seq<FilesystemEntryView>,
}

impl View for StorageInfo {
    type V = StorageInfoView;

    open spec fn view(&self) -> StorageInfoView {
        StorageInfoView {
            disk_layout: self.disk_layout.deep_view(),
            filesystems: self.filesystems.deep_view(),
        }
    }
}

impl DeepView for StorageInfo {
    type V = StorageInfoView;

    open spec fn deep_view(&self) -> StorageInfoView {
        self@
    }
}

impl Default for StorageInfo {
    fn default() -> (out: Self)
        ensures
            out@.disk_layout.len() == 0,
            out@.filesystems.len() == 0,
    {
        StorageInfo { disk_layout: Vec::new(), filesystems: Vec::new() }
    }
}

/// The bytes in use on a disk: its size less its free space, and zero where
/// more is reported free than the disk holds.
pub open spec fn used_of(total: u64, available: u64) -> u64 {
    if available >= total {
        0
    } else {
        (total - available) as u64
    }
}

/// The file system mounted from `disk`.
pub open spec fn filesystem_of(disk: DiskView) -> FilesystemEntryView {
    FilesystemEntryView {
        mount: disk.mount,
        fs_type: disk.file_system,
        used: used_of(disk.total, disk.available),
        size: disk.total,
    }
}

/// The device that `disk` is mounted from.
pub open spec fn device_of(disk: DiskView) -> DiskLayoutEntryView {
    DiskLayoutEntryView {
        name: disk.name,
        disk_type: disk.kind,
        size: disk.total,
        interface_type: Seq::empty(),
    }
}

/// The file systems of `disks`: one for each, in their order.
pub open spec fn filesystems_of(disks: Seq<DiskView>) -> Seq<FilesystemEntryView> {
    Seq::new(disks.len(), |i: int| filesystem_of(disks[i]))
}

/// Whether `layout` holds a device called `name`.
pub open spec fn has_device(layout: Seq<DiskLayoutEntryView>, name: Seq<char>) -> bool {
    exists|i: int| 0 <= i < layout.len() && #[trigger] layout[i].name == name
}

/// The devices of `disks`: one for each device name, taken from the first
/// disk of that name, in the order in which the names first occur.
pub open spec fn layout_of(disks: Seq<DiskView>) -> Seq<DiskLayoutEntryView>
    decreases disks.len(),
{
    if disks.len() == 0 {
        Seq::empty()
    } else {
        let before = layout_of(disks.drop_last());
        if has_device(before, disks.last().name) {
            before
        } else {
            before.push(device_of(disks.last()))
        }
    }
}

/// The device names of `disks`, in their order.
pub open spec fn names_of(disks: Seq<DiskView>) -> Seq<Seq<char>> {
    Seq::new(disks.len(), |i: int| disks[i].name)
}

/// The mount points of `disks`, in their order.
pub open spec fn mounts_of(disks: Seq<DiskView>) -> Seq<Seq<char>> {
    Seq::new(disks.len(), |i: int| disks[i].mount)
}

/// The names of the devices in `layout`, in their order.
pub open spec fn layout_names(layout: Seq<DiskLayoutEntryView>) -> Seq<Seq<char>> {
    Seq::new(layout.len(), |i: int| layout[i].name)
}

/// The layout names each device name of the disks once, and no other name.
pub proof fn lemma_layout_names(disks: Seq<DiskView>)
    ensures
        layout_names(layout_of(disks)).no_duplicates(),
        layout_names(layout_of(disks)).to_set() == names_of(disks).to_set(),
    decreases disks.len(),
{
    if disks.len() == 0 {
        assert(layout_names(layout_of(disks)).to_set() =~= names_of(disks).to_set());
    } else {
        let rest = disks.drop_last();
        let last = disks.last();
        let before = layout_of(rest);
        let listed = layout_names(before);
        lemma_layout_names(rest);
        assert(names_of(disks) == names_of(rest).push(last.name));
        names_of(rest).lemma_push_to_set_commute(last.name);
        if has_device(before, last.name) {
            let i = choose|i: int| 0 <= i < before.len() && #[trigger] before[i].name == last.name;
            assert(listed[i] == last.name);
            assert(listed.to_set().contains(last.name));
            assert(listed.to_set().insert(last.name) == listed.to_set());
        } else {
            let after = layout_of(disks);
            assert(layout_names(after) == listed.push(last.name));
            listed.lemma_push_to_set_commute(last.name);
            assert forall|i: int| 0 <= i < listed.len() implies listed[i] != last.name by {
                assert(before[i].name == listed[i]);
            }
        }
    }
}

/// There is one device for each device name, however many of the disks
/// share it, and at least one file system for each mount point.
pub proof fn lemma_storage_counts(disks: Seq<DiskView>)
    ensures
        layout_of(disks).len() == names_of(disks).to_set().len(),
        filesystems_of(disks).len() >= mounts_of(disks).to_set().len(),
        filesystems_of(disks).len() == disks.len(),
{
    lemma_layout_names(disks);
    layout_names(layout_of(disks)).unique_seq_to_set();
    mounts_of(disks).lemma_cardinality_of_set();
}

/// Tells whether the layout holds a device called `name`.
fn is_listed(layout: &Vec<DiskLayoutEntry>, name: &String) -> (listed: bool)
    ensures
        listed == has_device(layout.deep_view(), name@),
{
    let mut i: usize = 0;
    while i < layout.len()
        invariant
            i <= layout.len(),
            forall|j: int| 0 <= j < i ==> layout.deep_view()[j].name != name@,
        decreases layout.len() - i,
    {
        if layout[i].name == *name {
            assert(layout.deep_view()[i as int].name == name@);
            return true;
        }
        i += 1;
    }
    false
}

/// Lists the devices and the file systems of the mounted disks that the
/// metrics source reports.
pub fn collect_storage(disks: &Vec<Disk>) -> (info: StorageInfo)
    ensures
        info@.filesystems == filesystems_of(disks.deep_view()),
        info@.disk_layout == layout_of(disks.deep_view()),
{
    let mut disk_layout: Vec<DiskLayoutEntry> = Vec::new();
    let mut filesystems: Vec<FilesystemEntry> = Vec::new();
    let ghost all = disks.deep_view();
    assert(all.take(0) == Seq::<DiskView>::empty());
    assert(disk_layout.deep_view() == Seq::<DiskLayoutEntryView>::empty());
    let mut i: usize = 0;
    while i < disks.len()
        invariant
            i <= disks.len(),
            all == disks.deep_view(),
            filesystems.deep_view() == filesystems_of(all).take(i as int),
            disk_layout.deep_view() == layout_of(all.take(i as int)),
        decreases disks.len() - i,
    {
        let disk = &disks[i];
        proof {
            assert(all.take(i + 1).drop_last() == all.take(i as int));
            assert(all.take(i + 1).last() == disk@);
        }
        let used = if disk.available >= disk.total {
            0
        } else {
            disk.total - disk.available
        };
        let entry = FilesystemEntry {
            mount: disk.mount.clone(),
            fs_type: disk.file_system.clone(),
            used,
            size: disk.total,
        };
        let ghost mounted = filesystems.deep_view();
        filesystems.push(entry);
        assert(filesystems.deep_view() == mounted.push(entry@));
        if !is_listed(&disk_layout, &disk.name) {
            let device = DiskLayoutEntry {
                name: disk.name.clone(),
                disk_type: disk.kind.clone(),
                size: disk.total,
                interface_type: String::new(),
            };
            let ghost before = disk_layout.deep_view();
            disk_layout.push(device);
            assert(disk_layout.deep_view() == before.push(device@));
        }
        i += 1;
    }
    assert(all.take(i as int) == all);
    StorageInfo { disk_layout, filesystems }
}

} // verus!
