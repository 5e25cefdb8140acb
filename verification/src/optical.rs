//! Optical drives, read from the kernel's table of CD-ROM drives.

use vstd::prelude::*;
use crate::text::{
    chars_of, lemma_rows_index, lines_of, second_field, second_field_of, split_lines, starts_with,
    string_of, trim, trim_of,
};

verus! {

/// One optical drive.
#[derive(Clone, Debug, PartialEq, Eq)]
pub struct OpticalDevice {
    pub name: String,
    pub model: String,
    pub vendor: String,
}

/// The view of [`OpticalDevice`]: its texts as sequences of characters.
pub struct OpticalDeviceView {
    pub name: Seq<char>,
    pub model: Seq<char>,
    pub vendor: Seq<char>,
}

impl View for OpticalDevice {
    type V = OpticalDeviceView;

    open spec fn view(&self) -> OpticalDeviceView {
        OpticalDeviceView { name: self.name@, model: self.model@, vendor: self.vendor@ }
    }
}

impl DeepView for OpticalDevice {
    type V = OpticalDeviceView;

    open spec fn deep_view(&self) -> OpticalDeviceView {
        self@
    }
}

impl Default for OpticalDevice {
    fn default() -> (out: Self)
        ensures
            out@ == (OpticalDeviceView {
                name: Seq::empty(),
                model: Seq::empty(),
                vendor: Seq::empty(),
            }),
    {
        OpticalDevice { name: String::new(), model: String::new(), vendor: String::new() }
    }
}

/// The optical drives of the machine.
#[derive(Clone, Debug, PartialEq, Eq)]
pub struct OpticalInfo {
    pub devices: Vec<OpticalDevice>,
}

/// The view of [`OpticalInfo`]: its texts as sequences of characters.
pub struct OpticalInfoView {
    pub devices: Seq<OpticalDeviceView>,
}

impl View for OpticalInfo {
    type V = OpticalInfoView;

    open spec fn view(&self) -> OpticalInfoView {
        OpticalInfoView { devices: self.devices.deep_view() }
    }
}

impl DeepView for OpticalInfo {
    type V = OpticalInfoView;

    open spec fn deep_view(&self) -> OpticalInfoView {
        self@
    }
}

impl Default for OpticalInfo {
    fn default() -> (out: Self)
        ensures
            out@.devices.len() == 0,
    {
        OpticalInfo { devices: Vec::new() }
    }
}

/// The value of a line of the table: what stands between its first colon
/// and the next, trimmed; empty where the line has no colon.
pub open spec fn table_value_of(line: Seq<char>) -> Seq<char> {
    match second_field(line, ':') {
        Some(field) => trim_of(field),
        None => Seq::empty(),
    }
}

/// Where the reading of the drive table stands: the drives found so far, and
/// the drive name that still waits for its model (empty where none waits).
pub struct DriveScan {
    pub found: Seq<OpticalDeviceView>,
    pub pending: Seq<char>,
}

/// The reading after one more line. A `drive name:` line sets the waiting
/// name. A `drive model:` line, while a name waits, completes a drive and
/// leaves no name waiting.
pub open spec fn drive_scan_line(scan: DriveScan, line: Seq<char>) -> DriveScan {
    let pending = if "drive name:"@.is_prefix_of(line) {
        table_value_of(line)
    } else {
        scan.pending
    };
    if pending.len() > 0 && "drive model:"@.is_prefix_of(line) {
        DriveScan {
            found: scan.found.push(
                OpticalDeviceView {
                    name: pending,
                    model: table_value_of(line),
                    vendor: "Unknown"@,
                },
            ),
            pending: Seq::empty(),
        }
    } else {
        DriveScan { found: scan.found, pending }
    }
}

/// The reading after all of `lines`, from the first to the last.
pub open spec fn drive_scan_lines(lines: Seq<Seq<char>>) -> DriveScan
    decreases lines.len(),
{
    if lines.len() == 0 {
        DriveScan { found: Seq::empty(), pending: Seq::empty() }
    } else {
        drive_scan_line(drive_scan_lines(lines.drop_last()), lines.last())
    }
}

/// The drives that the table pairs a name and a model for; none where there
/// is no table.
pub open spec fn table_drives_of(table: Option<Seq<char>>) -> Seq<OpticalDeviceView> {
    match table {
        Some(text) => drive_scan_lines(lines_of(text)).found,
        None => Seq::empty(),
    }
}

/// The drive that stands for a device node of which no table tells more.
pub open spec fn fallback_drive() -> OpticalDeviceView {
    OpticalDeviceView { name: "sr0"@, model: "CD/DVD Drive"@, vendor: "Unknown"@ }
}

/// The optical drives of the machine: those of the table; where it yields
/// none, the one fallback drive if the device node exists.
pub open spec fn optical_devices_of(table: Option<Seq<char>>, node_present: bool) -> Seq<
    OpticalDeviceView,
> {
    let drives = table_drives_of(table);
    if drives.len() == 0 && node_present {
        seq![fallback_drive()]
    } else {
        drives
    }
}

/// The value of a line of the table.
fn table_value(line: &[char]) -> (out: String)
    ensures
        out@ == table_value_of(line@),
{
    match second_field_of(line, ':') {
        Some(field) => string_of(trim(field)),
        None => String::new(),
    }
}

/// Reads the drives that the table pairs a name and a model for.
fn read_table(text: &str) -> (devices: Vec<OpticalDevice>)
    ensures
        devices.deep_view() == drive_scan_lines(lines_of(text@)).found,
{
    let chars = chars_of(text);
    let lines = split_lines(chars.as_slice());
    let name_key = chars_of("drive name:");
    let model_key = chars_of("drive model:");
    let mut devices: Vec<OpticalDevice> = Vec::new();
    let mut pending: String = String::new();
    let ghost all = lines.deep_view();
    assert(all.take(0) == Seq::<Seq<char>>::empty());
    assert(devices.deep_view() == Seq::<OpticalDeviceView>::empty());
    let mut i: usize = 0;
    while i < lines.len()
        invariant
            i <= lines.len(),
            all == lines.deep_view(),
            all == lines_of(text@),
            name_key@ == "drive name:"@,
            model_key@ == "drive model:"@,
            drive_scan_lines(all.take(i as int)) == (DriveScan {
                found: devices.deep_view(),
                pending: pending@,
            }),
        decreases lines.len() - i,
    {
        proof {
            lemma_rows_index(lines, i as int);
            assert(all.take(i + 1).drop_last() == all.take(i as int));
            assert(all.take(i + 1).last() == lines[i as int]@);
        }
        let line = lines[i].as_slice();
        if starts_with(line, name_key.as_slice()) {
            pending = table_value(line);
        }
        if !pending.as_str().is_empty() && starts_with(line, model_key.as_slice()) {
            let ghost before = devices.deep_view();
            let device = OpticalDevice {
                name: pending,
                model: table_value(line),
                vendor: "Unknown".to_owned(),
            };
            devices.push(device);
            assert(devices.deep_view() == before.push(device@));
            pending = String::new();
        }
        i += 1;
    }
    assert(all.take(i as int) == all);
    devices
}

/// Reads the optical drives. `table` is the kernel's table of CD-ROM drives,
/// or `None` where it cannot be read; `node_present` says whether the device
/// node of the first drive exists.
pub fn collect_optical(table: Option<&str>, node_present: bool) -> (info: OpticalInfo)
    ensures
        info@.devices == optical_devices_of(table.deep_view(), node_present),
{
    let mut devices = match table {
        Some(text) => read_table(text),
        None => Vec::new(),
    };
    assert(devices.deep_view() == table_drives_of(table.deep_view()));
    if devices.len() == 0 && node_present {
        let device = OpticalDevice {
            name: "sr0".to_owned(),
            model: "CD/DVD Drive".to_owned(),
            vendor: "Unknown".to_owned(),
        };
        devices.push(device);
        assert(devices.deep_view() == seq![fallback_drive()]);
    }
    OpticalInfo { devices }
}

/// Reading the same table twice, with the device node unchanged, gives the
/// same drives.
pub proof fn lemma_optical_repeatable(
    table: Option<&str>,
    node_present: bool,
    first: OpticalInfo,
    second: OpticalInfo,
)
    requires
        first@.devices == optical_devices_of(table.deep_view(), node_present),
        second@.devices == optical_devices_of(table.deep_view(), node_present),
    ensures
        first@ == second@,
{
}

} // verus!
