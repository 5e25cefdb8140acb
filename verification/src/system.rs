//! What identifies the machine: board, firmware, operating system and the
//! hardware addresses of its network interfaces.

use vstd::prelude::*;
use crate::records::{lemma_records_of_next, records_of};
use crate::text::{chars_of, equal, string_of, trim, trimmed_or_empty};

verus! {

/// The main board.
#[derive(Clone, Debug, PartialEq, Eq)]
pub struct BaseboardInfo {
    pub manufacturer: String,
    pub model: String,
    pub version: String,
    pub serial: String,
}

/// The view of [`BaseboardInfo`]: its texts as sequences of characters.
pub struct BaseboardInfoView {
    pub manufacturer: Seq<char>,
    pub model: Seq<char>,
    pub version: Seq<char>,
    pub serial: Seq<char>,
}

impl View for BaseboardInfo {
    type V = BaseboardInfoView;

    open spec fn view(&self) -> BaseboardInfoView {
        BaseboardInfoView {
            manufacturer: self.manufacturer@,
            model: self.model@,
            version: self.version@,
            serial: self.serial@,
        }
    }
}

impl DeepView for BaseboardInfo {
    type V = BaseboardInfoView;

    open spec fn deep_view(&self) -> BaseboardInfoView {
        self@
    }
}

impl Default for BaseboardInfo {
    fn default() -> (out: Self)
        ensures
            out@ == unknown_board(),
    {
        BaseboardInfo {
            manufacturer: String::new(),
            model: String::new(),
            version: String::new(),
            serial: String::new(),
        }
    }
}

/// The firmware.
#[derive(Clone, Debug, PartialEq, Eq)]
pub struct BiosInfo {
    pub vendor: String,
    pub version: String,
    pub release_date: String,
}

/// The view of [`BiosInfo`]: its texts as sequences of characters.
pub struct BiosInfoView {
    pub vendor: Seq<char>,
    pub version: Seq<char>,
    pub release_date: Seq<char>,
}

impl View for BiosInfo {
    type V = BiosInfoView;

    open spec fn view(&self) -> BiosInfoView {
        BiosInfoView {
            vendor: self.vendor@,
            version: self.version@,
            release_date: self.release_date@,
        }
    }
}

impl DeepView for BiosInfo {
    type V = BiosInfoView;

    open spec fn deep_view(&self) -> BiosInfoView {
        self@
    }
}

impl Default for BiosInfo {
    fn default() -> (out: Self)
        ensures
            out@ == unknown_bios(),
    {
        BiosInfo { vendor: String::new(), version: String::new(), release_date: String::new() }
    }
}

/// The operating system.
#[derive(Clone, Debug, PartialEq, Eq)]
pub struct OsInfo {
    pub platform: String,
    pub distro: String,
    pub release: String,
    pub hostname: String,
    pub kernel: String,
    pub arch: String,
    pub fqdn: String,
    pub uefi: bool,
}

/// The view of [`OsInfo`]: its texts as sequences of characters.
pub struct OsInfoView {
    pub platform: Seq<char>,
    pub distro: Seq<char>,
    pub release: Seq<char>,
    pub hostname: Seq<char>,
    pub kernel: Seq<char>,
    pub arch: Seq<char>,
    pub fqdn: Seq<char>,
    pub uefi: bool,
}

impl View for OsInfo {
    type V = OsInfoView;

    open spec fn view(&self) -> OsInfoView {
        OsInfoView {
            platform: self.platform@,
            distro: self.distro@,
            release: self.release@,
            hostname: self.hostname@,
            kernel: self.kernel@,
            arch: self.arch@,
            fqdn: self.fqdn@,
            uefi: self.uefi,
        }
    }
}

impl DeepView for OsInfo {
    type V = OsInfoView;

    open spec fn deep_view(&self) -> OsInfoView {
        self@
    }
}

impl Default for OsInfo {
    fn default() -> (out: Self)
        ensures
            out@ == unknown_os(),
    {
        OsInfo {
            platform: String::new(),
            distro: String::new(),
            release: String::new(),
            hostname: String::new(),
            kernel: String::new(),
            arch: String::new(),
            fqdn: String::new(),
            uefi: false,
        }
    }
}

/// The hardware addresses of the network interfaces.
#[derive(Clone, Debug, PartialEq, Eq)]
pub struct UuidInfo {
    pub macs: Vec<String>,
}

/// The view of [`UuidInfo`]: its texts as sequences of characters.
pub struct UuidInfoView {
    pub macs: Seq<Seq<char>>,
}

impl View for UuidInfo {
    type V = UuidInfoView;

    open spec fn view(&self) -> UuidInfoView {
        UuidInfoView { macs: self.macs.deep_view() }
    }
}

impl DeepView for UuidInfo {
    type V = UuidInfoView;

    open spec fn deep_view(&self) -> UuidInfoView {
        self@
    }
}

impl Default for UuidInfo {
    fn default() -> (out: Self)
        ensures
            out@.macs.len() == 0,
    {
        UuidInfo { macs: Vec::new() }
    }
}

/// Versions of the run-time environment.
#[derive(Clone, Debug, PartialEq, Eq)]
pub struct VersionsInfo {
    pub node: String,
}

/// The view of [`VersionsInfo`]: its texts as sequences of characters.
pub struct VersionsInfoView {
    pub node: Seq<char>,
}

impl View for VersionsInfo {
    type V = VersionsInfoView;

    open spec fn view(&self) -> VersionsInfoView {
        VersionsInfoView { node: self.node@ }
    }
}

impl DeepView for VersionsInfo {
    type V = VersionsInfoView;

    open spec fn deep_view(&self) -> VersionsInfoView {
        self@
    }
}

impl Default for VersionsInfo {
    fn default() -> (out: Self)
        ensures
            out@.node.len() == 0,
    {
        VersionsInfo { node: String::new() }
    }
}

/// What does not change while the machine runs.
#[derive(Clone, Debug, PartialEq, Eq)]
pub struct StaticData {
    pub baseboard: BaseboardInfo,
    pub bios: BiosInfo,
    pub os: OsInfo,
    pub uuid: UuidInfo,
    pub versions: VersionsInfo,
}

/// The view of [`StaticData`]: its texts as sequences of characters.
pub struct StaticDataView {
    pub baseboard: BaseboardInfoView,
    pub bios: BiosInfoView,
    pub os: OsInfoView,
    pub uuid: UuidInfoView,
    pub versions: VersionsInfoView,
}

impl View for StaticData {
    type V = StaticDataView;

    open spec fn view(&self) -> StaticDataView {
        StaticDataView {
            baseboard: self.baseboard@,
            bios: self.bios@,
            os: self.os@,
            uuid: self.uuid@,
            versions: self.versions@,
        }
    }
}

impl DeepView for StaticData {
    type V = StaticDataView;

    open spec fn deep_view(&self) -> StaticDataView {
        self@
    }
}

/// The main board of which nothing is known.
pub open spec fn unknown_board() -> BaseboardInfoView {
    BaseboardInfoView {
        manufacturer: Seq::empty(),
        model: Seq::empty(),
        version: Seq::empty(),
        serial: Seq::empty(),
    }
}

/// The firmware of which nothing is known.
pub open spec fn unknown_bios() -> BiosInfoView {
    BiosInfoView { vendor: Seq::empty(), version: Seq::empty(), release_date: Seq::empty() }
}

/// The operating system of which nothing is known.
pub open spec fn unknown_os() -> OsInfoView {
    OsInfoView {
        platform: Seq::empty(),
        distro: Seq::empty(),
        release: Seq::empty(),
        hostname: Seq::empty(),
        kernel: Seq::empty(),
        arch: Seq::empty(),
        fqdn: Seq::empty(),
        uefi: false,
    }
}

/// The static data of a machine of which nothing is known.
pub open spec fn unknown_static_data() -> StaticDataView {
    StaticDataView {
        baseboard: unknown_board(),
        bios: unknown_bios(),
        os: unknown_os(),
        uuid: UuidInfoView { macs: Seq::empty() },
        versions: VersionsInfoView { node: Seq::empty() },
    }
}

impl Default for StaticData {
    fn default() -> (out: Self)
        ensures
            out@ == unknown_static_data(),
    {
        let uuid = UuidInfo::default();
        let versions = VersionsInfo::default();
        assert(uuid@.macs == Seq::<Seq<char>>::empty());
        assert(versions@.node == Seq::<char>::empty());
        StaticData {
            baseboard: BaseboardInfo::default(),
            bios: BiosInfo::default(),
            os: OsInfo::default(),
            uuid,
            versions,
        }
    }
}

/// Clock readings, in seconds.
#[derive(Clone, Copy, Debug, PartialEq, Eq)]
pub struct RuntimeInfo {
    /// Seconds since the machine started.
    pub uptime: u64,
    /// Seconds since the start of 1970.
    pub current: u64,
}

impl View for RuntimeInfo {
    type V = RuntimeInfo;

    open spec fn view(&self) -> RuntimeInfo {
        *self
    }
}

impl DeepView for RuntimeInfo {
    type V = RuntimeInfo;

    open spec fn deep_view(&self) -> RuntimeInfo {
        *self
    }
}

impl Default for RuntimeInfo {
    fn default() -> (out: Self)
        ensures
            out == (RuntimeInfo { uptime: 0, current: 0 }),
    {
        RuntimeInfo { uptime: 0, current: 0 }
    }
}

/// The contents of the kernel's files on the main board; `None` for a file
/// that cannot be read.
#[derive(Clone, Debug, PartialEq, Eq)]
pub struct BoardFiles {
    pub vendor: Option<String>,
    pub name: Option<String>,
    pub version: Option<String>,
    pub serial: Option<String>,
}

/// The contents of the kernel's files on the firmware; `None` for a file
/// that cannot be read.
#[derive(Clone, Debug, PartialEq, Eq)]
pub struct BiosFiles {
    pub vendor: Option<String>,
    pub version: Option<String>,
    pub date: Option<String>,
}

/// What the metrics source and the build tell of the operating system;
/// `None` for what the source does not tell.
#[derive(Clone, Debug, PartialEq, Eq)]
pub struct OsFacts {
    pub hostname: Option<String>,
    pub kernel: Option<String>,
    pub name: Option<String>,
    pub os_version: Option<String>,
    pub long_os_version: Option<String>,
    pub arch: Option<String>,
    /// Whether the firmware is UEFI.
    pub uefi: bool,
    /// The operating system that the program was built for, as the compiler
    /// names it.
    pub target_os: String,
}

/// The value of a kernel file that may be missing.
pub fn read_sysfs_file(content: Option<&str>) -> (value: String)
    ensures
        value@ == trimmed_or_empty(content.deep_view()),
{
    match content {
        Some(text) => {
            let chars = chars_of(text);
            string_of(trim(chars.as_slice()))
        },
        None => String::new(),
    }
}

/// The value of a kernel file that may be missing.
fn file_value(content: &Option<String>) -> (value: String)
    ensures
        value@ == trimmed_or_empty(content.deep_view()),
{
    match content {
        Some(text) => read_sysfs_file(Some(text.as_str())),
        None => read_sysfs_file(None),
    }
}

/// The main board as the kernel's files describe it: each text is that of
/// its file, trimmed, and empty where the file cannot be read.
pub open spec fn baseboard_of(files: &BoardFiles) -> BaseboardInfoView {
    BaseboardInfoView {
        manufacturer: trimmed_or_empty(files.vendor.deep_view()),
        model: trimmed_or_empty(files.name.deep_view()),
        version: trimmed_or_empty(files.version.deep_view()),
        serial: trimmed_or_empty(files.serial.deep_view()),
    }
}

/// The firmware as the kernel's files describe it: each text is that of its
/// file, trimmed, and empty where the file cannot be read.
pub open spec fn bios_of(files: &BiosFiles) -> BiosInfoView {
    BiosInfoView {
        vendor: trimmed_or_empty(files.vendor.deep_view()),
        version: trimmed_or_empty(files.version.deep_view()),
        release_date: trimmed_or_empty(files.date.deep_view()),
    }
}

/// Reads the identity of the main board from the kernel's files.
pub fn read_baseboard_info(files: &BoardFiles) -> (info: BaseboardInfo)
    ensures
        info@ == baseboard_of(files),
{
    BaseboardInfo {
        manufacturer: file_value(&files.vendor),
        model: file_value(&files.name),
        version: file_value(&files.version),
        serial: file_value(&files.serial),
    }
}

/// Reads the identity of the firmware from the kernel's files.
pub fn read_bios_info(files: &BiosFiles) -> (info: BiosInfo)
    ensures
        info@ == bios_of(files),
{
    BiosInfo {
        vendor: file_value(&files.vendor),
        version: file_value(&files.version),
        release_date: file_value(&files.date),
    }
}

/// The hardware address that an interface's address file gives, if it gives
/// one: its trimmed text, unless that is empty or the address of all zeros.
pub open spec fn mac_of(content: Option<Seq<char>>) -> Option<Seq<char>> {
    let mac = trimmed_or_empty(content);
    if mac.len() > 0 && mac != "00:00:00:00:00:00"@ {
        Some(mac)
    } else {
        None
    }
}

/// The hardware addresses that the address files give, in their order.
pub open spec fn macs_of(addresses: Seq<Option<Seq<char>>>) -> Seq<Seq<char>> {
    records_of(addresses, |content: Option<Seq<char>>| mac_of(content))
}

/// Reads the hardware addresses of the network interfaces. `addresses`
/// holds, for each interface that the metrics source lists, the content of
/// its address file, or `None` where the file cannot be read.
pub fn read_uuid_info(addresses: &Vec<Option<String>>) -> (info: UuidInfo)
    ensures
        info@.macs == macs_of(addresses.deep_view()),
{
    let mut macs: Vec<String> = Vec::new();
    let zero = chars_of("00:00:00:00:00:00");
    let ghost all = addresses.deep_view();
    let ghost read = |content: Option<Seq<char>>| mac_of(content);
    assert(all.take(0) == Seq::<Option<Seq<char>>>::empty());
    assert(macs.deep_view() == Seq::<Seq<char>>::empty());
    let mut i: usize = 0;
    while i < addresses.len()
        invariant
            i <= addresses.len(),
            all == addresses.deep_view(),
            read == |content: Option<Seq<char>>| mac_of(content),
            zero@ == "00:00:00:00:00:00"@,
            macs.deep_view() == records_of(all.take(i as int), read),
        decreases addresses.len() - i,
    {
        proof {
            lemma_records_of_next(all, read, i as int);
        }
        let mac = file_value(&addresses[i]);
        let chars = chars_of(mac.as_str());
        if chars.len() > 0 && !equal(chars.as_slice(), zero.as_slice()) {
            let ghost before = macs.deep_view();
            macs.push(mac);
            assert(macs.deep_view() == before.push(mac@));
        }
        i += 1;
    }
    assert(all.take(i as int) == all);
    UuidInfo { macs }
}

/// The name of the platform for the operating system that the program was
/// built for.
pub open spec fn platform_of(target_os: Seq<char>) -> Seq<char> {
    if target_os == "linux"@ {
        "linux"@
    } else if target_os == "windows"@ {
        "win32"@
    } else if target_os == "macos"@ {
        "darwin"@
    } else {
        target_os
    }
}

/// A text that may be missing; empty where it is.
pub open spec fn text_or_empty(text: Option<Seq<char>>) -> Seq<char> {
    match text {
        Some(t) => t,
        None => Seq::empty(),
    }
}

/// A fact that may be untold; empty where it is.
fn text_of(text: &Option<String>) -> (out: String)
    ensures
        out@ == text_or_empty(text.deep_view()),
{
    match text {
        Some(t) => t.clone(),
        None => String::new(),
    }
}

/// Names the platform.
fn platform(target_os: &str) -> (out: String)
    ensures
        out@ == platform_of(target_os@),
{
    let name = chars_of(target_os);
    let linux = chars_of("linux");
    let windows = chars_of("windows");
    let macos = chars_of("macos");
    if equal(name.as_slice(), linux.as_slice()) {
        "linux".to_owned()
    } else if equal(name.as_slice(), windows.as_slice()) {
        "win32".to_owned()
    } else if equal(name.as_slice(), macos.as_slice()) {
        "darwin".to_owned()
    } else {
        target_os.to_owned()
    }
}

/// The operating system as the facts describe it; what is not told is
/// empty.
pub open spec fn os_info_of(facts: &OsFacts) -> OsInfoView {
    OsInfoView {
        platform: platform_of(facts.target_os@),
        distro: text_or_empty(facts.long_os_version.deep_view()),
        release: text_or_empty(facts.os_version.deep_view()),
        hostname: text_or_empty(facts.hostname.deep_view()),
        kernel: text_or_empty(facts.kernel.deep_view()),
        arch: text_or_empty(facts.arch.deep_view()),
        fqdn: text_or_empty(facts.name.deep_view()),
        uefi: facts.uefi,
    }
}

/// Describes the operating system.
pub fn read_os_info(facts: &OsFacts) -> (info: OsInfo)
    ensures
        info@ == os_info_of(facts),
{
    OsInfo {
        platform: platform(facts.target_os.as_str()),
        distro: text_of(&facts.long_os_version),
        release: text_of(&facts.os_version),
        hostname: text_of(&facts.hostname),
        kernel: text_of(&facts.kernel),
        arch: text_of(&facts.arch),
        fqdn: text_of(&facts.name),
        uefi: facts.uefi,
    }
}

/// The clock readings: the time since the start of 1970 is zero where it is
/// not known.
pub open spec fn runtime_of(uptime: u64, since_epoch: Option<u64>) -> RuntimeInfo {
    RuntimeInfo {
        uptime,
        current: match since_epoch {
            Some(seconds) => seconds,
            None => 0,
        },
    }
}

/// The clock readings. `since_epoch` is the time since the start of 1970 in
/// seconds, or `None` where the clock stands before it.
pub fn collect_runtime(uptime: u64, since_epoch: Option<u64>) -> (info: RuntimeInfo)
    ensures
        info == runtime_of(uptime, since_epoch),
{
    RuntimeInfo {
        uptime,
        current: match since_epoch {
            Some(seconds) => seconds,
            None => 0,
        },
    }
}

} // verus!
