//! The two snapshots of the machine: the full one, with everything that is
//! known of it, and the live one, with what changes from moment to moment.

use vstd::prelude::*;
use crate::audio::{AudioInfo, AudioInfoView};
use crate::cpu::{
    collect_cpu_info, collect_cpu_load, collect_cpu_speed, frequencies_of, is_cpu_info_of,
    is_speed_of, lemma_speed_is_unique, load_of, sum_of, unknown_cpu, CpuCore, CpuCurrentSpeed,
    CpuInfo, CpuInfoView, CurrentLoad,
};
use crate::graphics::{GpuControllerView, GraphicsInfo, GraphicsInfoView};
use crate::memory::{
    collect_memory, collect_memory_live, memory_info_of, MemoryCounters, MemoryInfo, MemoryInfoView,
    MemorySlotView,
};
use crate::network::{collect_network, interfaces_of, NetworkInfo, NetworkInfoView};
use crate::optical::{OpticalInfo, OpticalInfoView};
use crate::peripherals::{PeripheralInfo, PeripheralInfoView};
use crate::platform::{
    as_text, platform_audio, platform_audio_of, platform_baseboard, platform_baseboard_of,
    platform_bios, platform_bios_of, platform_cpu_table_of, platform_descriptors_of, platform_gpus,
    platform_gpus_of, platform_macs_of, platform_memory_layout, platform_optical,
    platform_optical_of, platform_peripherals, platform_slots_of, platform_usb_of, platform_uuid,
    PlatformReadings,
};
use crate::storage::{
    collect_storage, filesystems_of, layout_of, Disk, StorageInfo, StorageInfoView,
};
use crate::system::{
    collect_runtime, os_info_of, read_os_info, runtime_of, unknown_bios, unknown_board,
    unknown_static_data, OsFacts, RuntimeInfo, StaticData, StaticDataView, VersionsInfo,
};
use crate::thermal::{
    collect_cpu_temp, is_temperature_of, judged_of, lemma_temperature_is_unique, CpuTemperature,
    ThermalSensor,
};

verus! {

/// The time, in milliseconds, that lies between the two readings of the
/// processor counters. The load of the cores is measured over this time.
pub const SETTLE_MILLIS: u64 = 200;

/// How far the sampling of the metrics source has come.
#[derive(Clone, Copy, Debug, PartialEq, Eq, Structural)]
pub enum SamplerState {
    /// Nothing is read yet.
    Idle,
    /// The counters are read once.
    Primed,
    /// The settle time is over.
    Settled,
    /// The counters are read twice, the settle time apart.
    Ready,
}

/// What the sampler asks for next.
#[derive(Clone, Copy, Debug, PartialEq, Eq, Structural)]
pub enum SamplerAction {
    /// Read the counters for the first time.
    Prime,
    /// Wait for so many milliseconds.
    Settle { millis: u64 },
    /// Read the processor counters again.
    Resample,
    /// Take the sample: its load and frequencies are valid now.
    Use,
}

/// The state that follows `state`, and the action that leads there. A
/// sample is ready only after a first reading, the settle time and a second
/// reading, in this order.
pub open spec fn sampler_next_of(state: SamplerState) -> (SamplerState, SamplerAction) {
    match state {
        SamplerState::Idle => (SamplerState::Primed, SamplerAction::Prime),
        SamplerState::Primed => (
            SamplerState::Settled,
            SamplerAction::Settle { millis: SETTLE_MILLIS },
        ),
        SamplerState::Settled => (SamplerState::Ready, SamplerAction::Resample),
        SamplerState::Ready => (SamplerState::Ready, SamplerAction::Use),
    }
}

/// Tells what is to be done next to get a valid sample.
pub fn sampler_next(state: SamplerState) -> (next: (SamplerState, SamplerAction))
    ensures
        next == sampler_next_of(state),
{
    match state {
        SamplerState::Idle => (SamplerState::Primed, SamplerAction::Prime),
        SamplerState::Primed => (
            SamplerState::Settled,
            SamplerAction::Settle { millis: SETTLE_MILLIS },
        ),
        SamplerState::Settled => (SamplerState::Ready, SamplerAction::Resample),
        SamplerState::Ready => (SamplerState::Ready, SamplerAction::Use),
    }
}

/// The sample is taken after exactly three steps: the two readings, and the
/// settle time between them.
pub proof fn lemma_sampler_protocol()
    ensures
        sampler_next_of(SamplerState::Idle) == (SamplerState::Primed, SamplerAction::Prime),
        sampler_next_of(SamplerState::Primed) == (
            SamplerState::Settled,
            SamplerAction::Settle { millis: 200 },
        ),
        sampler_next_of(SamplerState::Settled) == (SamplerState::Ready, SamplerAction::Resample),
        forall|state: SamplerState|
            sampler_next_of(state).1 == SamplerAction::Use <==> state == SamplerState::Ready,
{
}

/// One valid sample of the metrics source.
#[derive(Clone, Debug, PartialEq, Eq)]
pub struct MetricsSample {
    /// The logical cores.
    pub cores: Vec<CpuCore>,
    /// The number of physical cores, where the source can tell.
    pub physical_cores: Option<usize>,
    /// The load of each logical core, in millionths of a percent.
    pub usages: Vec<u64>,
    pub memory: MemoryCounters,
    pub sensors: Vec<ThermalSensor>,
    /// Seconds since the machine started.
    pub uptime: u64,
    /// Seconds since the start of 1970, or `None` where the clock stands
    /// before it.
    pub since_epoch: Option<u64>,
}

/// Everything that was read of the machine for a full snapshot.
#[derive(Clone, Debug, PartialEq, Eq)]
pub struct HostReadings {
    pub sample: MetricsSample,
    /// The mounted disks.
    pub disks: Vec<Disk>,
    /// The names of the network interfaces.
    pub interfaces: Vec<String>,
    pub os: OsFacts,
    /// What the platform's own sources gave.
    pub platform: PlatformReadings,
}

/// The full snapshot.
#[derive(Clone, Debug, PartialEq, Eq)]
pub struct HardwareInfo {
    pub static_data: StaticData,
    pub cpu: CpuInfo,
    pub cpu_current_speed: CpuCurrentSpeed,
    pub current_load: CurrentLoad,
    pub cpu_temperature: CpuTemperature,
    pub graphics: GraphicsInfo,
    pub network: NetworkInfo,
    pub storage: StorageInfo,
    pub memory: MemoryInfo,
    pub audio: AudioInfo,
    pub peripherals: PeripheralInfo,
    pub optical: OpticalInfo,
    pub runtime: RuntimeInfo,
}

/// The view of [`HardwareInfo`]: its texts as sequences of characters.
pub struct HardwareInfoView {
    pub static_data: StaticDataView,
    pub cpu: CpuInfoView,
    pub cpu_current_speed: CpuCurrentSpeed,
    pub current_load: CurrentLoad,
    pub cpu_temperature: CpuTemperature,
    pub graphics: GraphicsInfoView,
    pub network: NetworkInfoView,
    pub storage: StorageInfoView,
    pub memory: MemoryInfoView,
    pub audio: AudioInfoView,
    pub peripherals: PeripheralInfoView,
    pub optical: OpticalInfoView,
    pub runtime: RuntimeInfo,
}

impl View for HardwareInfo {
    type V = HardwareInfoView;

    open spec fn view(&self) -> HardwareInfoView {
        HardwareInfoView {
            static_data: self.static_data@,
            cpu: self.cpu@,
            cpu_current_speed: self.cpu_current_speed,
            current_load: self.current_load,
            cpu_temperature: self.cpu_temperature,
            graphics: self.graphics@,
            network: self.network@,
            storage: self.storage@,
            memory: self.memory@,
            audio: self.audio@,
            peripherals: self.peripherals@,
            optical: self.optical@,
            runtime: self.runtime,
        }
    }
}

/// The live snapshot: the part of the full snapshot that changes from moment
/// to moment, without the memory modules.
#[derive(Clone, Debug, PartialEq, Eq)]
pub struct LiveInfo {
    pub cpu_current_speed: CpuCurrentSpeed,
    pub current_load: CurrentLoad,
    pub cpu_temperature: CpuTemperature,
    pub memory: MemoryInfo,
    pub runtime: RuntimeInfo,
}

/// The view of [`LiveInfo`]: its texts as sequences of characters.
pub struct LiveInfoView {
    pub cpu_current_speed: CpuCurrentSpeed,
    pub current_load: CurrentLoad,
    pub cpu_temperature: CpuTemperature,
    pub memory: MemoryInfoView,
    pub runtime: RuntimeInfo,
}

impl View for LiveInfo {
    type V = LiveInfoView;

    open spec fn view(&self) -> LiveInfoView {
        LiveInfoView {
            cpu_current_speed: self.cpu_current_speed,
            current_load: self.current_load,
            cpu_temperature: self.cpu_temperature,
            memory: self.memory@,
            runtime: self.runtime,
        }
    }
}

impl Default for LiveInfo {
    fn default() -> (out: Self)
        ensures
            out@.cpu_current_speed == (CpuCurrentSpeed { total: 0, cores: 0, min: 0, max: 0 }),
            out@.current_load == (CurrentLoad { total: 0, cores: 0 }),
            out@.cpu_temperature == (CpuTemperature { main: None, max: None }),
            out@.memory == memory_info_of(
                MemoryCounters { total: 0, used: 0, available: 0, swap_total: 0, swap_used: 0 },
                Seq::empty(),
            ),
            out@.runtime == (RuntimeInfo { uptime: 0, current: 0 }),
    {
        LiveInfo {
            cpu_current_speed: CpuCurrentSpeed::default(),
            current_load: CurrentLoad::default(),
            cpu_temperature: CpuTemperature::default(),
            memory: MemoryInfo::default(),
            runtime: RuntimeInfo::default(),
        }
    }
}

impl Default for HardwareInfo {
    fn default() -> (out: Self)
        ensures
            out@.cpu == unknown_cpu(),
            out@.cpu_current_speed == (CpuCurrentSpeed { total: 0, cores: 0, min: 0, max: 0 }),
            out@.current_load == (CurrentLoad { total: 0, cores: 0 }),
            out@.cpu_temperature == (CpuTemperature { main: None, max: None }),
            out@.graphics.controllers.len() == 0,
            out@.network.interfaces.len() == 0,
            out@.storage.disk_layout.len() == 0,
            out@.storage.filesystems.len() == 0,
            out@.memory == memory_info_of(
                MemoryCounters { total: 0, used: 0, available: 0, swap_total: 0, swap_used: 0 },
                Seq::empty(),
            ),
            out@.audio.devices.len() == 0,
            out@.peripherals.usb_devices.len() == 0,
            out@.optical.devices.len() == 0,
            out@.runtime == (RuntimeInfo { uptime: 0, current: 0 }),
            out@.static_data == unknown_static_data(),
    {
        HardwareInfo {
            static_data: StaticData::default(),
            cpu: CpuInfo::default(),
            cpu_current_speed: CpuCurrentSpeed::default(),
            current_load: CurrentLoad::default(),
            cpu_temperature: CpuTemperature::default(),
            graphics: GraphicsInfo::default(),
            network: NetworkInfo::default(),
            storage: StorageInfo::default(),
            memory: MemoryInfo::default(),
            audio: AudioInfo::default(),
            peripherals: PeripheralInfo::default(),
            optical: OpticalInfo::default(),
            runtime: RuntimeInfo::default(),
        }
    }
}

/// Whether `data` is what does not change while the machine runs: board,
/// firmware and hardware addresses as the platform's sources give them, and
/// the operating system as the facts describe it.
pub open spec fn is_static_data_of(
    data: StaticDataView,
    platform: &PlatformReadings,
    os: &OsFacts,
) -> bool {
    &&& data.baseboard == platform_baseboard_of(platform)
    &&& data.bios == platform_bios_of(platform)
    &&& data.os == os_info_of(os)
    &&& data.uuid.macs == platform_macs_of(platform)
    &&& data.versions.node == "N/A (Rust backend)"@
}

/// Whether `live` is the live snapshot of `sample`.
pub open spec fn is_live_info_of(live: LiveInfoView, sample: &MetricsSample) -> bool {
    &&& is_speed_of(live.cpu_current_speed, frequencies_of(sample.cores.deep_view()))
    &&& live.current_load == load_of(sample.usages@)
    &&& is_temperature_of(live.cpu_temperature, judged_of(sample.sensors.deep_view()))
    &&& live.memory == memory_info_of(sample.memory, Seq::empty())
    &&& live.runtime == runtime_of(sample.uptime, sample.since_epoch)
}

/// Whether `info` is the full snapshot of `readings`: every part of it is
/// what its source gives, or the part's default where the source is missing.
pub open spec fn is_hardware_info_of(info: HardwareInfoView, readings: &HostReadings) -> bool {
    &&& is_static_data_of(info.static_data, &readings.platform, &readings.os)
    &&& is_cpu_info_of(
        info.cpu,
        readings.sample.cores.deep_view(),
        readings.sample.physical_cores,
        platform_descriptors_of(&readings.platform),
        platform_cpu_table_of(&readings.platform),
    )
    &&& is_speed_of(info.cpu_current_speed, frequencies_of(readings.sample.cores.deep_view()))
    &&& info.current_load == load_of(readings.sample.usages@)
    &&& is_temperature_of(info.cpu_temperature, judged_of(readings.sample.sensors.deep_view()))
    &&& info.graphics.controllers == platform_gpus_of(&readings.platform)
    &&& info.network.interfaces == interfaces_of(readings.interfaces.deep_view())
    &&& info.storage.filesystems == filesystems_of(readings.disks.deep_view())
    &&& info.storage.disk_layout == layout_of(readings.disks.deep_view())
    &&& info.memory == memory_info_of(readings.sample.memory, platform_slots_of(&readings.platform))
    &&& info.audio.devices == platform_audio_of(&readings.platform)
    &&& info.peripherals.usb_devices == platform_usb_of(&readings.platform)
    &&& info.optical.devices == platform_optical_of(&readings.platform)
    &&& info.runtime == runtime_of(readings.sample.uptime, readings.sample.since_epoch)
}

/// The frequencies of the cores, in their order.
fn frequencies(cores: &Vec<CpuCore>) -> (out: Vec<u64>)
    ensures
        out@ == frequencies_of(cores.deep_view()),
{
    let mut out: Vec<u64> = Vec::new();
    let mut i: usize = 0;
    while i < cores.len()
        invariant
            i <= cores.len(),
            out@ == frequencies_of(cores.deep_view()).take(i as int),
        decreases cores.len() - i,
    {
        out.push(cores[i].frequency);
        i += 1;
    }
    out
}

/// Puts together what does not change while the machine runs.
pub fn collect_static_data(platform: &PlatformReadings, os: &OsFacts) -> (data: StaticData)
    ensures
        is_static_data_of(data@, platform, os),
{
    StaticData {
        baseboard: platform_baseboard(platform),
        bios: platform_bios(platform),
        os: read_os_info(os),
        uuid: platform_uuid(platform),
        versions: VersionsInfo { node: "N/A (Rust backend)".to_owned() },
    }
}

/// Describes the processor from the sample and the platform's sources.
fn describe_cpu(sample: &MetricsSample, platform: &PlatformReadings) -> (info: CpuInfo)
    ensures
        is_cpu_info_of(
            info@,
            sample.cores.deep_view(),
            sample.physical_cores,
            platform_descriptors_of(platform),
            platform_cpu_table_of(platform),
        ),
        info.wf(),
{
    match platform {
        PlatformReadings::Kernel(kernel) => collect_cpu_info(
            &sample.cores,
            sample.physical_cores,
            &kernel.cache_descriptors,
            as_text(&kernel.cpu_table),
        ),
        _ => {
            let none = Vec::new();
            assert(none.deep_view() == platform_descriptors_of(platform));
            collect_cpu_info(&sample.cores, sample.physical_cores, &none, None)
        },
    }
}

/// Puts the full snapshot together. No source is needed for it to succeed:
/// what a source does not give stands at its default.
pub fn collect_hardware_info(readings: &HostReadings) -> (info: HardwareInfo)
    ensures
        is_hardware_info_of(info@, readings),
        info.cpu.wf(),
        info.memory.wf(),
{
    let sample = &readings.sample;
    let platform = &readings.platform;
    HardwareInfo {
        static_data: collect_static_data(platform, &readings.os),
        cpu: describe_cpu(sample, platform),
        cpu_current_speed: collect_cpu_speed(&frequencies(&sample.cores)),
        current_load: collect_cpu_load(&sample.usages),
        cpu_temperature: collect_cpu_temp(&sample.sensors),
        graphics: GraphicsInfo { controllers: platform_gpus(platform) },
        network: collect_network(&readings.interfaces),
        storage: collect_storage(&readings.disks),
        memory: collect_memory(sample.memory, platform_memory_layout(platform)),
        audio: platform_audio(platform),
        peripherals: platform_peripherals(platform),
        optical: platform_optical(platform),
        runtime: collect_runtime(sample.uptime, sample.since_epoch),
    }
}

/// Puts the live snapshot together. It never lists the memory modules.
pub fn collect_live_info(sample: &MetricsSample) -> (live: LiveInfo)
    ensures
        is_live_info_of(live@, sample),
        live@.memory.layout.len() == 0,
        live.memory.wf(),
{
    LiveInfo {
        cpu_current_speed: collect_cpu_speed(&frequencies(&sample.cores)),
        current_load: collect_cpu_load(&sample.usages),
        cpu_temperature: collect_cpu_temp(&sample.sensors),
        memory: collect_memory_live(sample.memory),
        runtime: collect_runtime(sample.uptime, sample.since_epoch),
    }
}

/// Whether the platform's sources gave nothing: no file could be read, no
/// tool run, and no query answered.
pub open spec fn platform_gave_nothing(platform: &PlatformReadings) -> bool {
    match platform {
        PlatformReadings::Kernel(kernel) => {
            &&& kernel.board.vendor is None
            &&& kernel.board.name is None
            &&& kernel.board.version is None
            &&& kernel.board.serial is None
            &&& kernel.bios.vendor is None
            &&& kernel.bios.version is None
            &&& kernel.bios.date is None
            &&& kernel.addresses.len() == 0
            &&& kernel.cache_descriptors.len() == 0
            &&& kernel.cpu_table is None
            &&& kernel.memory_listing is None
            &&& kernel.pci_listing is None
            &&& kernel.usb_listing is None
            &&& kernel.audio_listing is None
            &&& kernel.cdrom_table is None
            &&& !kernel.cdrom_node
        },
        PlatformReadings::Management(management) => {
            &&& management.gpus is None
            &&& management.memory is None
            &&& management.boards is None
            &&& management.bioses is None
            &&& management.adapters is None
        },
        PlatformReadings::Unsupported => true,
    }
}

/// Whether nothing at all could be read of the machine but its clock and
/// its memory counters.
pub open spec fn host_gave_nothing(readings: &HostReadings) -> bool {
    &&& platform_gave_nothing(&readings.platform)
    &&& readings.sample.cores.len() == 0
    &&& readings.sample.usages.len() == 0
    &&& readings.sample.sensors.len() == 0
    &&& readings.disks.len() == 0
    &&& readings.interfaces.len() == 0
}

/// On a machine of which nothing could be read, the full snapshot is still
/// whole: every part that a source would give stands at its default.
pub proof fn lemma_nothing_read_gives_defaults(info: HardwareInfoView, readings: &HostReadings)
    requires
        is_hardware_info_of(info, readings),
        host_gave_nothing(readings),
    ensures
        info.static_data.baseboard == unknown_board(),
        info.static_data.bios == unknown_bios(),
        info.static_data.uuid.macs == Seq::<Seq<char>>::empty(),
        info.cpu == (CpuInfoView { physical_cores: info.cpu.physical_cores, ..unknown_cpu() }),
        info.cpu.physical_cores == 0,
        info.cpu_current_speed == (CpuCurrentSpeed { total: 0, cores: 0, min: 0, max: 0 }),
        info.current_load == (CurrentLoad { total: 0, cores: 0 }),
        info.cpu_temperature == (CpuTemperature { main: None, max: None }),
        info.graphics.controllers == Seq::<GpuControllerView>::empty(),
        info.network.interfaces.len() == 0,
        info.storage.disk_layout.len() == 0,
        info.storage.filesystems.len() == 0,
        info.memory.layout == Seq::<MemorySlotView>::empty(),
        info.audio.devices.len() == 0,
        info.peripherals.usb_devices.len() == 0,
        info.optical.devices.len() == 0,
{
    let sample = &readings.sample;
    assert(sample.cores.deep_view().len() == 0);
    assert(sample.sensors.deep_view().len() == 0);
    assert(readings.disks.deep_view().len() == 0);
    assert(readings.interfaces.deep_view().len() == 0);
    assert(frequencies_of(sample.cores.deep_view()).len() == 0);
    assert(judged_of(sample.sensors.deep_view()).len() == 0);
    assert(sum_of(sample.usages@) == 0);
}

/// The live snapshot is the part of the full snapshot that changes, but for
/// the memory modules, which it leaves out.
pub proof fn lemma_live_is_part_of_full(
    info: HardwareInfoView,
    live: LiveInfoView,
    readings: &HostReadings,
)
    requires
        is_hardware_info_of(info, readings),
        is_live_info_of(live, &readings.sample),
    ensures
        live.runtime == info.runtime,
        live.memory == (MemoryInfoView { layout: Seq::empty(), ..info.memory }),
        live.memory.layout.len() == 0,
        live.cpu_current_speed == info.cpu_current_speed,
        live.current_load == info.current_load,
        live.cpu_temperature == info.cpu_temperature,
{
    lemma_speed_is_unique(
        live.cpu_current_speed,
        info.cpu_current_speed,
        frequencies_of(readings.sample.cores.deep_view()),
    );
    lemma_temperature_is_unique(
        live.cpu_temperature,
        info.cpu_temperature,
        judged_of(readings.sample.sensors.deep_view()),
    );
}

} // verus!
