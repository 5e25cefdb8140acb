//! The sources that a platform offers, and for each part of the inventory
//! the one source that gives it. Which platform it is, is fixed when the
//! program is built. A platform without sources gives every part at its
//! default.

use vstd::prelude::*;
use crate::audio::{audio_devices_of, collect_audio, AudioDeviceView, AudioInfo};
use crate::cpu::{CacheDescriptor, CacheDescriptorView};
use crate::graphics::{gpus_of, read_gpu_info, GpuController, GpuControllerView};
use crate::management::{
    answer_of, baseboard_from_records, bios_from_records, bios_of_records, board_of_records,
    gpus_from_records, gpus_of_records, macs_of_records, memory_layout_from_records,
    slots_of_records, uuid_from_records, BiosRecord, BoardRecord, GpuRecord, MemoryRecord,
    NetAdapterRecord,
};
use crate::memory::{memory_slots_of, read_memory_layout, LayoutStep, MemorySlot, MemorySlotView};
use crate::optical::{collect_optical, optical_devices_of, OpticalDeviceView, OpticalInfo};
use crate::peripherals::{collect_peripherals, usb_devices_of, PeripheralInfo, UsbDeviceView};
use crate::system::{
    baseboard_of, bios_of, macs_of, read_baseboard_info, read_bios_info, read_uuid_info,
    unknown_bios, unknown_board, BaseboardInfo, BaseboardInfoView, BiosFiles, BiosInfo,
    BiosInfoView, BoardFiles, UuidInfo,
};

verus! {

/// What was read from the kernel's files and from the command-line tools. A
/// file that cannot be read, or a tool that cannot be run, is `None`.
#[derive(Clone, Debug, PartialEq, Eq)]
pub struct KernelReadings {
    pub board: BoardFiles,
    pub bios: BiosFiles,
    /// The address file of each of the network interfaces.
    pub addresses: Vec<Option<String>>,
    /// The cache descriptors of the first core, in the order of their index.
    pub cache_descriptors: Vec<CacheDescriptor>,
    /// The kernel's processor table.
    pub cpu_table: Option<String>,
    /// The listing of the memory modules, from whichever attempt gave one.
    pub memory_listing: Option<String>,
    /// The listing of the PCI bus.
    pub pci_listing: Option<String>,
    /// The listing of the USB buses.
    pub usb_listing: Option<String>,
    /// The listing of the playback devices.
    pub audio_listing: Option<String>,
    /// The kernel's table of CD-ROM drives.
    pub cdrom_table: Option<String>,
    /// Whether the device node of the first CD-ROM drive exists.
    pub cdrom_node: bool,
}

/// The answers of the management interface. A query that failed, or whose
/// answer cannot be decoded, is `None`.
#[derive(Clone, Debug, PartialEq, Eq)]
pub struct ManagementReadings {
    pub gpus: Option<Vec<GpuRecord>>,
    pub memory: Option<Vec<MemoryRecord>>,
    pub boards: Option<Vec<BoardRecord>>,
    pub bioses: Option<Vec<BiosRecord>>,
    pub adapters: Option<Vec<NetAdapterRecord>>,
}

/// The sources of the platform that the program was built for.
#[derive(Clone, Debug, PartialEq, Eq)]
pub enum PlatformReadings {
    /// Kernel files and command-line tools.
    Kernel(KernelReadings),
    /// The management interface of the operating system.
    Management(ManagementReadings),
    /// No source at all.
    Unsupported,
}

/// The memory modules that the listing describes; none without a listing.
pub open spec fn listed_slots_of(listing: Option<Seq<char>>) -> Seq<MemorySlotView> {
    match listing {
        Some(text) => memory_slots_of(text),
        None => Seq::empty(),
    }
}

/// The main board as the platform's source describes it.
pub open spec fn platform_baseboard_of(platform: &PlatformReadings) -> BaseboardInfoView {
    match platform {
        PlatformReadings::Kernel(kernel) => baseboard_of(&kernel.board),
        PlatformReadings::Management(management) => board_of_records(
            answer_of(&management.boards),
        ),
        PlatformReadings::Unsupported => unknown_board(),
    }
}

/// The firmware as the platform's source describes it.
pub open spec fn platform_bios_of(platform: &PlatformReadings) -> BiosInfoView {
    match platform {
        PlatformReadings::Kernel(kernel) => bios_of(&kernel.bios),
        PlatformReadings::Management(management) => bios_of_records(
            answer_of(&management.bioses),
        ),
        PlatformReadings::Unsupported => unknown_bios(),
    }
}

/// The hardware addresses that the platform's source gives.
pub open spec fn platform_macs_of(platform: &PlatformReadings) -> Seq<Seq<char>> {
    match platform {
        PlatformReadings::Kernel(kernel) => macs_of(kernel.addresses.deep_view()),
        PlatformReadings::Management(management) => macs_of_records(
            answer_of(&management.adapters),
        ),
        PlatformReadings::Unsupported => Seq::empty(),
    }
}

/// The display adapters that the platform's source lists.
pub open spec fn platform_gpus_of(platform: &PlatformReadings) -> Seq<GpuControllerView> {
    match platform {
        PlatformReadings::Kernel(kernel) => gpus_of(kernel.pci_listing.deep_view()),
        PlatformReadings::Management(management) => gpus_of_records(answer_of(&management.gpus)),
        PlatformReadings::Unsupported => Seq::empty(),
    }
}

/// The memory modules that the platform's source lists.
pub open spec fn platform_slots_of(platform: &PlatformReadings) -> Seq<MemorySlotView> {
    match platform {
        PlatformReadings::Kernel(kernel) => listed_slots_of(kernel.memory_listing.deep_view()),
        PlatformReadings::Management(management) => slots_of_records(
            answer_of(&management.memory),
        ),
        PlatformReadings::Unsupported => Seq::empty(),
    }
}

/// The cache descriptors that the platform offers; only the kernel has any.
pub open spec fn platform_descriptors_of(platform: &PlatformReadings) -> Seq<CacheDescriptorView> {
    match platform {
        PlatformReadings::Kernel(kernel) => kernel.cache_descriptors.deep_view(),
        _ => Seq::empty(),
    }
}

/// The processor table that the platform offers; only the kernel has one.
pub open spec fn platform_cpu_table_of(platform: &PlatformReadings) -> Option<Seq<char>> {
    match platform {
        PlatformReadings::Kernel(kernel) => kernel.cpu_table.deep_view(),
        _ => None,
    }
}

/// The sound cards that the platform's source lists; only the kernel's
/// tools list any.
pub open spec fn platform_audio_of(platform: &PlatformReadings) -> Seq<AudioDeviceView> {
    match platform {
        PlatformReadings::Kernel(kernel) => audio_devices_of(kernel.audio_listing.deep_view()),
        _ => Seq::empty(),
    }
}

/// The USB devices that the platform's source lists; only the kernel's
/// tools list any.
pub open spec fn platform_usb_of(platform: &PlatformReadings) -> Seq<UsbDeviceView> {
    match platform {
        PlatformReadings::Kernel(kernel) => usb_devices_of(kernel.usb_listing.deep_view()),
        _ => Seq::empty(),
    }
}

/// The optical drives that the platform's source lists; only the kernel
/// lists any.
pub open spec fn platform_optical_of(platform: &PlatformReadings) -> Seq<OpticalDeviceView> {
    match platform {
        PlatformReadings::Kernel(kernel) => optical_devices_of(
            kernel.cdrom_table.deep_view(),
            kernel.cdrom_node,
        ),
        _ => Seq::empty(),
    }
}

/// Borrows a text that may be missing.
pub fn as_text(text: &Option<String>) -> (out: Option<&str>)
    ensures
        out.deep_view() == text.deep_view(),
{
    match text {
        Some(t) => Some(t.as_str()),
        None => None,
    }
}

/// The main board, from the platform's source.
pub fn platform_baseboard(platform: &PlatformReadings) -> (info: BaseboardInfo)
    ensures
        info@ == platform_baseboard_of(platform),
{
    match platform {
        PlatformReadings::Kernel(kernel) => read_baseboard_info(&kernel.board),
        PlatformReadings::Management(management) => baseboard_from_records(&management.boards),
        PlatformReadings::Unsupported => BaseboardInfo::default(),
    }
}

/// The firmware, from the platform's source.
pub fn platform_bios(platform: &PlatformReadings) -> (info: BiosInfo)
    ensures
        info@ == platform_bios_of(platform),
{
    match platform {
        PlatformReadings::Kernel(kernel) => read_bios_info(&kernel.bios),
        PlatformReadings::Management(management) => bios_from_records(&management.bioses),
        PlatformReadings::Unsupported => BiosInfo::default(),
    }
}

/// The hardware addresses, from the platform's source.
pub fn platform_uuid(platform: &PlatformReadings) -> (info: UuidInfo)
    ensures
        info@.macs == platform_macs_of(platform),
{
    match platform {
        PlatformReadings::Kernel(kernel) => read_uuid_info(&kernel.addresses),
        PlatformReadings::Management(management) => uuid_from_records(&management.adapters),
        PlatformReadings::Unsupported => {
            let info = UuidInfo::default();
            assert(info@.macs == Seq::<Seq<char>>::empty());
            info
        },
    }
}

/// The display adapters, from the platform's source.
pub fn platform_gpus(platform: &PlatformReadings) -> (gpus: Vec<GpuController>)
    ensures
        gpus.deep_view() == platform_gpus_of(platform),
{
    match platform {
        PlatformReadings::Kernel(kernel) => read_gpu_info(as_text(&kernel.pci_listing)),
        PlatformReadings::Management(management) => gpus_from_records(&management.gpus),
        PlatformReadings::Unsupported => {
            let gpus: Vec<GpuController> = Vec::new();
            assert(gpus.deep_view() == Seq::<GpuControllerView>::empty());
            gpus
        },
    }
}

/// The memory modules, from the platform's source.
pub fn platform_memory_layout(platform: &PlatformReadings) -> (slots: Vec<MemorySlot>)
    ensures
        slots.deep_view() == platform_slots_of(platform),
{
    match platform {
        PlatformReadings::Kernel(kernel) => {
            match read_memory_layout(as_text(&kernel.memory_listing), true) {
                LayoutStep::Done(slots) => slots,
                LayoutStep::RetryElevated => Vec::new(),
            }
        },
        PlatformReadings::Management(management) => memory_layout_from_records(
            &management.memory,
        ),
        PlatformReadings::Unsupported => {
            let slots: Vec<MemorySlot> = Vec::new();
            assert(slots.deep_view() == Seq::<MemorySlotView>::empty());
            slots
        },
    }
}

/// The sound cards, from the platform's source.
pub fn platform_audio(platform: &PlatformReadings) -> (info: AudioInfo)
    ensures
        info@.devices == platform_audio_of(platform),
{
    match platform {
        PlatformReadings::Kernel(kernel) => collect_audio(as_text(&kernel.audio_listing)),
        _ => collect_audio(None),
    }
}

/// The USB devices, from the platform's source.
pub fn platform_peripherals(platform: &PlatformReadings) -> (info: PeripheralInfo)
    ensures
        info@.usb_devices == platform_usb_of(platform),
{
    match platform {
        PlatformReadings::Kernel(kernel) => collect_peripherals(as_text(&kernel.usb_listing)),
        _ => collect_peripherals(None),
    }
}

/// The optical drives, from the platform's source.
pub fn platform_optical(platform: &PlatformReadings) -> (info: OpticalInfo)
    ensures
        info@.devices == platform_optical_of(platform),
{
    match platform {
        PlatformReadings::Kernel(kernel) => collect_optical(
            as_text(&kernel.cdrom_table),
            kernel.cdrom_node,
        ),
        _ => collect_optical(None, false),
    }
}

} // verus!
