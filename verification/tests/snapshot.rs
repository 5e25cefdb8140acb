use hwinfo::audio::AudioInfo;
use hwinfo::cpu::{CacheDescriptor, CpuCore, CpuCurrentSpeed, CpuInfo, CurrentLoad};
use hwinfo::graphics::GraphicsInfo;
use hwinfo::management::{BiosRecord, BoardRecord, GpuRecord, MemoryRecord, NetAdapterRecord};
use hwinfo::memory::{MemoryCounters, MemoryInfo};
use hwinfo::network::NetworkInfo;
use hwinfo::optical::OpticalInfo;
use hwinfo::peripherals::PeripheralInfo;
use hwinfo::platform::{KernelReadings, ManagementReadings, PlatformReadings};
use hwinfo::snapshot::{
    collect_hardware_info, collect_live_info, collect_static_data, sampler_next, HardwareInfo,
    HostReadings, LiveInfo, MetricsSample, SamplerAction, SamplerState, SETTLE_MILLIS,
};
use hwinfo::storage::{Disk, StorageInfo};
use hwinfo::system::{
    BaseboardInfo, BiosFiles, BiosInfo, BoardFiles, OsFacts, OsInfo, RuntimeInfo, StaticData,
    UuidInfo,
};
use hwinfo::thermal::{CpuTemperature, ThermalSensor};

fn text(s: &str) -> Option<String> {
    Some(s.to_string())
}

fn bare_sample() -> MetricsSample {
    MetricsSample {
        cores: Vec::new(),
        physical_cores: None,
        usages: Vec::new(),
        memory: MemoryCounters { total: 0, used: 0, available: 0, swap_total: 0, swap_used: 0 },
        sensors: Vec::new(),
        uptime: 0,
        since_epoch: None,
    }
}

fn bare_kernel() -> KernelReadings {
    KernelReadings {
        board: BoardFiles { vendor: None, name: None, version: None, serial: None },
        bios: BiosFiles { vendor: None, version: None, date: None },
        addresses: Vec::new(),
        cache_descriptors: Vec::new(),
        cpu_table: None,
        memory_listing: None,
        pci_listing: None,
        usb_listing: None,
        audio_listing: None,
        cdrom_table: None,
        cdrom_node: false,
    }
}

fn no_facts() -> OsFacts {
    OsFacts {
        hostname: None,
        kernel: None,
        name: None,
        os_version: None,
        long_os_version: None,
        arch: None,
        uefi: false,
        target_os: String::new(),
    }
}

fn bare_host(platform: PlatformReadings) -> HostReadings {
    HostReadings {
        sample: bare_sample(),
        disks: Vec::new(),
        interfaces: Vec::new(),
        os: no_facts(),
        platform,
    }
}

fn busy_sample() -> MetricsSample {
    MetricsSample {
        cores: vec![
            CpuCore { brand: "B".to_string(), vendor: "V".to_string(), frequency: 2000 },
            CpuCore { brand: "B".to_string(), vendor: "V".to_string(), frequency: 3000 },
        ],
        physical_cores: Some(1),
        usages: vec![25_000_000, 75_500_000],
        memory: MemoryCounters {
            total: 8000,
            used: 3000,
            available: 5000,
            swap_total: 100,
            swap_used: 300,
        },
        sensors: vec![
            ThermalSensor { label: "Core 0".to_string(), reading: 41 },
            ThermalSensor { label: "Package id 0".to_string(), reading: 40 },
        ],
        uptime: 77,
        since_epoch: Some(1700000000),
    }
}

fn assert_all_defaults(info: &HardwareInfo) {
    assert_eq!(info.static_data.baseboard, BaseboardInfo::default());
    assert_eq!(info.static_data.bios, BiosInfo::default());
    assert_eq!(info.static_data.os, OsInfo::default());
    assert_eq!(info.static_data.uuid, UuidInfo::default());
    assert_eq!(info.static_data.versions.node, "N/A (Rust backend)");
    assert_eq!(info.cpu, CpuInfo::default());
    assert_eq!(info.cpu_current_speed, CpuCurrentSpeed::default());
    assert_eq!(info.current_load, CurrentLoad::default());
    assert_eq!(info.cpu_temperature, CpuTemperature::default());
    assert_eq!(info.graphics, GraphicsInfo::default());
    assert_eq!(info.network, NetworkInfo::default());
    assert_eq!(info.storage, StorageInfo::default());
    assert_eq!(info.memory, MemoryInfo::default());
    assert_eq!(info.audio, AudioInfo::default());
    assert_eq!(info.peripherals, PeripheralInfo::default());
    assert_eq!(info.optical, OpticalInfo::default());
    assert_eq!(info.runtime, RuntimeInfo::default());
    let mut expected = HardwareInfo::default();
    expected.static_data.versions.node = "N/A (Rust backend)".to_string();
    assert_eq!(*info, expected);
}

#[test]
fn host_without_tools_and_sensors_gives_the_defaults() {
    assert_all_defaults(&collect_hardware_info(&bare_host(PlatformReadings::Kernel(bare_kernel()))));
}

#[test]
fn host_without_answers_gives_the_defaults() {
    let management = ManagementReadings {
        gpus: None,
        memory: None,
        boards: None,
        bioses: None,
        adapters: None,
    };
    assert_all_defaults(&collect_hardware_info(&bare_host(PlatformReadings::Management(management))));
}

#[test]
fn platform_without_sources_gives_the_defaults() {
    assert_all_defaults(&collect_hardware_info(&bare_host(PlatformReadings::Unsupported)));
}

#[test]
fn full_snapshot_reads_every_source() {
    let mut kernel = bare_kernel();
    kernel.addresses = vec![text("aa:bb:cc:dd:ee:ff\n")];
    kernel.board.vendor = text("Vendor\n");
    kernel.bios.version = text("1.0\n");
    kernel.cache_descriptors =
        vec![CacheDescriptor { level: "2".to_string(), size: "1M".to_string() }];
    kernel.cpu_table = text("cpu family: 6\nmodel\t: 1\nstepping: 2\n");
    kernel.memory_listing = text("Memory Device\nSize: 4 GB\n");
    kernel.pci_listing = text("00:02.0 VGA compatible controller: Intel Corporation UHD\n");
    kernel.usb_listing = text("Bus 001 Device 002: ID 8087:0a2b Intel Corp. Bluetooth\n");
    kernel.audio_listing = text("card 0: PCH [HDA Intel PCH], device 0: x\n");
    kernel.cdrom_table = text("drive name: sr0\ndrive model: DVD\n");
    kernel.cdrom_node = true;
    let mut host = bare_host(PlatformReadings::Kernel(kernel));
    host.sample = busy_sample();
    host.os.target_os = "linux".to_string();
    host.os.hostname = text("box");
    host.disks = vec![Disk {
        name: "sda".to_string(),
        mount: "/".to_string(),
        file_system: "ext4".to_string(),
        kind: "SSD".to_string(),
        total: 100,
        available: 40,
    }];
    host.interfaces = vec!["eth0".to_string()];
    let info = collect_hardware_info(&host);
    assert_eq!(info.static_data.baseboard.manufacturer, "Vendor");
    assert_eq!(info.static_data.bios.version, "1.0");
    assert_eq!(info.static_data.uuid.macs, vec!["aa:bb:cc:dd:ee:ff"]);
    assert_eq!(info.static_data.os.platform, "linux");
    assert_eq!(info.static_data.os.hostname, "box");
    assert_eq!(info.cpu.brand, "B");
    assert_eq!((info.cpu.physical_cores, info.cpu.cores), (1, 2));
    assert_eq!(info.cpu.cache.l2, 1048576);
    assert_eq!(info.cpu.family, "6");
    assert_eq!(info.cpu.speed, info.cpu_current_speed);
    assert_eq!(
        info.cpu_current_speed,
        CpuCurrentSpeed { total: 5000, cores: 2, min: 2000, max: 3000 }
    );
    assert_eq!(info.current_load, CurrentLoad { total: 100_500_000, cores: 2 });
    assert_eq!(info.cpu_temperature, CpuTemperature { main: Some(1), max: Some(0) });
    assert_eq!(info.graphics.controllers.len(), 1);
    assert_eq!(info.graphics.controllers[0].vendor, "Intel");
    assert_eq!(info.network.interfaces.len(), 1);
    assert_eq!(info.storage.disk_layout.len(), 1);
    assert_eq!(info.storage.filesystems[0].used, 60);
    assert_eq!(info.memory.layout.len(), 1);
    assert_eq!(info.memory.layout[0].size, 4294967296);
    assert_eq!(info.memory.swapfree, 0);
    assert_eq!(info.audio.devices[0].name, "PCH");
    assert_eq!(info.peripherals.usb_devices[0].vendor_id, "8087");
    assert_eq!(info.optical.devices[0].model, "DVD");
    assert_eq!(info.runtime, RuntimeInfo { uptime: 77, current: 1700000000 });
}

#[test]
fn full_snapshot_reads_the_management_interface() {
    let management = ManagementReadings {
        gpus: Some(vec![GpuRecord {
            name: text("Radeon"),
            video_processor: None,
            adapter_ram: Some(1024),
        }]),
        memory: Some(vec![MemoryRecord {
            capacity: Some(0),
            speed: Some(2400),
            manufacturer: None,
            part_number: None,
            serial_number: None,
            form_factor: Some(8),
            memory_type: None,
        }]),
        boards: Some(vec![BoardRecord {
            manufacturer: text("ASUS"),
            product: None,
            version: None,
            serial_number: None,
        }]),
        bioses: Some(vec![BiosRecord {
            manufacturer: text("AMI"),
            version: None,
            release_date: None,
        }]),
        adapters: Some(vec![NetAdapterRecord { mac_address: text("AA:BB") }]),
    };
    let mut host = bare_host(PlatformReadings::Management(management));
    host.sample = busy_sample();
    host.os.target_os = "windows".to_string();
    let info = collect_hardware_info(&host);
    assert_eq!(info.static_data.os.platform, "win32");
    assert_eq!(info.static_data.baseboard.manufacturer, "ASUS");
    assert_eq!(info.static_data.bios.vendor, "AMI");
    assert_eq!(info.static_data.uuid.macs, vec!["AA:BB"]);
    assert_eq!(info.graphics.controllers[0].model, "Radeon");
    assert_eq!(info.graphics.controllers[0].vendor, "Unknown");
    assert_eq!(info.graphics.controllers[0].vram, 1024);
    assert_eq!(info.memory.layout.len(), 1);
    assert_eq!(info.memory.layout[0].form_factor, "8");
    assert_eq!(info.memory.layout[0].clock_speed, 2400);
    assert_eq!(info.cpu.family, "");
    assert_eq!(info.cpu.cache.l2, 0);
    assert_eq!(info.cpu.cores, 2);
    assert!(info.audio.devices.is_empty());
    assert!(info.peripherals.usb_devices.is_empty());
    assert!(info.optical.devices.is_empty());
}

#[test]
fn static_data_without_sources() {
    let mut expected = StaticData::default();
    expected.versions.node = "N/A (Rust backend)".to_string();
    assert_eq!(collect_static_data(&PlatformReadings::Unsupported, &no_facts()), expected);
}

#[test]
fn static_data_puts_the_parts_together() {
    let mut kernel = bare_kernel();
    kernel.board.vendor = text("V");
    kernel.bios.date = text("01/02/2020\n");
    kernel.addresses = vec![text("aa:bb:cc:dd:ee:ff"), text("00:00:00:00:00:00")];
    let mut facts = no_facts();
    facts.target_os = "macos".to_string();
    facts.uefi = true;
    let data = collect_static_data(&PlatformReadings::Kernel(kernel), &facts);
    assert_eq!(data.baseboard.manufacturer, "V");
    assert_eq!(data.bios.release_date, "01/02/2020");
    assert_eq!(data.os.platform, "darwin");
    assert!(data.os.uefi);
    assert_eq!(data.uuid.macs, vec!["aa:bb:cc:dd:ee:ff"]);
    assert_eq!(data.versions.node, "N/A (Rust backend)");
}

#[test]
fn live_snapshot_never_lists_the_memory_modules() {
    let live = collect_live_info(&busy_sample());
    assert!(live.memory.layout.is_empty());
    assert_eq!(live.memory.total, 8000);
    assert_eq!(live.memory.swapfree, 0);
    assert_eq!(
        live.cpu_current_speed,
        CpuCurrentSpeed { total: 5000, cores: 2, min: 2000, max: 3000 }
    );
    assert_eq!(live.current_load, CurrentLoad { total: 100_500_000, cores: 2 });
    assert_eq!(live.cpu_temperature, CpuTemperature { main: Some(1), max: Some(0) });
    assert_eq!(live.runtime, RuntimeInfo { uptime: 77, current: 1700000000 });
    assert_eq!(collect_live_info(&bare_sample()), LiveInfo::default());
}

#[test]
fn live_snapshot_is_part_of_the_full_one() {
    let mut kernel = bare_kernel();
    kernel.memory_listing = text("Memory Device\nSize: 4 GB\n");
    let mut host = bare_host(PlatformReadings::Kernel(kernel));
    host.sample = busy_sample();
    let info = collect_hardware_info(&host);
    let live = collect_live_info(&host.sample);
    assert_eq!(live.cpu_current_speed, info.cpu_current_speed);
    assert_eq!(live.current_load, info.current_load);
    assert_eq!(live.cpu_temperature, info.cpu_temperature);
    assert_eq!(live.runtime, info.runtime);
    assert_eq!(live.memory.total, info.memory.total);
    assert_eq!(live.memory.swapfree, info.memory.swapfree);
    assert!(!info.memory.layout.is_empty());
}

#[test]
fn sampling_takes_two_readings_and_the_settle_time_between() {
    let (state, action) = sampler_next(SamplerState::Idle);
    assert_eq!((state, action), (SamplerState::Primed, SamplerAction::Prime));
    let (state, action) = sampler_next(state);
    assert_eq!((state, action), (SamplerState::Settled, SamplerAction::Settle { millis: 200 }));
    let (state, action) = sampler_next(state);
    assert_eq!((state, action), (SamplerState::Ready, SamplerAction::Resample));
    let (state, action) = sampler_next(state);
    assert_eq!((state, action), (SamplerState::Ready, SamplerAction::Use));
    assert_eq!(sampler_next(state), (SamplerState::Ready, SamplerAction::Use));
    assert_eq!(SETTLE_MILLIS, 200);
}
