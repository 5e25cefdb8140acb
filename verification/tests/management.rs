use hwinfo::graphics::GpuController;
use hwinfo::management::{
    baseboard_from_records, bios_from_records, gpus_from_records, memory_layout_from_records,
    uuid_from_records, BiosRecord, BoardRecord, GpuRecord, MemoryRecord, NetAdapterRecord,
};
use hwinfo::memory::MemorySlot;
use hwinfo::system::{BaseboardInfo, BiosInfo, UuidInfo};

fn text(s: &str) -> Option<String> {
    Some(s.to_string())
}

#[test]
fn adapters_of_records() {
    let records = vec![
        GpuRecord {
            name: text("NVIDIA GeForce RTX 3060"),
            video_processor: text("GeForce RTX 3060"),
            adapter_ram: Some(4293918720),
        },
        GpuRecord { name: None, video_processor: None, adapter_ram: None },
    ];
    assert_eq!(
        gpus_from_records(&Some(records)),
        vec![
            GpuController {
                model: "NVIDIA GeForce RTX 3060".to_string(),
                vendor: "GeForce RTX 3060".to_string(),
                vram: 4293918720,
                bus: "PCI".to_string(),
            },
            GpuController {
                model: String::new(),
                vendor: "Unknown".to_string(),
                vram: 0,
                bus: "PCI".to_string(),
            },
        ]
    );
    assert!(gpus_from_records(&None).is_empty());
    assert!(gpus_from_records(&Some(Vec::new())).is_empty());
}

#[test]
fn modules_of_records() {
    let records = vec![
        MemoryRecord {
            capacity: Some(8589934592),
            speed: Some(3200),
            manufacturer: text("Samsung"),
            part_number: text("M471A1K43DB1"),
            serial_number: text("1234"),
            form_factor: Some(12),
            memory_type: Some(26),
        },
        MemoryRecord {
            capacity: None,
            speed: None,
            manufacturer: None,
            part_number: None,
            serial_number: None,
            form_factor: None,
            memory_type: None,
        },
        MemoryRecord {
            capacity: Some(0),
            speed: Some(u32::MAX),
            manufacturer: None,
            part_number: None,
            serial_number: None,
            form_factor: Some(u16::MAX),
            memory_type: Some(100),
        },
    ];
    let slots = memory_layout_from_records(&Some(records));
    assert_eq!(
        slots,
        vec![
            MemorySlot {
                slot: 0,
                size: 8589934592,
                clock_speed: 3200,
                mem_type: "26".to_string(),
                form_factor: "12".to_string(),
                manufacturer: "Samsung".to_string(),
                part_num: "M471A1K43DB1".to_string(),
                serial_num: "1234".to_string(),
            },
            MemorySlot {
                slot: 1,
                size: 0,
                clock_speed: 0,
                mem_type: "0".to_string(),
                form_factor: "0".to_string(),
                manufacturer: String::new(),
                part_num: String::new(),
                serial_num: String::new(),
            },
            MemorySlot {
                slot: 2,
                size: 0,
                clock_speed: 4294967295,
                mem_type: "100".to_string(),
                form_factor: "65535".to_string(),
                manufacturer: String::new(),
                part_num: String::new(),
                serial_num: String::new(),
            },
        ]
    );
    assert!(memory_layout_from_records(&None).is_empty());
}

#[test]
fn board_of_the_first_record() {
    let records = vec![
        BoardRecord {
            manufacturer: text("ASUSTeK"),
            product: text("PRIME B450"),
            version: None,
            serial_number: text("42"),
        },
        BoardRecord { manufacturer: text("x"), product: None, version: None, serial_number: None },
    ];
    assert_eq!(
        baseboard_from_records(&Some(records)),
        BaseboardInfo {
            manufacturer: "ASUSTeK".to_string(),
            model: "PRIME B450".to_string(),
            version: String::new(),
            serial: "42".to_string(),
        }
    );
    assert_eq!(baseboard_from_records(&Some(Vec::new())), BaseboardInfo::default());
    assert_eq!(baseboard_from_records(&None), BaseboardInfo::default());
}

#[test]
fn firmware_of_the_first_record() {
    let records = vec![BiosRecord {
        manufacturer: text("American Megatrends"),
        version: text("2008"),
        release_date: text("/Date(1575331200000)/"),
    }];
    assert_eq!(
        bios_from_records(&Some(records)),
        BiosInfo {
            vendor: "American Megatrends".to_string(),
            version: "2008".to_string(),
            release_date: "/Date(1575331200000)/".to_string(),
        }
    );
    assert_eq!(bios_from_records(&Some(Vec::new())), BiosInfo::default());
    assert_eq!(bios_from_records(&None), BiosInfo::default());
}

#[test]
fn addresses_of_the_adapters_that_have_one() {
    let records = vec![
        NetAdapterRecord { mac_address: text("00:11:22:33:44:55") },
        NetAdapterRecord { mac_address: None },
        NetAdapterRecord { mac_address: text("") },
        NetAdapterRecord { mac_address: text("00:00:00:00:00:00") },
    ];
    assert_eq!(
        uuid_from_records(&Some(records)).macs,
        vec!["00:11:22:33:44:55", "", "00:00:00:00:00:00"]
    );
    assert_eq!(uuid_from_records(&None), UuidInfo::default());
}
