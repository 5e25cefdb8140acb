use hwinfo::memory::{
    collect_memory, collect_memory_live, parse_dmidecode_memory, read_memory_layout, swap_free,
    LayoutStep, MemoryCounters, MemorySlot,
};

const LISTING: &str = "# dmidecode 3.3\nGetting SMBIOS data from sysfs.\nSMBIOS 3.2.0 present.\n\nHandle 0x0040, DMI type 17, 40 bytes\nMemory Device\n\tArray Handle: 0x003F\n\tTotal Width: 64 bits\n\tSize: 8 GB\n\tForm Factor: SODIMM\n\tLocator: ChannelA-DIMM0\n\tType: DDR4\n\tType Detail: Synchronous\n\tSpeed: 2667 MT/s\n\tManufacturer: Samsung\n\tSerial Number: 12345678\n\tPart Number: M471A1K43DB1-CTD\n\tConfigured Memory Speed: 2400 MT/s\n\nHandle 0x0041, DMI type 17, 40 bytes\nMemory Device\n\tSize: 0 MB\n\tForm Factor: SODIMM\n\tType: Unknown\n\nHandle 0x0042, DMI type 17, 40 bytes\nMemory Device\n\tSize: 4096 MB\n\tForm Factor: DIMM\n\tType: DDR3\n\tSpeed: 1600 MHz\n\tManufacturer: Kingston\n\tSerial Number: ABCDEF\n\tPart Number: KVR16N11/4\n";

fn slot(
    slot: usize,
    size: u64,
    clock_speed: u64,
    mem_type: &str,
    form_factor: &str,
    manufacturer: &str,
    part_num: &str,
    serial_num: &str,
) -> MemorySlot {
    MemorySlot {
        slot,
        size,
        clock_speed,
        mem_type: mem_type.to_string(),
        form_factor: form_factor.to_string(),
        manufacturer: manufacturer.to_string(),
        part_num: part_num.to_string(),
        serial_num: serial_num.to_string(),
    }
}

#[test]
fn two_modules_and_one_empty_slot() {
    let slots = parse_dmidecode_memory(LISTING);
    assert_eq!(
        slots,
        vec![
            slot(
                0,
                8 * 1024 * 1024 * 1024,
                2667,
                "DDR4",
                "SODIMM",
                "Samsung",
                "M471A1K43DB1-CTD",
                "12345678"
            ),
            slot(2, 4096 * 1024 * 1024, 1600, "DDR3", "DIMM", "Kingston", "KVR16N11/4", "ABCDEF"),
        ]
    );
}

#[test]
fn parsing_twice_gives_the_same_modules() {
    assert_eq!(parse_dmidecode_memory(LISTING), parse_dmidecode_memory(LISTING));
}

#[test]
fn empty_listing_has_no_modules() {
    assert_eq!(parse_dmidecode_memory(""), Vec::<MemorySlot>::new());
    assert_eq!(parse_dmidecode_memory("\n\n"), Vec::<MemorySlot>::new());
}

#[test]
fn lines_before_the_first_block_are_ignored() {
    let slots = parse_dmidecode_memory("Size: 4 GB\nType: DDR4\n");
    assert!(slots.is_empty());
}

#[test]
fn sixteen_gigabytes_without_a_space() {
    let slots = parse_dmidecode_memory("Memory Device\nSize: 16GB\n");
    assert_eq!(slots.len(), 1);
    assert_eq!(slots[0].size, 17179869184);
    assert_eq!(slots[0].slot, 0);
}

#[test]
fn size_in_megabytes() {
    let slots = parse_dmidecode_memory("Memory Device\n  Size: 512 MB  \n");
    assert_eq!(slots.len(), 1);
    assert_eq!(slots[0].size, 536870912);
}

#[test]
fn size_without_a_known_unit_is_no_size() {
    let slots = parse_dmidecode_memory("Memory Device\nSize: No Module Installed\nType: DDR4\n");
    assert!(slots.is_empty());
    let slots = parse_dmidecode_memory("Memory Device\nSize: 16 kB\n");
    assert!(slots.is_empty());
}

#[test]
fn size_that_is_no_number_is_zero() {
    let slots = parse_dmidecode_memory("Memory Device\nSize: lots GB\n");
    assert!(slots.is_empty());
}

#[test]
fn size_beyond_sixty_four_bits_is_zero() {
    let slots = parse_dmidecode_memory("Memory Device\nSize: 99999999999999 GB\n");
    assert!(slots.is_empty());
    let slots = parse_dmidecode_memory("Memory Device\nSize: 99999999999999999999999 MB\n");
    assert!(slots.is_empty());
    let slots = parse_dmidecode_memory("Memory Device\nSize: 17179869183 GB\n");
    assert_eq!(slots.len(), 1);
    assert_eq!(slots[0].size, 17179869183 * 1073741824);
}

#[test]
fn a_later_size_line_replaces_an_earlier_one() {
    let slots = parse_dmidecode_memory("Memory Device\nSize: 1 GB\nSize: 2 GB\nSize: what\n");
    assert_eq!(slots.len(), 1);
    assert_eq!(slots[0].size, 2 * 1073741824);
}

#[test]
fn both_speed_units_give_the_clock_speed() {
    let slots = parse_dmidecode_memory(
        "Memory Device\nSize: 1 GB\nSpeed: 3200 MT/s\nMemory Device\nSize: 1 GB\nSpeed: 1333 MHz\nMemory Device\nSize: 1 GB\nSpeed: Unknown\n",
    );
    assert_eq!(slots.len(), 3);
    assert_eq!(slots[0].clock_speed, 3200);
    assert_eq!(slots[1].clock_speed, 1333);
    assert_eq!(slots[2].clock_speed, 0);
    assert_eq!((slots[0].slot, slots[1].slot, slots[2].slot), (0, 1, 2));
}

#[test]
fn carriage_returns_end_lines_too() {
    let slots = parse_dmidecode_memory("Memory Device\r\n\tSize: 2 GB\r\n\tType: DDR5\r\n");
    assert_eq!(slots, vec![slot(0, 2 * 1073741824, 0, "DDR5", "", "", "", "")]);
}

#[test]
fn header_line_may_carry_more_text() {
    let slots = parse_dmidecode_memory("  Memory Device Mapped Address\nSize: 1 GB\n");
    assert_eq!(slots.len(), 1);
}

#[test]
fn plus_sign_before_the_number() {
    let slots = parse_dmidecode_memory("Memory Device\nSize: +2 GB\nSpeed: -5 MHz\n");
    assert_eq!(slots.len(), 1);
    assert_eq!(slots[0].size, 2 * 1073741824);
    assert_eq!(slots[0].clock_speed, 0);
}

#[test]
fn first_attempt_without_output_asks_for_a_retry() {
    assert_eq!(read_memory_layout(None, false), LayoutStep::RetryElevated);
}

#[test]
fn second_attempt_without_output_gives_up() {
    assert_eq!(read_memory_layout(None, true), LayoutStep::Done(Vec::new()));
}

#[test]
fn an_attempt_with_output_is_read() {
    let expected = parse_dmidecode_memory(LISTING);
    assert_eq!(read_memory_layout(Some(LISTING), false), LayoutStep::Done(expected.clone()));
    assert_eq!(read_memory_layout(Some(LISTING), true), LayoutStep::Done(expected));
    assert_eq!(read_memory_layout(Some(""), false), LayoutStep::Done(Vec::new()));
}

#[test]
fn swap_free_is_the_difference() {
    assert_eq!(swap_free(1000, 400), 600);
    assert_eq!(swap_free(1000, 0), 1000);
    assert_eq!(swap_free(1000, 1000), 0);
}

#[test]
fn swap_free_is_zero_when_more_is_used_than_there_is() {
    assert_eq!(swap_free(1000, 1001), 0);
    assert_eq!(swap_free(0, u64::MAX), 0);
    assert_eq!(swap_free(u64::MAX, 0), u64::MAX);
}

#[test]
fn memory_counters_are_carried_over() {
    let counters = MemoryCounters {
        total: 16000,
        used: 9000,
        available: 7000,
        swap_total: 2000,
        swap_used: 500,
    };
    let layout = parse_dmidecode_memory(LISTING);
    let info = collect_memory(counters, layout.clone());
    assert_eq!(info.total, 16000);
    assert_eq!(info.used, 9000);
    assert_eq!(info.available, 7000);
    assert_eq!(info.active, 9000);
    assert_eq!(info.swaptotal, 2000);
    assert_eq!(info.swapused, 500);
    assert_eq!(info.swapfree, 1500);
    assert_eq!(info.layout, layout);
}

#[test]
fn live_memory_has_no_layout() {
    let counters = MemoryCounters {
        total: 16000,
        used: 9000,
        available: 7000,
        swap_total: 100,
        swap_used: 500,
    };
    let info = collect_memory_live(counters);
    assert!(info.layout.is_empty());
    assert_eq!(info.swapfree, 0);
    assert_eq!(info.active, 9000);
}

#[test]
fn default_memory_is_all_zero() {
    let info = hwinfo::memory::MemoryInfo::default();
    assert_eq!(
        (info.total, info.used, info.available, info.active),
        (0, 0, 0, 0)
    );
    assert_eq!((info.swaptotal, info.swapused, info.swapfree), (0, 0, 0));
    assert!(info.layout.is_empty());
    assert_eq!(MemorySlot::default(), slot(0, 0, 0, "", "", "", "", ""));
}
