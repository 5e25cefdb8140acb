//! Records of the operating system's management interface, for machines on
//! which the kernel offers no text files to read. A query that fails, or
//! whose answer cannot be decoded, gives no records.

use vstd::prelude::*;
use crate::decimal::{decimal, decimal_of};
use crate::graphics::{GpuController, GpuControllerView};
use crate::memory::{MemorySlot, MemorySlotView};
use crate::records::{lemma_records_of_next, records_of};
use crate::system::{
    text_or_empty, unknown_bios, unknown_board, BaseboardInfo, BaseboardInfoView, BiosInfo,
    BiosInfoView, UuidInfo,
};

verus! {

/// One display adapter as the management interface describes it.
#[derive(Clone, Debug, PartialEq, Eq)]
pub struct GpuRecord {
    pub name: Option<String>,
    pub video_processor: Option<String>,
    pub adapter_ram: Option<u64>,
}

/// One memory module as the management interface describes it.
#[derive(Clone, Debug, PartialEq, Eq)]
pub struct MemoryRecord {
    pub capacity: Option<u64>,
    pub speed: Option<u32>,
    pub manufacturer: Option<String>,
    pub part_number: Option<String>,
    pub serial_number: Option<String>,
    pub form_factor: Option<u16>,
    pub memory_type: Option<u16>,
}

/// The main board as the management interface describes it.
#[derive(Clone, Debug, PartialEq, Eq)]
pub struct BoardRecord {
    pub manufacturer: Option<String>,
    pub product: Option<String>,
    pub version: Option<String>,
    pub serial_number: Option<String>,
}

/// The firmware as the management interface describes it.
#[derive(Clone, Debug, PartialEq, Eq)]
pub struct BiosRecord {
    pub manufacturer: Option<String>,
    pub version: Option<String>,
    pub release_date: Option<String>,
}

/// One network adapter as the management interface describes it.
#[derive(Clone, Debug, PartialEq, Eq)]
pub struct NetAdapterRecord {
    pub mac_address: Option<String>,
}

/// The display adapter that a record describes. What the record leaves open
/// is empty or zero, but the vendor, which is then `Unknown`.
pub open spec fn gpu_of_record(record: &GpuRecord) -> GpuControllerView {
    GpuControllerView {
        model: text_or_empty(record.name.deep_view()),
        vendor: match record.video_processor {
            Some(vendor) => vendor@,
            None => "Unknown"@,
        },
        vram: match record.adapter_ram {
            Some(bytes) => bytes,
            None => 0,
        },
        bus: "PCI"@,
    }
}

/// The memory module that the record at position `slot` describes. What the
/// record leaves open is empty or zero; type and form factor are the codes
/// of the record, written in decimal.
pub open spec fn slot_of_record(record: &MemoryRecord, slot: nat) -> MemorySlotView {
    MemorySlotView {
        slot,
        size: match record.capacity {
            Some(bytes) => bytes,
            None => 0,
        },
        clock_speed: match record.speed {
            Some(speed) => speed as u64,
            None => 0,
        },
        mem_type: decimal_of(
            match record.memory_type {
                Some(code) => code as nat,
                None => 0,
            },
        ),
        form_factor: decimal_of(
            match record.form_factor {
                Some(code) => code as nat,
                None => 0,
            },
        ),
        manufacturer: text_or_empty(record.manufacturer.deep_view()),
        part_num: text_or_empty(record.part_number.deep_view()),
        serial_num: text_or_empty(record.serial_number.deep_view()),
    }
}

/// The main board that a record describes.
pub open spec fn board_of_record(record: &BoardRecord) -> BaseboardInfoView {
    BaseboardInfoView {
        manufacturer: text_or_empty(record.manufacturer.deep_view()),
        model: text_or_empty(record.product.deep_view()),
        version: text_or_empty(record.version.deep_view()),
        serial: text_or_empty(record.serial_number.deep_view()),
    }
}

/// The firmware that a record describes.
pub open spec fn bios_of_record(record: &BiosRecord) -> BiosInfoView {
    BiosInfoView {
        vendor: text_or_empty(record.manufacturer.deep_view()),
        version: text_or_empty(record.version.deep_view()),
        release_date: text_or_empty(record.release_date.deep_view()),
    }
}

/// The answer to a query as a sequence of records; `None` where the query
/// gave no answer.
pub open spec fn answer_of<R>(records: &Option<Vec<R>>) -> Option<Seq<R>> {
    match records {
        Some(list) => Some(list@),
        None => None,
    }
}

/// The display adapters of an answer: one for each record, in their order;
/// none without an answer.
pub open spec fn gpus_of_records(answer: Option<Seq<GpuRecord>>) -> Seq<GpuControllerView> {
    match answer {
        Some(list) => Seq::new(list.len(), |i: int| gpu_of_record(&list[i])),
        None => Seq::empty(),
    }
}

/// The memory modules of an answer: one for each record, in their order,
/// each with its position; none without an answer.
pub open spec fn slots_of_records(answer: Option<Seq<MemoryRecord>>) -> Seq<MemorySlotView> {
    match answer {
        Some(list) => Seq::new(list.len(), |i: int| slot_of_record(&list[i], i as nat)),
        None => Seq::empty(),
    }
}

/// The main board of an answer: that of its first record; unknown where
/// there is none.
pub open spec fn board_of_records(answer: Option<Seq<BoardRecord>>) -> BaseboardInfoView {
    match answer {
        Some(list) => if list.len() > 0 {
            board_of_record(&list[0])
        } else {
            unknown_board()
        },
        None => unknown_board(),
    }
}

/// The firmware of an answer: that of its first record; unknown where there
/// is none.
pub open spec fn bios_of_records(answer: Option<Seq<BiosRecord>>) -> BiosInfoView {
    match answer {
        Some(list) => if list.len() > 0 {
            bios_of_record(&list[0])
        } else {
            unknown_bios()
        },
        None => unknown_bios(),
    }
}

/// The hardware addresses of an answer: those of the adapters that have
/// one, in their order; none without an answer.
pub open spec fn macs_of_records(answer: Option<Seq<NetAdapterRecord>>) -> Seq<Seq<char>> {
    match answer {
        Some(list) => records_of(
            list,
            |adapter: NetAdapterRecord| adapter.mac_address.deep_view(),
        ),
        None => Seq::empty(),
    }
}

/// The text of a field, empty where the record leaves it open.
fn text_of(text: &Option<String>) -> (out: String)
    ensures
        out@ == text_or_empty(text.deep_view()),
{
    match text {
        Some(t) => t.clone(),
        None => String::new(),
    }
}

/// Reads the display adapters from the answer of the management interface.
pub fn gpus_from_records(records: &Option<Vec<GpuRecord>>) -> (gpus: Vec<GpuController>)
    ensures
        gpus.deep_view() == gpus_of_records(answer_of(records)),
{
    let mut gpus: Vec<GpuController> = Vec::new();
    assert(gpus.deep_view() == Seq::<GpuControllerView>::empty());
    let list = match records {
        Some(list) => list,
        None => { return gpus; },
    };
    let mut i: usize = 0;
    while i < list.len()
        invariant
            i <= list.len(),
            gpus.deep_view() == gpus_of_records(Some(list@)).take(i as int),
        decreases list.len() - i,
    {
        let record = &list[i];
        let gpu = GpuController {
            model: text_of(&record.name),
            vendor: match &record.video_processor {
                Some(vendor) => vendor.clone(),
                None => "Unknown".to_owned(),
            },
            vram: match record.adapter_ram {
                Some(bytes) => bytes,
                None => 0,
            },
            bus: "PCI".to_owned(),
        };
        let ghost before = gpus.deep_view();
        gpus.push(gpu);
        assert(gpus.deep_view() == before.push(gpu@));
        i += 1;
    }
    gpus
}

/// Reads the memory modules from the answer of the management interface.
pub fn memory_layout_from_records(records: &Option<Vec<MemoryRecord>>) -> (slots: Vec<MemorySlot>)
    ensures
        slots.deep_view() == slots_of_records(answer_of(records)),
{
    let mut slots: Vec<MemorySlot> = Vec::new();
    assert(slots.deep_view() == Seq::<MemorySlotView>::empty());
    let list = match records {
        Some(list) => list,
        None => { return slots; },
    };
    let mut i: usize = 0;
    while i < list.len()
        invariant
            i <= list.len(),
            slots.deep_view() == slots_of_records(Some(list@)).take(i as int),
        decreases list.len() - i,
    {
        let record = &list[i];
        let slot = MemorySlot {
            slot: i,
            size: match record.capacity {
                Some(bytes) => bytes,
                None => 0,
            },
            clock_speed: match record.speed {
                Some(speed) => speed as u64,
                None => 0,
            },
            mem_type: decimal(
                match record.memory_type {
                    Some(code) => code as u64,
                    None => 0,
                },
            ),
            form_factor: decimal(
                match record.form_factor {
                    Some(code) => code as u64,
                    None => 0,
                },
            ),
            manufacturer: text_of(&record.manufacturer),
            part_num: text_of(&record.part_number),
            serial_num: text_of(&record.serial_number),
        };
        let ghost before = slots.deep_view();
        slots.push(slot);
        assert(slots.deep_view() == before.push(slot@));
        i += 1;
    }
    slots
}

/// Reads the main board from the answer of the management interface.
pub fn baseboard_from_records(records: &Option<Vec<BoardRecord>>) -> (info: BaseboardInfo)
    ensures
        info@ == board_of_records(answer_of(records)),
{
    match records {
        Some(list) => if list.len() > 0 {
            let record = &list[0];
            BaseboardInfo {
                manufacturer: text_of(&record.manufacturer),
                model: text_of(&record.product),
                version: text_of(&record.version),
                serial: text_of(&record.serial_number),
            }
        } else {
            BaseboardInfo::default()
        },
        None => BaseboardInfo::default(),
    }
}

/// Reads the firmware from the answer of the management interface.
pub fn bios_from_records(records: &Option<Vec<BiosRecord>>) -> (info: BiosInfo)
    ensures
        info@ == bios_of_records(answer_of(records)),
{
    match records {
        Some(list) => if list.len() > 0 {
            let record = &list[0];
            BiosInfo {
                vendor: text_of(&record.manufacturer),
                version: text_of(&record.version),
                release_date: text_of(&record.release_date),
            }
        } else {
            BiosInfo::default()
        },
        None => BiosInfo::default(),
    }
}

/// Reads the hardware addresses from the answer of the management
/// interface.
pub fn uuid_from_records(records: &Option<Vec<NetAdapterRecord>>) -> (info: UuidInfo)
    ensures
        info@.macs == macs_of_records(answer_of(records)),
{
    let mut macs: Vec<String> = Vec::new();
    assert(macs.deep_view() == Seq::<Seq<char>>::empty());
    let list = match records {
        Some(list) => list,
        None => { return UuidInfo { macs }; },
    };
    let ghost read = |adapter: NetAdapterRecord| adapter.mac_address.deep_view();
    assert(list@.take(0) == Seq::<NetAdapterRecord>::empty());
    let mut i: usize = 0;
    while i < list.len()
        invariant
            i <= list.len(),
            read == |adapter: NetAdapterRecord| adapter.mac_address.deep_view(),
            macs.deep_view() == records_of(list@.take(i as int), read),
        decreases list.len() - i,
    {
        proof {
            lemma_records_of_next(list@, read, i as int);
        }
        if let Some(mac) = &list[i].mac_address {
            let ghost before = macs.deep_view();
            let mac = mac.clone();
            macs.push(mac);
            assert(macs.deep_view() == before.push(mac@));
        }
        i += 1;
    }
    assert(list@.take(i as int) == list@);
    UuidInfo { macs }
}

} // verus!
