//! Memory counters and the layout of the installed memory modules.

use vstd::prelude::*;
use crate::decimal::{lemma_number_is_trimmed, parse_u64_or_zero, unsigned_of, unsigned_or_zero};
use crate::text::{
    chars_of, is_whitespace, lemma_rows_index, lemma_trim_end_of_clean, lemma_trim_start_of_clean,
    lines_of, split_lines, starts_with, string_of, strip_prefix, strip_prefix_of, strip_suffix,
    strip_suffix_of, trim, trim_of,
};
use crate::units::{scale, scaled, GIB, MIB};

verus! {

/// One installed memory module.
#[derive(Clone, Debug, PartialEq, Eq)]
pub struct MemorySlot {
    /// Position of the module's block in the listing, counted from zero.
    pub slot: usize,
    /// Capacity in bytes.
    pub size: u64,
    /// Clock speed in MHz (or MT/s).
    pub clock_speed: u64,
    pub mem_type: String,
    pub form_factor: String,
    pub manufacturer: String,
    pub part_num: String,
    pub serial_num: String,
}

/// The view of [`MemorySlot`]: its texts as sequences of characters.
pub struct MemorySlotView {
    pub slot: nat,
    pub size: u64,
    pub clock_speed: u64,
    pub mem_type: Seq<char>,
    pub form_factor: Seq<char>,
    pub manufacturer: Seq<char>,
    pub part_num: Seq<char>,
    pub serial_num: Seq<char>,
}

impl View for MemorySlot {
    type V = MemorySlotView;

    open spec fn view(&self) -> MemorySlotView {
        MemorySlotView {
            slot: self.slot as nat,
            size: self.size,
            clock_speed: self.clock_speed,
            mem_type: self.mem_type@,
            form_factor: self.form_factor@,
            manufacturer: self.manufacturer@,
            part_num: self.part_num@,
            serial_num: self.serial_num@,
        }
    }
}

impl DeepView for MemorySlot {
    type V = MemorySlotView;

    open spec fn deep_view(&self) -> MemorySlotView {
        self@
    }
}

/// A module of which nothing is known but its position.
pub open spec fn empty_slot(slot: nat) -> MemorySlotView {
    MemorySlotView {
        slot,
        size: 0,
        clock_speed: 0,
        mem_type: Seq::empty(),
        form_factor: Seq::empty(),
        manufacturer: Seq::empty(),
        part_num: Seq::empty(),
        serial_num: Seq::empty(),
    }
}

impl Default for MemorySlot {
    fn default() -> (out: Self)
        ensures
            out@ == empty_slot(0),
    {
        MemorySlot::new(0)
    }
}

impl MemorySlot {
    /// A module at position `slot` of which nothing else is known yet.
    pub fn new(slot: usize) -> (out: Self)
        ensures
            out@ == empty_slot(slot as nat),
    {
        MemorySlot {
            slot,
            size: 0,
            clock_speed: 0,
            mem_type: String::new(),
            form_factor: String::new(),
            manufacturer: String::new(),
            part_num: String::new(),
            serial_num: String::new(),
        }
    }
}

/// The capacity that the value of a `Size:` line states, in bytes: a number
/// followed by `MB` or `GB`. `None` where the value has neither unit.
pub open spec fn module_size_of(value: Seq<char>) -> Option<u64> {
    let v = trim_of(value);
    match strip_suffix_of(v, "MB"@) {
        Some(n) => Some(scaled(unsigned_or_zero(trim_of(n)), MIB)),
        None => match strip_suffix_of(v, "GB"@) {
            Some(n) => Some(scaled(unsigned_or_zero(trim_of(n)), GIB)),
            None => None,
        },
    }
}

/// The clock speed that the value of a `Speed:` line states: a number
/// followed by `MT/s` or `MHz`. `None` where the value has neither unit.
pub open spec fn module_speed_of(value: Seq<char>) -> Option<u64> {
    let v = trim_of(value);
    match strip_suffix_of(v, "MT/s"@) {
        Some(n) => Some(unsigned_or_zero(trim_of(n))),
        None => match strip_suffix_of(v, "MHz"@) {
            Some(n) => Some(unsigned_or_zero(trim_of(n))),
            None => None,
        },
    }
}

/// The module `slot` after reading one trimmed line of its block. The first
/// key that the line starts with decides; a line with no known key, or with a
/// size or speed in no known unit, changes nothing.
pub open spec fn slot_with_line(slot: MemorySlotView, line: Seq<char>) -> MemorySlotView {
    if let Some(v) = strip_prefix_of(line, "Size:"@) {
        match module_size_of(v) {
            Some(size) => MemorySlotView { size, ..slot },
            None => slot,
        }
    } else if let Some(v) = strip_prefix_of(line, "Speed:"@) {
        match module_speed_of(v) {
            Some(clock_speed) => MemorySlotView { clock_speed, ..slot },
            None => slot,
        }
    } else if let Some(v) = strip_prefix_of(line, "Type:"@) {
        MemorySlotView { mem_type: trim_of(v), ..slot }
    } else if let Some(v) = strip_prefix_of(line, "Form Factor:"@) {
        MemorySlotView { form_factor: trim_of(v), ..slot }
    } else if let Some(v) = strip_prefix_of(line, "Manufacturer:"@) {
        MemorySlotView { manufacturer: trim_of(v), ..slot }
    } else if let Some(v) = strip_prefix_of(line, "Part Number:"@) {
        MemorySlotView { part_num: trim_of(v), ..slot }
    } else if let Some(v) = strip_prefix_of(line, "Serial Number:"@) {
        MemorySlotView { serial_num: trim_of(v), ..slot }
    } else {
        slot
    }
}

/// Where the reading of a module listing stands: the modules kept so far,
/// the module whose block is being read, and the number of blocks begun.
pub struct LayoutScan {
    pub kept: Seq<MemorySlotView>,
    pub open: Option<MemorySlotView>,
    pub blocks: nat,
}

/// The modules kept once the open block is closed: it is kept only if its
/// size is known and not zero.
pub open spec fn scan_close(scan: LayoutScan) -> Seq<MemorySlotView> {
    match scan.open {
        Some(slot) => if slot.size > 0 {
            scan.kept.push(slot)
        } else {
            scan.kept
        },
        None => scan.kept,
    }
}

/// The reading after one more line. A line that starts with `Memory Device`
/// closes the open block and begins the next one; any line is then read into
/// the open block, if there is one.
pub open spec fn scan_line(scan: LayoutScan, raw: Seq<char>) -> LayoutScan {
    let line = trim_of(raw);
    let begun = if "Memory Device"@.is_prefix_of(line) {
        LayoutScan {
            kept: scan_close(scan),
            open: Some(empty_slot(scan.blocks)),
            blocks: scan.blocks + 1,
        }
    } else {
        scan
    };
    match begun.open {
        Some(slot) => LayoutScan { open: Some(slot_with_line(slot, line)), ..begun },
        None => begun,
    }
}

/// The reading after all of `lines`, from the first to the last.
pub open spec fn scan_lines(lines: Seq<Seq<char>>) -> LayoutScan
    decreases lines.len(),
{
    if lines.len() == 0 {
        LayoutScan { kept: Seq::empty(), open: None, blocks: 0 }
    } else {
        scan_line(scan_lines(lines.drop_last()), lines.last())
    }
}

/// The memory modules that a module listing describes: one for each
/// `Memory Device` block whose size is known and not zero, in the order of
/// the blocks, each with the position of its block among all blocks.
pub open spec fn memory_slots_of(text: Seq<char>) -> Seq<MemorySlotView> {
    scan_close(scan_lines(lines_of(text)))
}

/// Reads the value of a `Size:` line.
fn module_size(value: &[char]) -> (out: Option<u64>)
    ensures
        out == module_size_of(value@),
{
    let v = trim(value);
    let mb = chars_of("MB");
    let gb = chars_of("GB");
    match strip_suffix(v, mb.as_slice()) {
        Some(n) => Some(scale(parse_u64_or_zero(trim(n)), MIB)),
        None => match strip_suffix(v, gb.as_slice()) {
            Some(n) => Some(scale(parse_u64_or_zero(trim(n)), GIB)),
            None => None,
        },
    }
}

/// Reads the value of a `Speed:` line.
fn module_speed(value: &[char]) -> (out: Option<u64>)
    ensures
        out == module_speed_of(value@),
{
    let v = trim(value);
    let mts = chars_of("MT/s");
    let mhz = chars_of("MHz");
    match strip_suffix(v, mts.as_slice()) {
        Some(n) => Some(parse_u64_or_zero(trim(n))),
        None => match strip_suffix(v, mhz.as_slice()) {
            Some(n) => Some(parse_u64_or_zero(trim(n))),
            None => None,
        },
    }
}

/// The text after `key` in `line`, trimmed, where `line` starts with `key`.
fn value_after(line: &[char], key: &str) -> (out: Option<String>)
    ensures
        match strip_prefix_of(line@, key@) {
            Some(v) => out is Some && out->0@ == trim_of(v),
            None => out is None,
        },
{
    let k = chars_of(key);
    match strip_prefix(line, k.as_slice()) {
        Some(v) => Some(string_of(trim(v))),
        None => None,
    }
}

/// Reads one trimmed line into the module whose block it belongs to.
fn read_slot_line(slot: MemorySlot, line: &[char]) -> (out: MemorySlot)
    ensures
        out@ == slot_with_line(slot@, line@),
{
    let mut slot = slot;
    let size_key = chars_of("Size:");
    let speed_key = chars_of("Speed:");
    if let Some(v) = strip_prefix(line, size_key.as_slice()) {
        if let Some(size) = module_size(v) {
            slot.size = size;
        }
    } else if let Some(v) = strip_prefix(line, speed_key.as_slice()) {
        if let Some(speed) = module_speed(v) {
            slot.clock_speed = speed;
        }
    } else if let Some(v) = value_after(line, "Type:") {
        slot.mem_type = v;
    } else if let Some(v) = value_after(line, "Form Factor:") {
        slot.form_factor = v;
    } else if let Some(v) = value_after(line, "Manufacturer:") {
        slot.manufacturer = v;
    } else if let Some(v) = value_after(line, "Part Number:") {
        slot.part_num = v;
    } else if let Some(v) = value_after(line, "Serial Number:") {
        slot.serial_num = v;
    }
    slot
}

/// Reads the listing of memory modules that the management tool prints.
pub fn parse_dmidecode_memory(text: &str) -> (slots: Vec<MemorySlot>)
    ensures
        slots.deep_view() == memory_slots_of(text@),
{
    let chars = chars_of(text);
    let lines = split_lines(chars.as_slice());
    let header = chars_of("Memory Device");
    let mut slots: Vec<MemorySlot> = Vec::new();
    let mut current: Option<MemorySlot> = None;
    let mut blocks: usize = 0;
    let ghost all = lines.deep_view();
    assert(all.take(0) == Seq::<Seq<char>>::empty());
    assert(slots.deep_view() == Seq::<MemorySlotView>::empty());
    let mut i: usize = 0;
    while i < lines.len()
        invariant
            i <= lines.len(),
            all == lines.deep_view(),
            all == lines_of(text@),
            header@ == "Memory Device"@,
            blocks <= i,
            scan_lines(all.take(i as int)) == (LayoutScan {
                kept: slots.deep_view(),
                open: current.deep_view(),
                blocks: blocks as nat,
            }),
        decreases lines.len() - i,
    {
        proof {
            lemma_rows_index(lines, i as int);
            assert(all.take(i + 1).drop_last() == all.take(i as int));
            assert(all.take(i + 1).last() == lines[i as int]@);
        }
        let line = trim(lines[i].as_slice());
        if starts_with(line, header.as_slice()) {
            if let Some(slot) = current {
                if slot.size > 0 {
                    let ghost before = slots.deep_view();
                    slots.push(slot);
                    assert(slots.deep_view() == before.push(slot@));
                }
            }
            current = Some(MemorySlot::new(blocks));
            blocks += 1;
        }
        current = match current {
            Some(slot) => Some(read_slot_line(slot, line)),
            None => None,
        };
        i += 1;
    }
    assert(all.take(i as int) == all);
    if let Some(slot) = current {
        if slot.size > 0 {
            let ghost before = slots.deep_view();
            slots.push(slot);
            assert(slots.deep_view() == before.push(slot@));
        }
    }
    slots
}

/// What follows an attempt to run the management tool.
#[derive(Clone, Debug, PartialEq, Eq)]
pub enum LayoutStep {
    /// The tool did not run as it is; it is to be run once more, through the
    /// wrapper that asks the user for more rights.
    RetryElevated,
    /// The memory modules are known, as far as they can be.
    Done(Vec<MemorySlot>),
}

/// The view of a [`LayoutStep`].
pub enum LayoutStepView {
    RetryElevated,
    Done(Seq<MemorySlotView>),
}

impl View for LayoutStep {
    type V = LayoutStepView;

    open spec fn view(&self) -> LayoutStepView {
        match self {
            LayoutStep::RetryElevated => LayoutStepView::RetryElevated,
            LayoutStep::Done(slots) => LayoutStepView::Done(slots.deep_view()),
        }
    }
}

/// What follows an attempt. Output is read. Without output, the first
/// attempt is followed by one with more rights, and the second by giving
/// up, with no module known.
pub open spec fn layout_step_of(output: Option<Seq<char>>, elevated: bool) -> LayoutStepView {
    match output {
        Some(text) => LayoutStepView::Done(memory_slots_of(text)),
        None => if elevated {
            LayoutStepView::Done(Seq::empty())
        } else {
            LayoutStepView::RetryElevated
        },
    }
}

/// Decides what follows an attempt to list the memory modules. `output` is
/// what the management tool printed, or `None` where it could not be run or
/// reported a failure; `elevated` says whether it was run with more rights.
pub fn read_memory_layout(output: Option<&str>, elevated: bool) -> (step: LayoutStep)
    ensures
        step@ == layout_step_of(output.deep_view(), elevated),
        elevated ==> step is Done,
{
    match output {
        Some(text) => LayoutStep::Done(parse_dmidecode_memory(text)),
        None => if elevated {
            let none: Vec<MemorySlot> = Vec::new();
            assert(none.deep_view() == Seq::<MemorySlotView>::empty());
            LayoutStep::Done(none)
        } else {
            LayoutStep::RetryElevated
        },
    }
}

/// The memory counters of the metrics source, in bytes.
#[derive(Clone, Copy, Debug, PartialEq, Eq)]
pub struct MemoryCounters {
    pub total: u64,
    pub used: u64,
    pub available: u64,
    pub swap_total: u64,
    pub swap_used: u64,
}

/// Memory in use and installed. Counters are in bytes.
#[derive(Clone, Debug, PartialEq, Eq)]
pub struct MemoryInfo {
    pub total: u64,
    pub used: u64,
    pub available: u64,
    pub active: u64,
    pub swaptotal: u64,
    pub swapused: u64,
    pub swapfree: u64,
    /// The installed modules; empty where they are not known or not asked for.
    pub layout: Vec<MemorySlot>,
}

/// The view of [`MemoryInfo`]: its texts as sequences of characters.
pub struct MemoryInfoView {
    pub total: u64,
    pub used: u64,
    pub available: u64,
    pub active: u64,
    pub swaptotal: u64,
    pub swapused: u64,
    pub swapfree: u64,
    pub layout: Seq<MemorySlotView>,
}

impl View for MemoryInfo {
    type V = MemoryInfoView;

    open spec fn view(&self) -> MemoryInfoView {
        MemoryInfoView {
            total: self.total,
            used: self.used,
            available: self.available,
            active: self.active,
            swaptotal: self.swaptotal,
            swapused: self.swapused,
            swapfree: self.swapfree,
            layout: self.layout.deep_view(),
        }
    }
}

impl DeepView for MemoryInfo {
    type V = MemoryInfoView;

    open spec fn deep_view(&self) -> MemoryInfoView {
        self@
    }
}

/// Free swap space: what is left of `total` once `used` is taken away, and
/// zero where more is reported used than there is.
pub open spec fn swap_free_of(total: u64, used: u64) -> u64 {
    if used >= total {
        0
    } else {
        (total - used) as u64
    }
}

/// The memory as the counters tell it, with the modules `layout`.
pub open spec fn memory_info_of(counters: MemoryCounters, layout: Seq<MemorySlotView>)
    -> MemoryInfoView {
    MemoryInfoView {
        total: counters.total,
        used: counters.used,
        available: counters.available,
        active: counters.used,
        swaptotal: counters.swap_total,
        swapused: counters.swap_used,
        swapfree: swap_free_of(counters.swap_total, counters.swap_used),
        layout,
    }
}

impl MemoryInfo {
    /// Free swap space is what the two other swap counters leave.
    pub open spec fn wf(&self) -> bool {
        self.swapfree == swap_free_of(self.swaptotal, self.swapused)
    }
}

impl Default for MemoryInfo {
    fn default() -> (out: Self)
        ensures
            out@ == memory_info_of(
                MemoryCounters { total: 0, used: 0, available: 0, swap_total: 0, swap_used: 0 },
                Seq::empty(),
            ),
            out.wf(),
    {
        collect_memory_live(
            MemoryCounters { total: 0, used: 0, available: 0, swap_total: 0, swap_used: 0 },
        )
    }
}

/// Free swap space is never more than the swap space, and used and free
/// space never add up to more than there is, whatever the counters say.
pub proof fn lemma_swap_free_bounds(total: u64, used: u64)
    ensures
        0 <= swap_free_of(total, used) <= total,
        used <= total ==> swap_free_of(total, used) + used == total,
        used > total ==> swap_free_of(total, used) == 0,
{
}

/// Free swap space.
pub fn swap_free(total: u64, used: u64) -> (free: u64)
    ensures
        free == swap_free_of(total, used),
{
    if used >= total {
        0
    } else {
        total - used
    }
}

/// The memory with its installed modules.
pub fn collect_memory(counters: MemoryCounters, layout: Vec<MemorySlot>) -> (info: MemoryInfo)
    ensures
        info@ == memory_info_of(counters, layout.deep_view()),
        info.wf(),
{
    MemoryInfo {
        total: counters.total,
        used: counters.used,
        available: counters.available,
        active: counters.used,
        swaptotal: counters.swap_total,
        swapused: counters.swap_used,
        swapfree: swap_free(counters.swap_total, counters.swap_used),
        layout,
    }
}

/// The memory without its modules, for frequent polling: the layout is
/// always empty.
pub fn collect_memory_live(counters: MemoryCounters) -> (info: MemoryInfo)
    ensures
        info@ == memory_info_of(counters, Seq::empty()),
        info@.layout.len() == 0,
        info.wf(),
{
    let layout: Vec<MemorySlot> = Vec::new();
    assert(layout.deep_view() == Seq::<MemorySlotView>::empty());
    collect_memory(counters, layout)
}

/// Whether a reading is in order: the blocks begun are counted, the open
/// module is the last of them, and the modules kept have a size, stand in the
/// order of their blocks and come before the open one.
pub open spec fn scan_in_order(scan: LayoutScan) -> bool {
    &&& forall|i: int| 0 <= i < scan.kept.len() ==> (#[trigger] scan.kept[i]).size > 0
    &&& forall|i: int, j: int|
        0 <= i < j < scan.kept.len() ==> (#[trigger] scan.kept[i]).slot < (
        #[trigger] scan.kept[j]).slot
    &&& match scan.open {
        Some(slot) => slot.slot + 1 == scan.blocks && forall|i: int|
            0 <= i < scan.kept.len() ==> (#[trigger] scan.kept[i]).slot < slot.slot,
        None => scan.blocks == 0 && scan.kept.len() == 0,
    }
}

/// Reading a line into a module leaves the module's position as it is.
pub proof fn lemma_slot_with_line_keeps_position(slot: MemorySlotView, line: Seq<char>)
    ensures
        slot_with_line(slot, line).slot == slot.slot,
{
}

/// Reading keeps the reading in order.
pub proof fn lemma_scan_in_order(lines: Seq<Seq<char>>)
    ensures
        scan_in_order(scan_lines(lines)),
    decreases lines.len(),
{
    if lines.len() > 0 {
        let before = scan_lines(lines.drop_last());
        lemma_scan_in_order(lines.drop_last());
        let line = trim_of(lines.last());
        let begun = if "Memory Device"@.is_prefix_of(line) {
            LayoutScan {
                kept: scan_close(before),
                open: Some(empty_slot(before.blocks)),
                blocks: before.blocks + 1,
            }
        } else {
            before
        };
        assert(scan_in_order(begun));
        if let Some(slot) = begun.open {
            lemma_slot_with_line_keeps_position(slot, line);
        }
    }
}

/// The modules of a listing all have a size, and stand in the order of their
/// blocks: each has the position of its block, counted from zero over all
/// blocks, also those that are left out.
pub proof fn lemma_memory_slots_in_order(text: Seq<char>)
    ensures
        forall|i: int|
            0 <= i < memory_slots_of(text).len() ==> (#[trigger] memory_slots_of(text)[i]).size
                > 0,
        forall|i: int, j: int|
            0 <= i < j < memory_slots_of(text).len() ==> (#[trigger] memory_slots_of(
                text,
            )[i]).slot < (#[trigger] memory_slots_of(text)[j]).slot,
        forall|i: int|
            0 <= i < memory_slots_of(text).len() ==> (#[trigger] memory_slots_of(text)[i]).slot
                < scan_lines(lines_of(text)).blocks,
{
    lemma_scan_in_order(lines_of(text));
}

/// A number followed by `MB` is that many times 1024 * 1024 bytes, and one
/// followed by `GB` that many times 1024 * 1024 * 1024 bytes, with or
/// without a space before the unit, whenever the bytes can be counted in 64
/// bits.
pub proof fn lemma_module_size_units(digits: Seq<char>, n: u64)
    requires
        unsigned_of(digits) == Some(n),
    ensures
        n * MIB <= u64::MAX ==> module_size_of(digits + "MB"@) == Some((n * MIB) as u64),
        n * MIB <= u64::MAX ==> module_size_of(digits + " MB"@) == Some((n * MIB) as u64),
        n * GIB <= u64::MAX ==> module_size_of(digits + "GB"@) == Some((n * GIB) as u64),
        n * GIB <= u64::MAX ==> module_size_of(digits + " GB"@) == Some((n * GIB) as u64),
{
    reveal_strlit("MB");
    reveal_strlit(" MB");
    reveal_strlit("GB");
    reveal_strlit(" GB");
    lemma_number_is_trimmed(digits);
    lemma_size_with_unit(digits, "MB"@, false);
    lemma_size_with_unit(digits, "MB"@, true);
    lemma_size_with_unit(digits, "GB"@, false);
    lemma_size_with_unit(digits, "GB"@, true);
    assert(digits + seq![' '] + "MB"@ == digits + " MB"@);
    assert(digits + seq![' '] + "GB"@ == digits + " GB"@);
    assert(!"MB"@.is_suffix_of(digits + "GB"@)) by {
        let v = digits + "GB"@;
        if "MB"@.is_suffix_of(v) {
            assert(v.subrange(v.len() - 2, v.len() as int)[0] == 'M');
        }
    }
    assert(!"MB"@.is_suffix_of(digits + " GB"@)) by {
        let v = digits + " GB"@;
        if "MB"@.is_suffix_of(v) {
            assert(v.subrange(v.len() - 2, v.len() as int)[0] == 'M');
        }
    }
}

/// A number and a unit of two letters, with or without a space between
/// them, are trimmed as they stand; without the unit, and trimmed again, the
/// number is left.
proof fn lemma_size_with_unit(digits: Seq<char>, unit: Seq<char>, spaced: bool)
    requires
        unsigned_of(digits) is Some,
        unit.len() == 2,
        !is_whitespace(unit[1]),
    ensures
        ({
            let v = if spaced {
                digits + seq![' '] + unit
            } else {
                digits + unit
            };
            &&& trim_of(v) == v
            &&& strip_suffix_of(v, unit) is Some
            &&& trim_of(strip_suffix_of(v, unit)->0) == digits
        }),
{
    lemma_number_is_trimmed(digits);
    let v = if spaced {
        digits + seq![' '] + unit
    } else {
        digits + unit
    };
    assert(v[0] == digits[0]);
    assert(v.last() == unit[1]);
    lemma_trim_start_of_clean(v);
    lemma_trim_end_of_clean(v);
    assert(v.subrange(v.len() - 2, v.len() as int) == unit);
    let rest = v.take(v.len() - 2);
    if spaced {
        assert(rest == digits.push(' '));
        assert(rest[0] == digits[0]);
        lemma_trim_start_of_clean(rest);
        assert(rest.drop_last() == digits);
        lemma_trim_end_of_clean(digits);
    } else {
        assert(rest == digits);
    }
}

/// Reading the same listing twice gives the same modules.
pub proof fn lemma_memory_layout_repeatable(
    text: &str,
    first: Vec<MemorySlot>,
    second: Vec<MemorySlot>,
)
    requires
        first.deep_view() == memory_slots_of(text@),
        second.deep_view() == memory_slots_of(text@),
    ensures
        first.deep_view() == second.deep_view(),
        first.len() == second.len(),
        forall|i: int| 0 <= i < first.len() ==> first[i]@ == second[i]@,
{
    assert(first.deep_view().len() == first.len());
    assert(second.deep_view().len() == second.len());
    assert forall|i: int| 0 <= i < first.len() implies first[i]@ == second[i]@ by {
        assert(first.deep_view()[i] == first[i]@);
        assert(second.deep_view()[i] == second[i]@);
    }
}

} // verus!
