//! Display adapters, read from the listing of the devices on the PCI bus.

use vstd::prelude::*;
use vstd::slice::slice_subrange;
use crate::records::{lemma_records_of_next, records_of};
use crate::text::{
    after_first, after_last, after_last_start, before_first, chars_of, contains, contains_seq,
    find_char, lemma_index_of_bounds, lemma_last_index_of_bounds, lemma_rows_index, lines_of,
    split_lines, string_of, trim, trim_of,
};

verus! {

/// One display adapter.
#[derive(Clone, Debug, PartialEq, Eq)]
pub struct GpuController {
    pub model: String,
    pub vendor: String,
    /// Video memory in bytes; zero where the source does not tell.
    pub vram: u64,
    pub bus: String,
}

/// The view of [`GpuController`]: its texts as sequences of characters.
pub struct GpuControllerView {
    pub model: Seq<char>,
    pub vendor: Seq<char>,
    pub vram: u64,
    pub bus: Seq<char>,
}

impl View for GpuController {
    type V = GpuControllerView;

    open spec fn view(&self) -> GpuControllerView {
        GpuControllerView {
            model: self.model@,
            vendor: self.vendor@,
            vram: self.vram,
            bus: self.bus@,
        }
    }
}

impl DeepView for GpuController {
    type V = GpuControllerView;

    open spec fn deep_view(&self) -> GpuControllerView {
        self@
    }
}

impl Default for GpuController {
    fn default() -> (out: Self)
        ensures
            out@ == (GpuControllerView {
                model: Seq::empty(),
                vendor: Seq::empty(),
                vram: 0,
                bus: Seq::empty(),
            }),
    {
        GpuController { model: String::new(), vendor: String::new(), vram: 0, bus: String::new() }
    }
}

/// The display adapters of the machine.
#[derive(Clone, Debug, PartialEq, Eq)]
pub struct GraphicsInfo {
    pub controllers: Vec<GpuController>,
}

/// The view of [`GraphicsInfo`]: its texts as sequences of characters.
pub struct GraphicsInfoView {
    pub controllers: Seq<GpuControllerView>,
}

impl View for GraphicsInfo {
    type V = GraphicsInfoView;

    open spec fn view(&self) -> GraphicsInfoView {
        GraphicsInfoView { controllers: self.controllers.deep_view() }
    }
}

impl DeepView for GraphicsInfo {
    type V = GraphicsInfoView;

    open spec fn deep_view(&self) -> GraphicsInfoView {
        self@
    }
}

impl Default for GraphicsInfo {
    fn default() -> (out: Self)
        ensures
            out@.controllers.len() == 0,
    {
        GraphicsInfo { controllers: Vec::new() }
    }
}

/// Whether a line of the bus listing describes a display adapter.
pub open spec fn is_display_line(line: Seq<char>) -> bool {
    contains_seq(line, "VGA"@) || contains_seq(line, "3D"@) || contains_seq(line, "Display"@)
}

/// The vendor that a device description names. Of several names the first
/// in this order decides: NVIDIA, then AMD or ATI, then Intel. Empty where
/// the description names none of them.
pub open spec fn vendor_of(description: Seq<char>) -> Seq<char> {
    if contains_seq(description, "NVIDIA"@) {
        "NVIDIA"@
    } else if contains_seq(description, "AMD"@) || contains_seq(description, "ATI"@) {
        "AMD"@
    } else if contains_seq(description, "Intel"@) {
        "Intel"@
    } else {
        Seq::empty()
    }
}

/// The display adapter that one line of the bus listing describes, if it
/// describes one: the bus address stands before the first space, the
/// description after it, and the model after the last colon of the
/// description.
pub open spec fn gpu_of_line(line: Seq<char>) -> Option<GpuControllerView> {
    match after_first(line, ' ') {
        Some(description) => if is_display_line(line) {
            Some(
                GpuControllerView {
                    model: trim_of(after_last(description, ':')),
                    vendor: vendor_of(description),
                    vram: 0,
                    bus: before_first(line, ' '),
                },
            )
        } else {
            None
        },
        None => None,
    }
}

/// The display adapters that the bus listing describes, in its order; none
/// where there is no listing.
pub open spec fn gpus_of(listing: Option<Seq<char>>) -> Seq<GpuControllerView> {
    match listing {
        Some(text) => records_of(lines_of(text), |line: Seq<char>| gpu_of_line(line)),
        None => Seq::empty(),
    }
}

/// Tells whether a line of the bus listing describes a display adapter.
fn line_is_display(line: &[char]) -> (b: bool)
    ensures
        b == is_display_line(line@),
{
    let vga = chars_of("VGA");
    let three_d = chars_of("3D");
    let display = chars_of("Display");
    contains(line, vga.as_slice()) || contains(line, three_d.as_slice()) || contains(
        line,
        display.as_slice(),
    )
}

/// The vendor that a device description names.
fn vendor(description: &[char]) -> (out: String)
    ensures
        out@ == vendor_of(description@),
{
    let nvidia = chars_of("NVIDIA");
    let amd = chars_of("AMD");
    let ati = chars_of("ATI");
    let intel = chars_of("Intel");
    if contains(description, nvidia.as_slice()) {
        "NVIDIA".to_owned()
    } else if contains(description, amd.as_slice()) || contains(description, ati.as_slice()) {
        "AMD".to_owned()
    } else if contains(description, intel.as_slice()) {
        "Intel".to_owned()
    } else {
        String::new()
    }
}

/// Reads one line of the bus listing.
fn gpu_from_line(line: &[char]) -> (out: Option<GpuController>)
    ensures
        out.deep_view() == gpu_of_line(line@),
{
    if !line_is_display(line) {
        return None;
    }
    let space = find_char(line, ' ');
    proof {
        lemma_index_of_bounds(line@, ' ');
    }
    if space >= line.len() {
        return None;
    }
    let description = slice_subrange(line, space + 1, line.len());
    let start = after_last_start(description, ':');
    proof {
        lemma_last_index_of_bounds(description@, ':');
    }
    let model = trim(slice_subrange(description, start, description.len()));
    Some(
        GpuController {
            model: string_of(model),
            vendor: vendor(description),
            vram: 0,
            bus: string_of(slice_subrange(line, 0, space)),
        },
    )
}

/// Reads the display adapters from the listing of the PCI bus. `listing` is
/// what the listing tool printed, or `None` where it could not be run or
/// reported a failure.
pub fn read_gpu_info(listing: Option<&str>) -> (gpus: Vec<GpuController>)
    ensures
        gpus.deep_view() == gpus_of(listing.deep_view()),
{
    let mut gpus: Vec<GpuController> = Vec::new();
    assert(gpus.deep_view() == Seq::<GpuControllerView>::empty());
    let text = match listing {
        Some(text) => text,
        None => { return gpus; },
    };
    let chars = chars_of(text);
    let lines = split_lines(chars.as_slice());
    let ghost all = lines.deep_view();
    let ghost read = |line: Seq<char>| gpu_of_line(line);
    assert(all.take(0) == Seq::<Seq<char>>::empty());
    let mut i: usize = 0;
    while i < lines.len()
        invariant
            i <= lines.len(),
            all == lines.deep_view(),
            read == |line: Seq<char>| gpu_of_line(line),
            gpus.deep_view() == records_of(all.take(i as int), read),
        decreases lines.len() - i,
    {
        proof {
            lemma_rows_index(lines, i as int);
            lemma_records_of_next(all, read, i as int);
        }
        if let Some(gpu) = gpu_from_line(lines[i].as_slice()) {
            let ghost before = gpus.deep_view();
            gpus.push(gpu);
            assert(gpus.deep_view() == before.push(gpu@));
        }
        i += 1;
    }
    assert(all.take(i as int) == all);
    gpus
}

/// The display adapters of the machine, from the listing of the PCI bus.
pub fn collect_graphics(listing: Option<&str>) -> (info: GraphicsInfo)
    ensures
        info@.controllers == gpus_of(listing.deep_view()),
{
    GraphicsInfo { controllers: read_gpu_info(listing) }
}

/// Reading the same listing twice gives the same display adapters.
pub proof fn lemma_gpu_info_repeatable(
    listing: Option<&str>,
    first: Vec<GpuController>,
    second: Vec<GpuController>,
)
    requires
        first.deep_view() == gpus_of(listing.deep_view()),
        second.deep_view() == gpus_of(listing.deep_view()),
    ensures
        first.deep_view() == second.deep_view(),
{
}

} // verus!
