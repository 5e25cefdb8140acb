//! USB devices, read from the listing of the USB buses.

use vstd::prelude::*;
use vstd::slice::slice_subrange;
use crate::records::{lemma_records_of_next, records_of};
use crate::text::{
    after_first, before_first, chars_of, equal, find_char, index_of, join_from, join_of,
    lemma_index_of_bounds, lemma_rows_index, lines_of, split_lines, split_words, string_of,
    trim_end_matches, trim_end_matches_of, words_of,
};

verus! {

/// One device on a USB bus.
#[derive(Clone, Debug, PartialEq, Eq)]
pub struct UsbDevice {
    pub name: String,
    pub vendor: String,
    pub vendor_id: String,
    pub product_id: String,
    pub bus: String,
    pub device: String,
}

/// The view of [`UsbDevice`]: its texts as sequences of characters.
pub struct UsbDeviceView {
    pub name: Seq<char>,
    pub vendor: Seq<char>,
    pub vendor_id: Seq<char>,
    pub product_id: Seq<char>,
    pub bus: Seq<char>,
    pub device: Seq<char>,
}

impl View for UsbDevice {
    type V = UsbDeviceView;

    open spec fn view(&self) -> UsbDeviceView {
        UsbDeviceView {
            name: self.name@,
            vendor: self.vendor@,
            vendor_id: self.vendor_id@,
            product_id: self.product_id@,
            bus: self.bus@,
            device: self.device@,
        }
    }
}

impl DeepView for UsbDevice {
    type V = UsbDeviceView;

    open spec fn deep_view(&self) -> UsbDeviceView {
        self@
    }
}

impl Default for UsbDevice {
    fn default() -> (out: Self)
        ensures
            out@ == (UsbDeviceView {
                name: Seq::empty(),
                vendor: Seq::empty(),
                vendor_id: Seq::empty(),
                product_id: Seq::empty(),
                bus: Seq::empty(),
                device: Seq::empty(),
            }),
    {
        UsbDevice {
            name: String::new(),
            vendor: String::new(),
            vendor_id: String::new(),
            product_id: String::new(),
            bus: String::new(),
            device: String::new(),
        }
    }
}

/// The peripherals of the machine.
#[derive(Clone, Debug, PartialEq, Eq)]
pub struct PeripheralInfo {
    pub usb_devices: Vec<UsbDevice>,
}

/// The view of [`PeripheralInfo`]: its texts as sequences of characters.
pub struct PeripheralInfoView {
    pub usb_devices: Seq<UsbDeviceView>,
}

impl View for PeripheralInfo {
    type V = PeripheralInfoView;

    open spec fn view(&self) -> PeripheralInfoView {
        PeripheralInfoView { usb_devices: self.usb_devices.deep_view() }
    }
}

impl DeepView for PeripheralInfo {
    type V = PeripheralInfoView;

    open spec fn deep_view(&self) -> PeripheralInfoView {
        self@
    }
}

impl Default for PeripheralInfo {
    fn default() -> (out: Self)
        ensures
            out@.usb_devices.len() == 0,
    {
        PeripheralInfo { usb_devices: Vec::new() }
    }
}

/// The two identifiers that `vendor:product` writes: `None` unless the word
/// holds exactly one colon.
pub open spec fn usb_ids_of(word: Seq<char>) -> Option<(Seq<char>, Seq<char>)> {
    match after_first(word, ':') {
        Some(product) => if index_of(product, ':') >= product.len() {
            Some((before_first(word, ':'), product))
        } else {
            None
        },
        None => None,
    }
}

/// The device that one line of the bus listing describes, if it describes
/// one. Such a line has at least seven words, `ID` as the fifth, and the two
/// identifiers, with one colon between them, as the sixth. The bus number is
/// the second word, the device number the fourth without the colons at its
/// end, and the name what follows the identifiers, joined by single spaces.
pub open spec fn usb_of_line(line: Seq<char>) -> Option<UsbDeviceView> {
    let words = words_of(line);
    if words.len() >= 7 && words[4] == "ID"@ {
        match usb_ids_of(words[5]) {
            Some(ids) => Some(
                UsbDeviceView {
                    name: join_of(words.skip(6), " "@),
                    vendor: "USB Device"@,
                    vendor_id: ids.0,
                    product_id: ids.1,
                    bus: words[1],
                    device: trim_end_matches_of(words[3], ':'),
                },
            ),
            None => None,
        }
    } else {
        None
    }
}

/// The devices that the bus listing describes, in its order; none where
/// there is no listing.
pub open spec fn usb_devices_of(listing: Option<Seq<char>>) -> Seq<UsbDeviceView> {
    match listing {
        Some(text) => records_of(lines_of(text), |line: Seq<char>| usb_of_line(line)),
        None => Seq::empty(),
    }
}

/// Reads one line of the bus listing.
fn usb_from_line(line: &[char]) -> (out: Option<UsbDevice>)
    ensures
        out.deep_view() == usb_of_line(line@),
{
    let words = split_words(line);
    if words.len() < 7 {
        return None;
    }
    proof {
        lemma_rows_index(words, 1);
        lemma_rows_index(words, 3);
        lemma_rows_index(words, 4);
        lemma_rows_index(words, 5);
    }
    let id = chars_of("ID");
    if !equal(words[4].as_slice(), id.as_slice()) {
        return None;
    }
    let pair = words[5].as_slice();
    let colon = find_char(pair, ':');
    proof {
        lemma_index_of_bounds(pair@, ':');
    }
    if colon >= pair.len() {
        return None;
    }
    let product = slice_subrange(pair, colon + 1, pair.len());
    let next = find_char(product, ':');
    if next < product.len() {
        return None;
    }
    let space = chars_of(" ");
    let name = join_from(&words, 6, space.as_slice());
    Some(
        UsbDevice {
            name: string_of(name.as_slice()),
            vendor: "USB Device".to_owned(),
            vendor_id: string_of(slice_subrange(pair, 0, colon)),
            product_id: string_of(product),
            bus: string_of(words[1].as_slice()),
            device: string_of(trim_end_matches(words[3].as_slice(), ':')),
        },
    )
}

/// Reads the USB devices from the listing of the USB buses. `listing` is
/// what the listing tool printed, or `None` where it could not be run.
pub fn collect_peripherals(listing: Option<&str>) -> (info: PeripheralInfo)
    ensures
        info@.usb_devices == usb_devices_of(listing.deep_view()),
{
    let mut devices: Vec<UsbDevice> = Vec::new();
    assert(devices.deep_view() == Seq::<UsbDeviceView>::empty());
    let text = match listing {
        Some(text) => text,
        None => { return PeripheralInfo { usb_devices: devices }; },
    };
    let chars = chars_of(text);
    let lines = split_lines(chars.as_slice());
    let ghost all = lines.deep_view();
    let ghost read = |line: Seq<char>| usb_of_line(line);
    assert(all.take(0) == Seq::<Seq<char>>::empty());
    let mut i: usize = 0;
    while i < lines.len()
        invariant
            i <= lines.len(),
            all == lines.deep_view(),
            read == |line: Seq<char>| usb_of_line(line),
            devices.deep_view() == records_of(all.take(i as int), read),
        decreases lines.len() - i,
    {
        proof {
            lemma_rows_index(lines, i as int);
            lemma_records_of_next(all, read, i as int);
        }
        if let Some(device) = usb_from_line(lines[i].as_slice()) {
            let ghost before = devices.deep_view();
            devices.push(device);
            assert(devices.deep_view() == before.push(device@));
        }
        i += 1;
    }
    assert(all.take(i as int) == all);
    PeripheralInfo { usb_devices: devices }
}

/// Reading the same listing twice gives the same devices.
pub proof fn lemma_peripherals_repeatable(
    listing: Option<&str>,
    first: PeripheralInfo,
    second: PeripheralInfo,
)
    requires
        first@.usb_devices == usb_devices_of(listing.deep_view()),
        second@.usb_devices == usb_devices_of(listing.deep_view()),
    ensures
        first@ == second@,
{
}

} // verus!
