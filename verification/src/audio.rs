//! Sound cards, read from the listing of the playback devices.

use vstd::prelude::*;
use vstd::slice::slice_subrange;
use crate::records::{lemma_records_of_next, records_of};
use crate::text::{
    before_first, chars_of, find_char, lemma_index_of_bounds, lemma_rows_index, lines_of,
    second_field, second_field_of, split_lines, starts_with, string_of, trim, trim_of,
};

verus! {

/// One sound card.
#[derive(Clone, Debug, PartialEq, Eq)]
pub struct AudioDevice {
    pub name: String,
    pub manufacturer: String,
    pub status: String,
}

/// The view of [`AudioDevice`]: its texts as sequences of characters.
pub struct AudioDeviceView {
    pub name: Seq<char>,
    pub manufacturer: Seq<char>,
    pub status: Seq<char>,
}

impl View for AudioDevice {
    type V = AudioDeviceView;

    open spec fn view(&self) -> AudioDeviceView {
        AudioDeviceView { name: self.name@, manufacturer: self.manufacturer@, status: self.status@ }
    }
}

impl DeepView for AudioDevice {
    type V = AudioDeviceView;

    open spec fn deep_view(&self) -> AudioDeviceView {
        self@
    }
}

impl Default for AudioDevice {
    fn default() -> (out: Self)
        ensures
            out@ == (AudioDeviceView {
                name: Seq::empty(),
                manufacturer: Seq::empty(),
                status: Seq::empty(),
            }),
    {
        AudioDevice { name: String::new(), manufacturer: String::new(), status: String::new() }
    }
}

/// The sound cards of the machine.
#[derive(Clone, Debug, PartialEq, Eq)]
pub struct AudioInfo {
    pub devices: Vec<AudioDevice>,
}

/// The view of [`AudioInfo`]: its texts as sequences of characters.
pub struct AudioInfoView {
    pub devices: Seq<AudioDeviceView>,
}

impl View for AudioInfo {
    type V = AudioInfoView;

    open spec fn view(&self) -> AudioInfoView {
        AudioInfoView { devices: self.devices.deep_view() }
    }
}

impl DeepView for AudioInfo {
    type V = AudioInfoView;

    open spec fn deep_view(&self) -> AudioInfoView {
        self@
    }
}

impl Default for AudioInfo {
    fn default() -> (out: Self)
        ensures
            out@.devices.len() == 0,
    {
        AudioInfo { devices: Vec::new() }
    }
}

/// The manufacturer that a card description names in square brackets: what
/// stands after its first `[`, up to the next `[` or `]`. `Unknown` where the
/// description has no `[`.
pub open spec fn manufacturer_of(description: Seq<char>) -> Seq<char> {
    match second_field(description, '[') {
        Some(tag) => before_first(tag, ']'),
        None => "Unknown"@,
    }
}

/// The sound card that one line of the listing describes, if it describes
/// one. Such a line starts with `card` and holds a colon. The description is
/// what stands between the first colon and the next, trimmed; the name is
/// what stands in it before the first `[`, trimmed.
pub open spec fn audio_of_line(line: Seq<char>) -> Option<AudioDeviceView> {
    match second_field(line, ':') {
        Some(field) => if "card"@.is_prefix_of(line) {
            Some(
                AudioDeviceView {
                    name: trim_of(before_first(trim_of(field), '[')),
                    manufacturer: manufacturer_of(trim_of(field)),
                    status: "Active"@,
                },
            )
        } else {
            None
        },
        None => None,
    }
}

/// The sound cards that the listing describes, in its order; none where
/// there is no listing.
pub open spec fn audio_devices_of(listing: Option<Seq<char>>) -> Seq<AudioDeviceView> {
    match listing {
        Some(text) => records_of(lines_of(text), |line: Seq<char>| audio_of_line(line)),
        None => Seq::empty(),
    }
}

/// The manufacturer that a card description names.
fn manufacturer(description: &[char]) -> (out: String)
    ensures
        out@ == manufacturer_of(description@),
{
    match second_field_of(description, '[') {
        Some(tag) => {
            let close = find_char(tag, ']');
            proof {
                lemma_index_of_bounds(tag@, ']');
            }
            string_of(slice_subrange(tag, 0, close))
        },
        None => "Unknown".to_owned(),
    }
}

/// Reads one line of the listing.
fn audio_from_line(line: &[char]) -> (out: Option<AudioDevice>)
    ensures
        out.deep_view() == audio_of_line(line@),
{
    let card = chars_of("card");
    if !starts_with(line, card.as_slice()) {
        return None;
    }
    match second_field_of(line, ':') {
        Some(field) => {
            let description = trim(field);
            let bracket = find_char(description, '[');
            proof {
                lemma_index_of_bounds(description@, '[');
            }
            let name = trim(slice_subrange(description, 0, bracket));
            Some(
                AudioDevice {
                    name: string_of(name),
                    manufacturer: manufacturer(description),
                    status: "Active".to_owned(),
                },
            )
        },
        None => None,
    }
}

/// Reads the sound cards from the listing of the playback devices.
/// `listing` is what the listing tool printed, or `None` where it could not
/// be run.
pub fn collect_audio(listing: Option<&str>) -> (info: AudioInfo)
    ensures
        info@.devices == audio_devices_of(listing.deep_view()),
{
    let mut devices: Vec<AudioDevice> = Vec::new();
    assert(devices.deep_view() == Seq::<AudioDeviceView>::empty());
    let text = match listing {
        Some(text) => text,
        None => { return AudioInfo { devices }; },
    };
    let chars = chars_of(text);
    let lines = split_lines(chars.as_slice());
    let ghost all = lines.deep_view();
    let ghost read = |line: Seq<char>| audio_of_line(line);
    assert(all.take(0) == Seq::<Seq<char>>::empty());
    let mut i: usize = 0;
    while i < lines.len()
        invariant
            i <= lines.len(),
            all == lines.deep_view(),
            read == |line: Seq<char>| audio_of_line(line),
            devices.deep_view() == records_of(all.take(i as int), read),
        decreases lines.len() - i,
    {
        proof {
            lemma_rows_index(lines, i as int);
            lemma_records_of_next(all, read, i as int);
        }
        if let Some(device) = audio_from_line(lines[i].as_slice()) {
            let ghost before = devices.deep_view();
            devices.push(device);
            assert(devices.deep_view() == before.push(device@));
        }
        i += 1;
    }
    assert(all.take(i as int) == all);
    AudioInfo { devices }
}

/// Reading the same listing twice gives the same sound cards.
pub proof fn lemma_audio_repeatable(listing: Option<&str>, first: AudioInfo, second: AudioInfo)
    requires
        first@.devices == audio_devices_of(listing.deep_view()),
        second@.devices == audio_devices_of(listing.deep_view()),
    ensures
        first@ == second@,
{
}

} // verus!
