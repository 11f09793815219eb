//! Capture devices: their identifiers and the listing that the enumerator
//! produces from what the audio host reports.
//!
//! An identifier is either `default` or `device_<index>`, where the index is
//! the position of the device in the host's enumeration at the time of the
//! listing. Positions are not stable across listings when devices come and go.

use crate::decimal::{
    decimal_digits, lemma_numeral_is_ascii, lemma_numeral_round_trip, parse_usize, push_decimal,
    usize_numeral,
};
use crate::error::CaptureError;
use vstd::prelude::*;
use vstd::string::*;
use vstd::utf8::is_ascii_chars;

verus! {

/// A capture device as shown to the caller.
#[derive(Debug, PartialEq, Eq)]
pub struct AudioDevice {
    pub id: String,
    pub name: String,
}

/// The mathematical content of an [`AudioDevice`].
pub struct AudioDeviceView {
    pub id: Seq<char>,
    pub name: Seq<char>,
}

impl View for AudioDevice {
    type V = AudioDeviceView;

    open spec fn view(&self) -> AudioDeviceView {
        AudioDeviceView { id: self.id@, name: self.name@ }
    }
}

impl Clone for AudioDevice {
    fn clone(&self) -> (copy: Self)
        ensures
            copy == *self,
    {
        AudioDevice { id: self.id.clone(), name: self.name.clone() }
    }
}

impl DeepView for AudioDevice {
    type V = AudioDeviceView;

    open spec fn deep_view(&self) -> AudioDeviceView {
        self@
    }
}

/// What the audio host reports about its input devices.
#[derive(Debug, PartialEq, Eq)]
pub struct HostInventory {
    /// The name of the default input device; `None` when there is no default
    /// device or its name cannot be read.
    pub default_name: Option<String>,
    /// The name of every enumerated input device, in enumeration order, with
    /// `None` for a device whose name cannot be read; `None` as a whole when
    /// the host could not enumerate its devices.
    pub inputs: Option<Vec<Option<String>>>,
}

/// The outcome of reaching for the audio host.
#[derive(Debug, PartialEq, Eq)]
pub enum HostProbe {
    /// No audio host answered; the text is the host's diagnostic.
    Unreachable(String),
    /// The host answered with its inventory.
    Reachable(HostInventory),
}

/// Which device a capture request names.
#[derive(Debug, Clone, Copy, PartialEq, Eq, Structural)]
pub enum DeviceSelector {
    /// The host's default input device.
    Default,
    /// The device at this position of the host's enumeration.
    Index(usize),
}

/// The identifier of the device at position `index` of the enumeration.
pub open spec fn indexed_id(index: nat) -> Seq<char> {
    "device_"@ + decimal_digits(index)
}

/// The selector that a device id denotes, if it is well-formed: `default`,
/// or `device_` followed by an unsigned decimal numeral that fits in `usize`.
pub open spec fn selector_of(id: Seq<char>) -> Option<DeviceSelector> {
    if id == "default"@ {
        Some(DeviceSelector::Default)
    } else if "device_"@.is_prefix_of(id) {
        match usize_numeral(id.skip("device_"@.len() as int)) {
            Some(index) => Some(DeviceSelector::Index(index)),
            None => None,
        }
    } else {
        None
    }
}

/// The listing entry of the default device: present when its name is known,
/// under the id `default` and with a suffix that marks it as the default.
pub open spec fn default_entry(default_name: Option<Seq<char>>) -> Seq<AudioDeviceView> {
    match default_name {
        Some(name) => seq![AudioDeviceView { id: "default"@, name: name + " (기본)"@ }],
        None => seq![],
    }
}

/// The listing entries of the enumerated devices: one for each device whose
/// name is known, in enumeration order, under the id of its position.
pub open spec fn indexed_entries(names: Seq<Option<Seq<char>>>) -> Seq<AudioDeviceView>
    decreases names.len(),
{
    if names.len() == 0 {
        seq![]
    } else {
        let earlier = indexed_entries(names.drop_last());
        match names.last() {
            Some(name) => earlier.push(
                AudioDeviceView { id: indexed_id((names.len() - 1) as nat), name },
            ),
            None => earlier,
        }
    }
}

/// The listing entry of the device at `position` of the enumeration
/// `names`, for a device whose name can be read.
pub open spec fn entry_at(names: Seq<Option<Seq<char>>>, position: int) -> AudioDeviceView
    recommends
        0 <= position < names.len(),
        names[position] is Some,
{
    AudioDeviceView { id: indexed_id(position as nat), name: names[position].unwrap() }
}

/// Whether `entry` is the listing entry of some device of the enumeration
/// `names` whose name can be read.
pub open spec fn is_entry_of(entry: AudioDeviceView, names: Seq<Option<Seq<char>>>) -> bool {
    exists|position: int|
        0 <= position < names.len() && names[position] is Some && entry == #[trigger] entry_at(
            names,
            position,
        )
}

/// The whole listing: the default device first, then the enumerated devices.
/// A failed enumeration contributes nothing.
pub open spec fn device_listing(
    default_name: Option<Seq<char>>,
    inputs: Option<Seq<Option<Seq<char>>>>,
) -> Seq<AudioDeviceView> {
    default_entry(default_name) + match inputs {
        Some(names) => indexed_entries(names),
        None => seq![],
    }
}

impl DeviceSelector {
    /// The identifier under which the listing shows the selected device.
    pub open spec fn id_text(self) -> Seq<char> {
        match self {
            DeviceSelector::Default => "default"@,
            DeviceSelector::Index(index) => indexed_id(index as nat),
        }
    }

    /// The error that reports that the selected device is not there.
    pub open spec fn absence(self) -> CaptureError {
        match self {
            DeviceSelector::Default => CaptureError::DefaultDeviceMissing,
            DeviceSelector::Index(_) => CaptureError::DeviceNotFound,
        }
    }

    /// The error of a lookup that did not find the selected device: the host
    /// has no default input device, or it lists no device at the position.
    pub fn missing(&self) -> (error: CaptureError)
        ensures
            error == self.absence(),
    {
        match self {
            DeviceSelector::Default => CaptureError::DefaultDeviceMissing,
            DeviceSelector::Index(_) => CaptureError::DeviceNotFound,
        }
    }

    /// Renders the identifier of the selected device.
    pub fn id(&self) -> (id: String)
        ensures
            id@ == self.id_text(),
    {
        match self {
            DeviceSelector::Default => String::from_str("default"),
            DeviceSelector::Index(index) => {
                let mut id = String::from_str("device_");
                push_decimal(&mut id, *index);
                id
            },
        }
    }

    /// Reads a device id. Returns `None` exactly when the id is malformed.
    pub fn parse(id: &str) -> (selector: Option<DeviceSelector>)
        ensures
            selector == selector_of(id@),
    {
        if !id.is_ascii() {
            proof {
                if selector_of(id@) is Some {
                    lemma_well_formed_id_is_ascii(id@);
                }
            }
            return None;
        }
        proof {
            reveal_strlit("default");
            reveal_strlit("device_");
            broadcast use is_ascii_spec_bytes;

        }
        if ascii_eq(id, "default") {
            return Some(DeviceSelector::Default);
        }
        let len = id.as_bytes().len();
        if len < 7 {
            return None;
        }
        let head = id.substring_ascii(0, 7);
        if !ascii_eq(head, "device_") {
            return None;
        }
        let tail = id.substring_ascii(7, len);
        assert(tail@ =~= id@.skip(7));
        match parse_usize(tail) {
            Some(index) => Some(DeviceSelector::Index(index)),
            None => None,
        }
    }
}

/// Whether two ASCII strings hold the same characters.
fn ascii_eq(a: &str, b: &str) -> (same: bool)
    requires
        a.is_ascii(),
        b.is_ascii(),
    ensures
        same == (a@ == b@),
{
    proof {
        broadcast use is_ascii_spec_bytes;

    }
    let left = a.as_bytes();
    let right = b.as_bytes();
    let len = left.len();
    if len != right.len() {
        return false;
    }
    let mut pos: usize = 0;
    while pos < len
        invariant
            is_ascii_chars(a@),
            is_ascii_chars(b@),
            len == a@.len(),
            len == b@.len(),
            left@.len() == len,
            right@.len() == len,
            forall|i: int| 0 <= i < len ==> left@[i] == a@[i] as u8,
            forall|i: int| 0 <= i < len ==> right@[i] == b@[i] as u8,
            pos <= len,
            forall|i: int| 0 <= i < pos ==> a@[i] == b@[i],
        decreases len - pos,
    {
        if left[pos] != right[pos] {
            assert(a@[pos as int] != b@[pos as int]);
            return false;
        }
        pos = pos + 1;
    }
    assert(a@ =~= b@);
    true
}

/// Lists the capture devices that the host reports.
///
/// The default device comes first, when it exists and its name can be read,
/// under the id `default`. Every enumerated device whose name can be read
/// follows in enumeration order under the id of its position; devices without
/// a readable name are skipped but keep their position. When the enumeration
/// itself failed, the listing holds whatever the default device contributed.
/// The listing fails only when the host could not be reached at all.
pub fn list_audio_devices(probe: &HostProbe) -> (listing: Result<Vec<AudioDevice>, CaptureError>)
    ensures
        match *probe {
            HostProbe::Unreachable(detail) => listing == Err::<Vec<AudioDevice>, CaptureError>(
                CaptureError::Enumeration(detail),
            ),
            HostProbe::Reachable(inventory) => listing is Ok && listing.unwrap().deep_view()
                == device_listing(
                inventory.default_name.deep_view(),
                inventory.inputs.deep_view(),
            ),
        },
{
    match probe {
        HostProbe::Unreachable(detail) => Err(CaptureError::Enumeration(detail.clone())),
        HostProbe::Reachable(inventory) => {
            let mut devices: Vec<AudioDevice> = Vec::new();
            match &inventory.default_name {
                Some(name) => {
                    devices.push(
                        AudioDevice {
                            id: String::from_str("default"),
                            name: name.clone().concat(" (기본)"),
                        },
                    );
                },
                None => {},
            }
            let ghost first = default_entry(inventory.default_name.deep_view());
            assert(devices.deep_view() =~= first);
            match &inventory.inputs {
                Some(names) => {
                    let ghost all = names.deep_view();
                    let mut pos: usize = 0;
                    assert(all.take(0) =~= Seq::<Option<Seq<char>>>::empty());
                    while pos < names.len()
                        invariant
                            pos <= names.len(),
                            all == names.deep_view(),
                            devices.deep_view() == first + indexed_entries(all.take(pos as int)),
                        decreases names.len() - pos,
                    {
                        let ghost before = devices.deep_view();
                        let ghost seen = all.take(pos as int);
                        let ghost next = all.take(pos + 1);
                        proof {
                            assert(next.drop_last() =~= seen);
                            assert(next.last() == names@[pos as int].deep_view());
                        }
                        match &names[pos] {
                            Some(name) => {
                                let device = AudioDevice {
                                    id: DeviceSelector::Index(pos).id(),
                                    name: name.clone(),
                                };
                                devices.push(device);
                                assert(devices.deep_view() =~= before.push(device@));
                                assert(first + indexed_entries(seen).push(device@) =~= (first
                                    + indexed_entries(seen)).push(device@));
                            },
                            None => {},
                        }
                        pos = pos + 1;
                    }
                    assert(all.take(pos as int) =~= all);
                },
                None => {
                    assert(first + Seq::<AudioDeviceView>::empty() =~= first);
                },
            }
            Ok(devices)
        },
    }
}

/// A well-formed device id holds ASCII characters only.
pub proof fn lemma_well_formed_id_is_ascii(id: Seq<char>)
    requires
        selector_of(id) is Some,
    ensures
        is_ascii_chars(id),
{
    reveal_strlit("default");
    reveal_strlit("device_");
    if id != "default"@ {
        let tail = id.skip(7);
        lemma_numeral_is_ascii(tail);
        assert forall|i: int| 0 <= i < id.len() implies '\0' <= #[trigger] id[i] <= '\u{7f}' by {
            if i < 7 {
                assert(id[i] == id.subrange(0, 7)[i]);
            } else {
                assert(id[i] == tail[i - 7]);
            }
        }
    }
}

/// Every identifier that a selector renders is read back as that selector:
/// the ids that a listing hands out are accepted when capture is started.
pub proof fn lemma_selector_round_trip(selector: DeviceSelector)
    ensures
        selector_of(selector.id_text()) == Some(selector),
{
    reveal_strlit("default");
    reveal_strlit("device_");
    match selector {
        DeviceSelector::Default => {},
        DeviceSelector::Index(index) => {
            let id = indexed_id(index as nat);
            lemma_numeral_round_trip(index as nat);
            assert(id[2] == 'v');
            assert(id.subrange(0, 7) =~= "device_"@);
            assert(id.skip(7) =~= decimal_digits(index as nat));
        },
    }
}

/// The enumerated part of a listing holds exactly the devices with a
/// readable name: every entry stands for such a device under the id of its
/// position, and every such device has its entry.
pub proof fn lemma_indexed_entries(names: Seq<Option<Seq<char>>>)
    ensures
        indexed_entries(names).len() <= names.len(),
        forall|j: int|
            0 <= j < indexed_entries(names).len() ==> is_entry_of(
                #[trigger] indexed_entries(names)[j],
                names,
            ),
        forall|k: int|
            0 <= k < names.len() && names[k] is Some ==> indexed_entries(names).contains(
                #[trigger] entry_at(names, k),
            ),
    decreases names.len(),
{
    if names.len() > 0 {
        let earlier_names = names.drop_last();
        let earlier = indexed_entries(earlier_names);
        let entries = indexed_entries(names);
        let last = names.len() - 1;
        lemma_indexed_entries(earlier_names);
        assert forall|j: int| 0 <= j < entries.len() implies is_entry_of(
            #[trigger] entries[j],
            names,
        ) by {
            if j < earlier.len() {
                assert(is_entry_of(earlier[j], earlier_names));
                let k = choose|k: int|
                    0 <= k < earlier_names.len() && earlier_names[k] is Some && earlier[j]
                        == #[trigger] entry_at(earlier_names, k);
                assert(entries[j] == entry_at(names, k));
            } else {
                assert(entries[j] == entry_at(names, last));
            }
        }
        assert forall|k: int| 0 <= k < names.len() && names[k] is Some implies entries.contains(
            #[trigger] entry_at(names, k),
        ) by {
            if k < last {
                assert(earlier.contains(entry_at(earlier_names, k)));
                let j = choose|j: int|
                    0 <= j < earlier.len() && earlier[j] == entry_at(earlier_names, k);
                assert(entries[j] == entry_at(names, k));
            } else {
                assert(entries[entries.len() - 1] == entry_at(names, k));
            }
        }
    }
}

/// A host without a default device and without a device whose name can be
/// read lists nothing, whether the enumeration is empty, unreadable or
/// failed.
pub proof fn lemma_nothing_to_list(inputs: Option<Seq<Option<Seq<char>>>>)
    requires
        inputs matches Some(names) ==> forall|k: int| 0 <= k < names.len() ==> names[k] is None,
    ensures
        device_listing(None, inputs) == Seq::<AudioDeviceView>::empty(),
{
    if let Some(names) = inputs {
        lemma_indexed_entries(names);
        if indexed_entries(names).len() > 0 {
            assert(is_entry_of(indexed_entries(names)[0], names));
        }
        assert(indexed_entries(names) =~= Seq::<AudioDeviceView>::empty());
    }
    assert(device_listing(None, inputs) =~= Seq::<AudioDeviceView>::empty());
}

} // verus!
