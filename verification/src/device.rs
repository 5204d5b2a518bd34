//! Device records: building a typed headset snapshot out of the raw attribute
//! texts read from one sysfs device directory, rendering it for display, and
//! enumerating the records of a whole driver directory.

use crate::battery::spec_parse_status;
use crate::battery::spec_render_level;
use crate::battery::spec_render_state;
use crate::battery::render_level;
use crate::battery::render_state;
use crate::battery::BatteryStatus;
use crate::text::dec_of;
use crate::text::parse_u8;
use crate::text::spec_parse_u8;
use crate::text::u8_to_string;
use vstd::prelude::*;

verus! {

/// The raw, already-trimmed texts of the attribute files of one device
/// directory; `None` stands for a file that is missing or unreadable, which
/// sysfs treats as a normal state, not an error.
pub struct DeviceAttributes {
    pub fw_version_receiver: Option<String>,
    pub fw_version_headset: Option<String>,
    pub sidetone_max: Option<String>,
    pub microphone_up: Option<String>,
    pub battery_status: Option<String>,
    pub battery_capacity: Option<String>,
}

/// Mathematical view of one optional attribute text.
pub open spec fn opt_text_view(s: Option<String>) -> Option<Seq<char>> {
    match s {
        Some(t) => Some(t@),
        None => None,
    }
}

/// Mathematical view of an attribute snapshot.
pub struct AttributesView {
    pub fw_version_receiver: Option<Seq<char>>,
    pub fw_version_headset: Option<Seq<char>>,
    pub sidetone_max: Option<Seq<char>>,
    pub microphone_up: Option<Seq<char>>,
    pub battery_status: Option<Seq<char>>,
    pub battery_capacity: Option<Seq<char>>,
}

impl View for DeviceAttributes {
    type V = AttributesView;

    open spec fn view(&self) -> AttributesView {
        AttributesView {
            fw_version_receiver: opt_text_view(self.fw_version_receiver),
            fw_version_headset: opt_text_view(self.fw_version_headset),
            sidetone_max: opt_text_view(self.sidetone_max),
            microphone_up: opt_text_view(self.microphone_up),
            battery_status: opt_text_view(self.battery_status),
            battery_capacity: opt_text_view(self.battery_capacity),
        }
    }
}

/// One discovered headset endpoint. A constructed record always has an
/// identifier, a receiver firmware version and a sidetone bound; every other
/// field may be legitimately absent, and absence is a displayable state.
pub struct CorsairVoidDevice {
    pub id: String,
    pub fw_version_headset: Option<String>,
    pub fw_version_receiver: String,
    pub max_sidetone: u8,
    pub microphone_up: Option<bool>,
    pub battery_status: Option<BatteryStatus>,
}

/// Mathematical view of a device record.
pub struct DeviceRecordView {
    pub id: Seq<char>,
    pub fw_version_headset: Option<Seq<char>>,
    pub fw_version_receiver: Seq<char>,
    pub max_sidetone: u8,
    pub microphone_up: Option<bool>,
    pub battery_status: Option<BatteryStatus>,
}

impl View for CorsairVoidDevice {
    type V = DeviceRecordView;

    open spec fn view(&self) -> DeviceRecordView {
        DeviceRecordView {
            id: self.id@,
            fw_version_headset: opt_text_view(self.fw_version_headset),
            fw_version_receiver: self.fw_version_receiver@,
            max_sidetone: self.max_sidetone,
            microphone_up: self.microphone_up,
            battery_status: self.battery_status,
        }
    }
}

/// Mathematical view of an optional device record.
pub open spec fn opt_device_view(r: Option<CorsairVoidDevice>) -> Option<DeviceRecordView> {
    match r {
        Some(d) => Some(d@),
        None => None,
    }
}

/// Normalisation of an optional free-text attribute: an empty text and a
/// missing file both collapse to absence.
pub open spec fn spec_optional_text(t: Option<Seq<char>>) -> Option<Seq<char>> {
    match t {
        Some(s) => if s.len() > 0 {
            Some(s)
        } else {
            None
        },
        None => None,
    }
}

/// Normalisation of the microphone attribute: missing or empty text is
/// unknown; otherwise the microphone is up exactly when the text reads as
/// the number one.
pub open spec fn spec_microphone(t: Option<Seq<char>>) -> Option<bool> {
    match t {
        Some(s) => if s.len() > 0 {
            Some(spec_parse_u8(s) == Some(1u8))
        } else {
            None
        },
        None => None,
    }
}

/// Normalisation of the battery capacity attribute: the level is known
/// exactly when the text reads as an unsigned byte.
pub open spec fn spec_capacity(t: Option<Seq<char>>) -> Option<u8> {
    match t {
        Some(s) => spec_parse_u8(s),
        None => None,
    }
}

/// What building a device record from a directory snapshot yields. The
/// identifier, the receiver firmware text and a parseable sidetone bound are
/// required, and their absence disqualifies the whole record; every other
/// field folds its failure modes into absence.
pub open spec fn spec_build(id: Option<Seq<char>>, a: AttributesView) -> Option<
    DeviceRecordView,
> {
    match (id, a.fw_version_receiver) {
        (Some(id), Some(fw_receiver)) => match a.sidetone_max {
            Some(sidetone_text) => match spec_parse_u8(sidetone_text) {
                Some(max_sidetone) => Some(
                    DeviceRecordView {
                        id: id,
                        fw_version_headset: spec_optional_text(a.fw_version_headset),
                        fw_version_receiver: fw_receiver,
                        max_sidetone: max_sidetone,
                        microphone_up: spec_microphone(a.microphone_up),
                        battery_status: spec_parse_status(
                            a.battery_status,
                            spec_capacity(a.battery_capacity),
                        ),
                    },
                ),
                None => None,
            },
            None => None,
        },
        _ => None,
    }
}

impl CorsairVoidDevice {
    /// Builds the record of one device directory from its name and the raw
    /// texts of its attribute files, exactly as `spec_build` says: no record
    /// without an identifier, a receiver firmware version and a parseable
    /// sidetone bound; all other failures collapse to absent fields.
    pub fn from_device_path(id: Option<String>, attrs: DeviceAttributes) -> (r: Option<Self>)
        ensures
            opt_device_view(r) == spec_build(opt_text_view(id), attrs@),
    {
        let id = match id {
            Some(i) => i,
            None => {
                return None;
            },
        };
        let DeviceAttributes {
            fw_version_receiver,
            fw_version_headset,
            sidetone_max,
            microphone_up,
            battery_status,
            battery_capacity,
        } = attrs;
        let fw_version_receiver = match fw_version_receiver {
            Some(s) => s,
            None => {
                return None;
            },
        };
        let max_sidetone = match sidetone_max {
            Some(s) => match parse_u8(s.as_str()) {
                Some(v) => v,
                None => {
                    return None;
                },
            },
            None => {
                return None;
            },
        };
        let fw_version_headset = match fw_version_headset {
            Some(s) => if s.as_str().is_empty() {
                None
            } else {
                Some(s)
            },
            None => None,
        };
        let microphone_up = match microphone_up {
            Some(s) => if s.as_str().is_empty() {
                None
            } else {
                match parse_u8(s.as_str()) {
                    Some(v) => Some(v == 1),
                    None => Some(false),
                }
            },
            None => None,
        };
        let battery_level = match battery_capacity {
            Some(s) => parse_u8(s.as_str()),
            None => None,
        };
        let battery_status = BatteryStatus::parse(battery_status, battery_level);
        Some(
            CorsairVoidDevice {
                id,
                fw_version_headset,
                fw_version_receiver,
                max_sidetone,
                microphone_up,
                battery_status,
            },
        )
    }
}

/// A missing receiver firmware file disqualifies the whole device, whatever
/// the other attribute files hold.
pub proof fn lemma_missing_receiver_no_device(id: Option<Seq<char>>, a: AttributesView)
    requires
        a.fw_version_receiver is None,
    ensures
        spec_build(id, a) is None,
{
}

/// The microphone field of a built record: text reading as one gives an
/// up microphone, any other non-empty text gives a down microphone, and a
/// missing or empty file gives no value.
pub proof fn lemma_microphone_mapping(id: Option<Seq<char>>, a: AttributesView)
    ensures
        spec_build(id, a) matches Some(d) ==> d.microphone_up == spec_microphone(
            a.microphone_up,
        ),
        a.microphone_up == Some("1"@) ==> spec_microphone(a.microphone_up) == Some(true),
        (a.microphone_up matches Some(s) && s.len() > 0 && spec_parse_u8(s) != Some(1u8))
            ==> spec_microphone(a.microphone_up) == Some(false),
        (a.microphone_up is None || a.microphone_up == Some(Seq::<char>::empty()))
            ==> spec_microphone(a.microphone_up) is None,
{
    reveal_strlit("1");
    if a.microphone_up == Some("1"@) {
        let s = "1"@;
        assert(s.drop_last() =~= Seq::<char>::empty());
        assert(s.len() == 1);
        assert(s.last() == '1');
        assert(crate::text::digit_val('1') == 1);
        assert(crate::text::dec_val(Seq::<char>::empty()) == 0);
        assert(crate::text::dec_val(s) == 1);
        assert(spec_parse_u8(s) == Some(1u8));
    }
}

/// An empty headset firmware text and a missing headset firmware file
/// produce the very same device record, whatever else the snapshot holds.
pub proof fn lemma_headset_empty_equals_absent(id: Option<Seq<char>>, a: AttributesView)
    ensures
        spec_build(id, AttributesView { fw_version_headset: Some(Seq::<char>::empty()), ..a })
            == spec_build(id, AttributesView { fw_version_headset: None, ..a }),
{
}

/// The fixed multi-line display report of a device record. Order and wording
/// are part of the external contract: downstream tooling may parse the text.
pub open spec fn spec_render_device(d: DeviceRecordView) -> Seq<char> {
    "Corsair Void device ID: "@ + d.id + "\n"@ + "\tMax sidetone: "@ + dec_of(
        d.max_sidetone as nat,
    ) + "\n"@ + "\tReceiver firmware version: "@ + d.fw_version_receiver + "\n"@
        + "\tHeadset firmware version: "@ + (match d.fw_version_headset {
        Some(s) => s,
        None => "Disconnected"@,
    }) + "\n"@ + "\tMicrophone is "@ + (match d.microphone_up {
        Some(true) => "up"@,
        Some(false) => "down"@,
        None => "Disconnected"@,
    }) + "\n"@ + "\tBattery "@ + spec_render_state(d.battery_status) + "\n"@
        + "\tBattery level: "@ + spec_render_level(d.battery_status) + "\n"@
}

impl CorsairVoidDevice {
    /// Renders the record as its display report, exactly as
    /// `spec_render_device` says.
    pub fn render(&self) -> (r: String)
        ensures
            r@ == spec_render_device(self@),
    {
        let mut out = String::from_str("Corsair Void device ID: ");
        out.append(self.id.as_str());
        out.append("\n");
        out.append("\tMax sidetone: ");
        let max_text = u8_to_string(self.max_sidetone);
        out.append(max_text.as_str());
        out.append("\n");
        out.append("\tReceiver firmware version: ");
        out.append(self.fw_version_receiver.as_str());
        out.append("\n");
        out.append("\tHeadset firmware version: ");
        match &self.fw_version_headset {
            Some(s) => out.append(s.as_str()),
            None => out.append("Disconnected"),
        }
        out.append("\n");
        out.append("\tMicrophone is ");
        match self.microphone_up {
            Some(true) => out.append("up"),
            Some(false) => out.append("down"),
            None => out.append("Disconnected"),
        }
        out.append("\n");
        out.append("\tBattery ");
        let state_text = render_state(&self.battery_status);
        out.append(state_text.as_str());
        out.append("\n");
        out.append("\tBattery level: ");
        let level_text = render_level(&self.battery_status);
        out.append(level_text.as_str());
        out.append("\n");
        out
    }
}

/// One entry of the driver directory listing: the subdirectory name, if it
/// was a readable name, and the attribute snapshot read beneath it.
pub struct DeviceEntry {
    pub id: Option<String>,
    pub attributes: DeviceAttributes,
}

/// Mathematical view of a directory entry.
pub struct DeviceEntryView {
    pub id: Option<Seq<char>>,
    pub attributes: AttributesView,
}

impl View for DeviceEntry {
    type V = DeviceEntryView;

    open spec fn view(&self) -> DeviceEntryView {
        DeviceEntryView { id: opt_text_view(self.id), attributes: self.attributes@ }
    }
}

/// Views of a sequence of directory entries.
pub open spec fn entry_views(s: Seq<DeviceEntry>) -> Seq<DeviceEntryView> {
    s.map_values(|e: DeviceEntry| e@)
}

/// Views of a sequence of device records.
pub open spec fn device_views(s: Seq<CorsairVoidDevice>) -> Seq<DeviceRecordView> {
    s.map_values(|d: CorsairVoidDevice| d@)
}

/// What enumerating a driver directory listing yields: one record per entry
/// that builds, in the listing's own order, entries that fail to build
/// silently dropped.
pub open spec fn spec_discover(entries: Seq<DeviceEntryView>) -> Seq<DeviceRecordView>
    decreases entries.len(),
{
    if entries.len() == 0 {
        Seq::empty()
    } else {
        (match spec_build(entries[0].id, entries[0].attributes) {
            Some(d) => seq![d],
            None => Seq::empty(),
        }) + spec_discover(entries.drop_first())
    }
}

/// The devices found by one enumeration pass over the driver directory.
pub struct CorsairVoidInfo {
    pub devices: Vec<CorsairVoidDevice>,
}

impl CorsairVoidInfo {
    /// Builds the device list out of the driver directory listing, exactly as
    /// `spec_discover` says: a record per entry that builds, in listing
    /// order. Whether the driver directory exists at all is the caller's
    /// affair; a missing root simply has no entries to hand in.
    pub fn get_available_devices(entries: Vec<DeviceEntry>) -> (r: CorsairVoidInfo)
        ensures
            device_views(r.devices@) == spec_discover(entry_views(entries@)),
    {
        let ghost all: Seq<DeviceEntryView> = entry_views(entries@);
        let mut rest = entries;
        let mut devices: Vec<CorsairVoidDevice> = Vec::new();
        proof {
            assert(device_views(devices@) =~= Seq::<DeviceRecordView>::empty());
        }
        while rest.len() > 0
            invariant
                device_views(devices@) + spec_discover(entry_views(rest@)) == spec_discover(all),
            decreases rest.len(),
        {
            let ghost old_rest = rest@;
            let ghost old_devices = devices@;
            let entry = rest.remove(0);
            let ghost ev = entry@;
            proof {
                assert(entry_views(old_rest)[0] == ev);
                assert(entry_views(rest@) =~= entry_views(old_rest).drop_first());
            }
            match CorsairVoidDevice::from_device_path(entry.id, entry.attributes) {
                Some(d) => {
                    devices.push(d);
                    proof {
                        assert(device_views(devices@) =~= device_views(old_devices) + seq![d@]);
                        assert(device_views(old_devices) + (seq![d@] + spec_discover(
                            entry_views(rest@),
                        )) =~= (device_views(old_devices) + seq![d@]) + spec_discover(
                            entry_views(rest@),
                        ));
                    }
                },
                None => {
                    proof {
                        assert(seq![ev].drop_first() =~= Seq::<DeviceEntryView>::empty());
                        assert(Seq::<DeviceRecordView>::empty() + spec_discover(entry_views(rest@))
                            =~= spec_discover(entry_views(rest@)));
                    }
                },
            }
        }
        proof {
            assert(entry_views(rest@) =~= Seq::<DeviceEntryView>::empty());
            assert(device_views(devices@) + spec_discover(Seq::<DeviceEntryView>::empty())
                =~= device_views(devices@));
        }
        CorsairVoidInfo { devices }
    }
}

} // verus!
