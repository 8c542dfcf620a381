//! Headset: what to show from the readings of the vendor's library, and
//! telling from the battery level whether the headset is charging.

use vstd::prelude::*;
use vstd::string::*;
use crate::text::{contains_text, str_contains};

verus! {

/// Milliseconds for which a headset counts as charging after its battery level rose.
pub const CHARGING_GRACE_MS: u64 = 90_000;

/// Status of the headset connection
#[derive(Clone, Copy, Debug, PartialEq, Eq)]
pub enum HeadsetStatus {
    /// Headset is connected and active
    Connected,
    /// Headset is off/disconnected
    Disconnected,
    /// Headset is charging
    Charging,
    /// Unable to determine status
    Unknown,
}

/// Equalizer preset options, numbered 1 to 5 by the vendor's library.
#[derive(Clone, Copy, Debug, PartialEq, Eq)]
pub enum EqualizerPreset {
    Pure,
    Bass,
    Movie,
    FPS,
    Custom,
}

/// The preset with the given number; `Pure` for any number that names none.
pub open spec fn preset_of(value: i32) -> EqualizerPreset {
    if value == 2 {
        EqualizerPreset::Bass
    } else if value == 3 {
        EqualizerPreset::Movie
    } else if value == 4 {
        EqualizerPreset::FPS
    } else if value == 5 {
        EqualizerPreset::Custom
    } else {
        EqualizerPreset::Pure
    }
}

impl From<i32> for EqualizerPreset {
    fn from(value: i32) -> (p: EqualizerPreset) {
        if value == 2 {
            EqualizerPreset::Bass
        } else if value == 3 {
            EqualizerPreset::Movie
        } else if value == 4 {
            EqualizerPreset::FPS
        } else if value == 5 {
            EqualizerPreset::Custom
        } else {
            EqualizerPreset::Pure
        }
    }
}

impl vstd::std_specs::convert::FromSpecImpl<i32> for EqualizerPreset {
    open spec fn obeys_from_spec() -> bool {
        true
    }

    open spec fn from_spec(value: i32) -> EqualizerPreset {
        preset_of(value)
    }
}

impl EqualizerPreset {
    /// The number of this preset.
    pub fn number(&self) -> (n: i32)
        ensures
            1 <= n <= 5,
            preset_of(n) == *self,
    {
        match self {
            EqualizerPreset::Pure => 1,
            EqualizerPreset::Bass => 2,
            EqualizerPreset::Movie => 3,
            EqualizerPreset::FPS => 4,
            EqualizerPreset::Custom => 5,
        }
    }
}

/// Features supported by this headset
#[derive(Clone, Copy, Debug, PartialEq, Eq)]
pub struct HeadsetFeatures {
    pub has_battery: bool,
    pub has_mic_toggle: bool,
    pub has_surround_sound: bool,
    pub has_sidetone: bool,
    pub has_equalizer: bool,
    pub has_lighting: bool,
}

impl HeadsetFeatures {
    /// No feature at all.
    pub open spec fn none() -> HeadsetFeatures {
        HeadsetFeatures {
            has_battery: false,
            has_mic_toggle: false,
            has_surround_sound: false,
            has_sidetone: false,
            has_equalizer: false,
            has_lighting: false,
        }
    }
}

impl Default for HeadsetFeatures {
    fn default() -> (f: HeadsetFeatures)
        ensures
            f == HeadsetFeatures::none(),
    {
        HeadsetFeatures {
            has_battery: false,
            has_mic_toggle: false,
            has_surround_sound: false,
            has_sidetone: false,
            has_equalizer: false,
            has_lighting: false,
        }
    }
}

/// Headset data structure
#[derive(Clone, Debug, PartialEq, Eq)]
pub struct HeadsetData {
    /// Device name (e.g., "CORSAIR VOID RGB ELITE")
    pub name: String,
    /// Device ID for SDK operations
    pub device_id: String,
    /// Battery percentage (0-100)
    pub battery_percent: u8,
    /// Current status
    pub status: HeadsetStatus,
    /// Is the headset currently charging
    pub is_charging: bool,
    /// Is iCUE SDK available
    pub sdk_available: bool,
    /// Microphone enabled
    pub mic_enabled: bool,
    /// Surround sound enabled (7.1)
    pub surround_sound_enabled: bool,
    /// Sidetone enabled (hear your own voice)
    pub sidetone_enabled: bool,
    /// Current equalizer preset (1-5)
    pub equalizer_preset: i32,
    /// Number of controllable LEDs on the device (0 if none / unknown)
    pub led_count: i32,
    /// Available properties (what this device supports)
    pub supported_features: HeadsetFeatures,
}

/// What a headset record holds, with its texts as plain text.
pub struct HeadsetView {
    pub name: Seq<char>,
    pub device_id: Seq<char>,
    pub battery_percent: u8,
    pub status: HeadsetStatus,
    pub is_charging: bool,
    pub sdk_available: bool,
    pub mic_enabled: bool,
    pub surround_sound_enabled: bool,
    pub sidetone_enabled: bool,
    pub equalizer_preset: i32,
    pub led_count: i32,
    pub supported_features: HeadsetFeatures,
}

impl View for HeadsetData {
    type V = HeadsetView;

    open spec fn view(&self) -> HeadsetView {
        HeadsetView {
            name: self.name@,
            device_id: self.device_id@,
            battery_percent: self.battery_percent,
            status: self.status,
            is_charging: self.is_charging,
            sdk_available: self.sdk_available,
            mic_enabled: self.mic_enabled,
            surround_sound_enabled: self.surround_sound_enabled,
            sidetone_enabled: self.sidetone_enabled,
            equalizer_preset: self.equalizer_preset,
            led_count: self.led_count,
            supported_features: self.supported_features,
        }
    }
}

/// The record for "no headset": nothing known, disconnected.
pub open spec fn no_headset(sdk_available: bool) -> HeadsetView {
    HeadsetView {
        name: Seq::empty(),
        device_id: Seq::empty(),
        battery_percent: 0,
        status: HeadsetStatus::Disconnected,
        is_charging: false,
        sdk_available,
        mic_enabled: false,
        surround_sound_enabled: false,
        sidetone_enabled: false,
        equalizer_preset: 1,
        led_count: 0,
        supported_features: HeadsetFeatures::none(),
    }
}

fn absent(sdk_available: bool) -> (d: HeadsetData)
    ensures
        d@ == no_headset(sdk_available),
{
    HeadsetData {
        name: String::new(),
        device_id: String::new(),
        battery_percent: 0,
        status: HeadsetStatus::Disconnected,
        is_charging: false,
        sdk_available,
        mic_enabled: false,
        surround_sound_enabled: false,
        sidetone_enabled: false,
        equalizer_preset: 1,
        led_count: 0,
        supported_features: HeadsetFeatures::default(),
    }
}

impl Default for HeadsetData {
    fn default() -> (d: HeadsetData)
        ensures
            d@ == no_headset(false),
    {
        absent(false)
    }
}

/// What the vendor's library said about the first headset.
#[derive(Clone, Debug, PartialEq, Eq)]
pub struct HeadsetReadings {
    pub model: String,
    pub device_id: String,
    pub led_count: i32,
    /// Whether the battery level can be read.
    pub has_battery: bool,
    /// Whether the state of the microphone can be read.
    pub has_mic: bool,
    /// The battery level, if reading it succeeded.
    pub battery_level: Option<i32>,
    /// Whether the microphone is on, if reading it succeeded.
    pub mic_enabled: Option<bool>,
}

/// How far the conversation with the vendor's library got.
#[derive(Clone, Debug, PartialEq, Eq)]
pub enum SdkProbe {
    /// The library could not be loaded or connected.
    Unavailable,
    /// The library lacks one of the functions that are needed.
    FunctionsMissing,
    /// The list of devices could not be read.
    DevicesFailed,
    /// No headset is connected.
    NoDevice,
    /// The readings of the first headset.
    Device(HeadsetReadings),
}

/// What is remembered of one headset between two polls.
#[derive(Clone, Debug, PartialEq, Eq)]
pub struct BatteryRecord {
    pub device_id: String,
    pub last_level: u8,
    /// Until when the headset counts as charging, in milliseconds of the caller's clock.
    pub charging_until: Option<u64>,
}

/// The battery levels seen at the last poll, by device.
#[derive(Debug, PartialEq, Eq)]
pub struct BatteryTracker {
    records: Vec<BatteryRecord>,
}

/// A battery level held to 0..=100.
pub open spec fn percent_of(level: int) -> u8 {
    if level < 0 {
        0
    } else if level > 100 {
        100
    } else {
        level as u8
    }
}

/// Whether a headset counts as charging: its level is above 0 and below 100
/// and has risen since the last poll, or rose less than the grace period ago.
pub open spec fn charging(previous: Option<(u8, Option<u64>)>, level: u8, now: u64) -> bool {
    match previous {
        None => false,
        Some(p) => level != 0 && level < 100 && (level > p.0 || (p.1 matches Some(until) && until
            > now)),
    }
}

/// Until when a headset that is charging at `now` counts as charging.
pub open spec fn grace_end(now: u64) -> u64 {
    if now + CHARGING_GRACE_MS > u64::MAX {
        u64::MAX
    } else {
        (now + CHARGING_GRACE_MS) as u64
    }
}

/// What is remembered after a poll.
pub open spec fn remembered(previous: Option<(u8, Option<u64>)>, level: u8, now: u64) -> (
    u8,
    Option<u64>,
) {
    (
        level,
        if charging(previous, level, now) {
            Some(grace_end(now))
        } else {
            None
        },
    )
}

impl BatteryTracker {
    #[verifier::type_invariant]
    spec fn distinct(self) -> bool {
        forall|i: int, j: int|
            0 <= i < j < self.records@.len() ==> (#[trigger] self.records@[i]).device_id@ != (
            #[trigger] self.records@[j]).device_id@
    }

    /// What is remembered of the device `id`: its last level, and until when
    /// it counts as charging.
    pub closed spec fn last(self, id: Seq<char>) -> Option<(u8, Option<u64>)> {
        if exists|i: int|
            0 <= i < self.records@.len() && (#[trigger] self.records@[i]).device_id@ == id {
            let i = choose|i: int|
                0 <= i < self.records@.len() && (#[trigger] self.records@[i]).device_id@ == id;
            Some((self.records@[i].last_level, self.records@[i].charging_until))
        } else {
            None
        }
    }

    /// A tracker that remembers nothing.
    pub fn new() -> (t: BatteryTracker)
        ensures
            forall|id: Seq<char>| t.last(id) is None,
    {
        BatteryTracker { records: Vec::new() }
    }

    fn position(&self, id: &String) -> (at: Option<usize>)
        ensures
            at matches Some(i) ==> i < self.records@.len() && self.records@[i as int].device_id@
                == id@ && self.last(id@) == Some(
                (self.records@[i as int].last_level, self.records@[i as int].charging_until),
            ),
            at is None ==> self.last(id@) is None,
    {
        proof {
            use_type_invariant(self);
        }
        let mut i: usize = 0;
        while i < self.records.len()
            invariant
                i <= self.records@.len(),
                self.distinct(),
                forall|j: int| 0 <= j < i ==> (#[trigger] self.records@[j]).device_id@ != id@,
            decreases self.records@.len() - i,
        {
            if self.records[i].device_id == *id {
                proof {
                    let k = choose|k: int|
                        0 <= k < self.records@.len() && (#[trigger] self.records@[k]).device_id@
                            == id@;
                    if k < i {
                        assert(self.records@[k].device_id@ != self.records@[i as int].device_id@);
                    } else if k > i {
                        assert(self.records@[i as int].device_id@ != self.records@[k].device_id@);
                    }
                }
                return Some(i);
            }
            i = i + 1;
        }
        None
    }

    /// Takes the battery level of a poll and says whether the headset
    /// counts as charging.
    ///
    /// The library of the vendor has no flag for charging. A level that has
    /// risen since the last poll is taken as a sign of it, for a grace
    /// period. What is remembered of other devices stays as it is.
    pub fn infer_is_charging(&mut self, device_id: &String, battery_level: u8, now_ms: u64) -> (r:
        bool)
        ensures
            r == charging(old(self).last(device_id@), battery_level, now_ms),
            final(self).last(device_id@) == Some(
                remembered(old(self).last(device_id@), battery_level, now_ms),
            ),
            forall|other: Seq<char>|
                other != device_id@ ==> final(self).last(other) == old(self).last(other),
    {
        proof {
            use_type_invariant(&*self);
        }
        let ghost before = self.records@;
        let at = self.position(device_id);
        let is_charging = match at {
            Some(i) => {
                let previous = &self.records[i];
                battery_level != 0 && battery_level < 100 && (battery_level > previous.last_level
                    || match previous.charging_until {
                    Some(until) => until > now_ms,
                    None => false,
                })
            },
            None => false,
        };
        let charging_until: Option<u64> = if is_charging {
            Some(
                if now_ms > u64::MAX - CHARGING_GRACE_MS {
                    u64::MAX
                } else {
                    now_ms + CHARGING_GRACE_MS
                },
            )
        } else {
            None
        };
        let record = BatteryRecord {
            device_id: device_id.clone(),
            last_level: battery_level,
            charging_until,
        };
        let slot: usize = match at {
            Some(i) => i,
            None => self.records.len(),
        };
        let updated = copy_with_record(&self.records, slot, record);
        proof {
            assert forall|i: int, j: int| 0 <= i < j < updated@.len() implies (
            #[trigger] updated@[i]).device_id@ != (#[trigger] updated@[j]).device_id@ by {
                if i != slot && j != slot {
                    assert(updated@[i] == before[i]);
                    assert(updated@[j] == before[j]);
                } else if i == slot {
                    assert(updated@[j] == before[j]);
                    assert(before[i].device_id@ == device_id@);
                } else {
                    assert(updated@[i] == before[i]);
                    if at is Some {
                        assert(before[j].device_id@ == device_id@);
                    }
                }
            }
        }
        self.records = updated;
        proof {
            let after = self.records@;
            assert(after[slot as int].device_id@ == device_id@);
            let k = choose|k: int|
                0 <= k < after.len() && (#[trigger] after[k]).device_id@ == device_id@;
            if k < slot {
                assert(after[k].device_id@ != after[slot as int].device_id@);
            } else if k > slot {
                assert(after[slot as int].device_id@ != after[k].device_id@);
            }
            assert forall|other: Seq<char>| other != device_id@ implies self.last(other) == old(
                self,
            ).last(other) by {
                if exists|i: int|
                    0 <= i < before.len() && (#[trigger] before[i]).device_id@ == other {
                    let b = choose|i: int|
                        0 <= i < before.len() && (#[trigger] before[i]).device_id@ == other;
                    assert(b != slot);
                    assert(after[b] == before[b]);
                    let a = choose|i: int|
                        0 <= i < after.len() && (#[trigger] after[i]).device_id@ == other;
                    if a < b {
                        assert(after[a].device_id@ != after[b].device_id@);
                    } else if a > b {
                        assert(after[b].device_id@ != after[a].device_id@);
                    }
                } else {
                    if exists|i: int|
                        0 <= i < after.len() && (#[trigger] after[i]).device_id@ == other {
                        let a = choose|i: int|
                            0 <= i < after.len() && (#[trigger] after[i]).device_id@ == other;
                        assert(a != slot);
                        assert(after[a] == before[a]);
                    }
                }
            }
        }
        is_charging
    }
}

/// A copy of `records` with `record` in position `slot`: in place of the
/// record there, or at the end.
fn copy_with_record(records: &Vec<BatteryRecord>, slot: usize, record: BatteryRecord) -> (updated:
    Vec<BatteryRecord>)
    requires
        slot <= records@.len(),
    ensures
        updated@.len() == (if slot < records@.len() {
            records@.len()
        } else {
            records@.len() + 1
        }),
        updated@[slot as int] == record,
        forall|i: int| 0 <= i < records@.len() && i != slot ==> updated@[i] == records@[i],
{
    let mut updated: Vec<BatteryRecord> = Vec::new();
    let mut held: Option<BatteryRecord> = Some(record);
    let mut i: usize = 0;
    while i < records.len()
        invariant
            i <= records@.len(),
            slot <= records@.len(),
            updated@.len() == i,
            held == (if i <= slot {
                Some(record)
            } else {
                None::<BatteryRecord>
            }),
            forall|j: int| 0 <= j < i && j != slot ==> updated@[j] == records@[j],
            slot < i ==> updated@[slot as int] == record,
        decreases records@.len() - i,
    {
        if i == slot {
            match held {
                Some(r) => {
                    updated.push(r);
                    held = None;
                },
                None => {},
            }
        } else {
            let source = &records[i];
            updated.push(
                BatteryRecord {
                    device_id: source.device_id.clone(),
                    last_level: source.last_level,
                    charging_until: source.charging_until,
                },
            );
        }
        i = i + 1;
    }
    match held {
        Some(r) => {
            updated.push(r);
        },
        None => {},
    }
    updated
}

/// The record to show for the readings of a headset, given whether it counts as charging.
pub open spec fn shown(readings: HeadsetReadings, is_charging: bool) -> HeadsetView {
    let battery = match readings.battery_level {
        Some(v) => percent_of(v as int),
        None => 0,
    };
    HeadsetView {
        name: if readings.model@.len() == 0 {
            "Corsair Headset"@
        } else {
            readings.model@
        },
        device_id: readings.device_id@,
        battery_percent: battery,
        status: if battery == 0 {
            HeadsetStatus::Disconnected
        } else if is_charging {
            HeadsetStatus::Charging
        } else {
            HeadsetStatus::Connected
        },
        is_charging,
        sdk_available: true,
        mic_enabled: readings.mic_enabled == Some(true),
        surround_sound_enabled: false,
        sidetone_enabled: false,
        equalizer_preset: 1,
        led_count: readings.led_count,
        supported_features: HeadsetFeatures {
            has_battery: readings.has_battery,
            has_mic_toggle: readings.has_mic,
            has_lighting: readings.led_count > 0,
            ..HeadsetFeatures::none()
        },
    }
}

/// Whether the battery of a headset is followed: it can be read, and the
/// device has an identifier.
pub open spec fn follows_battery(readings: HeadsetReadings) -> bool {
    readings.has_battery && readings.device_id@.len() > 0
}

/// Get headset data from what the vendor's library said.
///
/// Without a device the record is the empty one, with `sdk_available` set
/// unless the library itself is missing. With a device, its battery level
/// is taken into the tracker if its battery is followed, and only then.
pub fn get_headset_data(probe: &SdkProbe, tracker: &mut BatteryTracker, now_ms: u64) -> (data:
    HeadsetData)
    ensures
        match *probe {
            SdkProbe::Unavailable => data@ == no_headset(false),
            SdkProbe::FunctionsMissing | SdkProbe::DevicesFailed | SdkProbe::NoDevice => data@
                == no_headset(true),
            SdkProbe::Device(readings) => {
                let level = percent_of(
                    match readings.battery_level {
                        Some(v) => v as int,
                        None => 0,
                    },
                );
                let before = old(tracker).last(readings.device_id@);
                &&& data@ == shown(
                    readings,
                    follows_battery(readings) && charging(before, level, now_ms),
                )
                &&& follows_battery(readings) ==> final(tracker).last(readings.device_id@) == Some(
                    remembered(before, level, now_ms),
                )
                &&& !follows_battery(readings) ==> final(tracker).last(readings.device_id@)
                    == before
            },
        },
        forall|other: Seq<char>|
            !(*probe matches SdkProbe::Device(r) && r.device_id@ == other) ==> final(tracker).last(
                other,
            ) == old(tracker).last(other),
{
    match probe {
        SdkProbe::Unavailable => absent(false),
        SdkProbe::FunctionsMissing => absent(true),
        SdkProbe::DevicesFailed => absent(true),
        SdkProbe::NoDevice => absent(true),
        SdkProbe::Device(readings) => {
            let battery: u8 = match readings.battery_level {
                Some(v) => if v < 0 {
                    0
                } else if v > 100 {
                    100
                } else {
                    v as u8
                },
                None => 0,
            };
            let mic_enabled = match readings.mic_enabled {
                Some(on) => on,
                None => false,
            };
            let is_charging = if readings.has_battery && !readings.device_id.as_str().is_empty() {
                tracker.infer_is_charging(&readings.device_id, battery, now_ms)
            } else {
                false
            };
            let status = if battery == 0 {
                HeadsetStatus::Disconnected
            } else if is_charging {
                HeadsetStatus::Charging
            } else {
                HeadsetStatus::Connected
            };
            let name = if readings.model.as_str().is_empty() {
                String::from_str("Corsair Headset")
            } else {
                readings.model.clone()
            };
            HeadsetData {
                name,
                device_id: readings.device_id.clone(),
                battery_percent: battery,
                status,
                is_charging,
                sdk_available: true,
                mic_enabled,
                surround_sound_enabled: false,
                sidetone_enabled: false,
                equalizer_preset: 1,
                led_count: readings.led_count,
                supported_features: HeadsetFeatures {
                    has_battery: readings.has_battery,
                    has_mic_toggle: readings.has_mic,
                    has_surround_sound: false,
                    has_sidetone: false,
                    has_equalizer: false,
                    has_lighting: readings.led_count > 0,
                },
            }
        },
    }
}

/// One place where the vendor's library is looked for.
#[derive(Clone, Debug, PartialEq, Eq)]
pub struct SdkCandidate {
    pub path: String,
    /// The path in canonical form, where it could be made.
    pub canonical: Option<String>,
    /// Whether something exists at `path`.
    pub exists: bool,
}

/// Whether the library was found at a candidate.
pub open spec fn found_at(c: SdkCandidate) -> bool {
    c.canonical is Some || c.exists
}

/// The path under which a candidate is reported: the canonical one where there is one.
pub open spec fn reported_path(c: SdkCandidate) -> Seq<char> {
    match c.canonical {
        Some(p) => p@,
        None => c.path@,
    }
}

/// Get SDK path if found: that of the first candidate at which the library is.
pub fn get_sdk_path(candidates: &Vec<SdkCandidate>) -> (path: Option<String>)
    ensures
        path is Some <==> exists|i: int|
            0 <= i < candidates@.len() && found_at(#[trigger] candidates@[i]),
        path matches Some(p) ==> exists|i: int|
            0 <= i < candidates@.len() && found_at(#[trigger] candidates@[i]) && p@
                == reported_path(candidates@[i]) && forall|j: int|
                0 <= j < i ==> !found_at(#[trigger] candidates@[j]),
{
    let mut i: usize = 0;
    while i < candidates.len()
        invariant
            i <= candidates@.len(),
            forall|j: int| 0 <= j < i ==> !found_at(#[trigger] candidates@[j]),
        decreases candidates@.len() - i,
    {
        let c = &candidates[i];
        match &c.canonical {
            Some(p) => {
                assert(found_at(candidates@[i as int]));
                return Some(p.clone());
            },
            None => {
                if c.exists {
                    assert(found_at(candidates@[i as int]));
                    return Some(c.path.clone());
                }
            },
        }
        i = i + 1;
    }
    None
}

/// Whether the vendor's software and its library are there.
#[derive(Clone, Debug, PartialEq, Eq)]
pub struct IcueSdkStatus {
    /// Whether the SDK DLL is installed and accessible
    pub installed: bool,
    /// Path where SDK was found (if installed)
    pub sdk_path: Option<String>,
    /// Whether iCUE application is running
    pub icue_running: bool,
    /// Error message if any
    pub error: Option<String>,
    /// SDK version if detected
    pub version: Option<String>,
}

/// Where the library was found.
#[derive(Clone, Debug, PartialEq, Eq)]
pub enum SdkLocation {
    /// Among the files that come with the application.
    Bundled(String),
    /// Where the headset service looks for it.
    Service(String),
    /// In a directory of the vendor's software: the directory and the file.
    Installed { directory: String, file: String },
    /// Nowhere.
    Missing,
}

/// The version that goes with a directory of the vendor's software.
pub open spec fn version_of_directory(directory: Seq<char>) -> Option<Seq<char>> {
    if contains_text(directory, "iCUE 5"@) {
        Some("5.x"@)
    } else if contains_text(directory, "iCUE 4"@) {
        Some("4.x"@)
    } else {
        None
    }
}

/// Whether the list of running programs names the vendor's software.
pub open spec fn names_icue(task_list: Seq<char>) -> bool {
    contains_text(task_list, "iCUE.exe"@)
}

/// The text of an optional string.
pub open spec fn option_text(s: Option<String>) -> Option<Seq<char>> {
    match s {
        Some(x) => Some(x@),
        None => None,
    }
}

/// Says whether the vendor's library is installed, where, and in which
/// version, and whether the vendor's software runs.
///
/// `task_list` is the list of running programs. A bundled library counts
/// as version "4.x (bundled)", one found by the service as "4.x", one in a
/// directory of the vendor's software as the version of that directory.
pub fn check_icue_sdk(task_list: &str, location: &SdkLocation) -> (status: IcueSdkStatus)
    ensures
        status.icue_running == names_icue(task_list@),
        status.installed == !(*location is Missing),
        match *location {
            SdkLocation::Bundled(path) => option_text(status.sdk_path) == Some(path@)
                && option_text(status.version) == Some("4.x (bundled)"@),
            SdkLocation::Service(path) => option_text(status.sdk_path) == Some(path@)
                && option_text(status.version) == Some("4.x"@),
            SdkLocation::Installed { directory, file } => option_text(status.sdk_path) == Some(
                file@,
            ) && option_text(status.version) == version_of_directory(directory@),
            SdkLocation::Missing => status.sdk_path is None && status.version is None,
        },
        option_text(status.error) == (if *location is Missing {
            Some("iCUE SDK not found. Please install iCUE from corsair.com"@)
        } else {
            None
        }),
{
    let icue_running = str_contains(task_list, "iCUE.exe");
    match location {
        SdkLocation::Bundled(path) => IcueSdkStatus {
            installed: true,
            sdk_path: Some(path.clone()),
            icue_running,
            error: None,
            version: Some(String::from_str("4.x (bundled)")),
        },
        SdkLocation::Service(path) => IcueSdkStatus {
            installed: true,
            sdk_path: Some(path.clone()),
            icue_running,
            error: None,
            version: Some(String::from_str("4.x")),
        },
        SdkLocation::Installed { directory, file } => {
            let version = if str_contains(directory.as_str(), "iCUE 5") {
                Some(String::from_str("5.x"))
            } else if str_contains(directory.as_str(), "iCUE 4") {
                Some(String::from_str("4.x"))
            } else {
                None
            };
            IcueSdkStatus {
                installed: true,
                sdk_path: Some(file.clone()),
                icue_running,
                error: None,
                version,
            }
        },
        SdkLocation::Missing => IcueSdkStatus {
            installed: false,
            sdk_path: None,
            icue_running,
            error: Some(
                String::from_str("iCUE SDK not found. Please install iCUE from corsair.com"),
            ),
            version: None,
        },
    }
}

} // verus!
