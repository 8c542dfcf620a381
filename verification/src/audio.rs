//! Audio: the devices to show and the volume to set.

use vstd::prelude::*;
use vstd::string::*;

verus! {

/// The highest volume, in percent.
pub const MAX_VOLUME: u32 = 100;

/// One audio endpoint as the widget shows it.
#[derive(Clone, Debug, PartialEq, Eq)]
pub struct AudioDevice {
    /// Device ID
    pub id: String,
    /// Friendly name
    pub name: String,
    /// Is this the default device
    pub is_default: bool,
    /// Current volume (0-100)
    pub volume: u32,
    /// Is muted
    pub is_muted: bool,
    /// Device type: "output" or "input"
    pub device_type: String,
}

/// All audio endpoints and the master volume.
#[derive(Clone, Debug, PartialEq, Eq)]
pub struct AudioData {
    /// List of output devices
    pub output_devices: Vec<AudioDevice>,
    /// List of input devices
    pub input_devices: Vec<AudioDevice>,
    /// Current default output device ID
    pub default_output_id: Option<String>,
    /// Current default input device ID
    pub default_input_id: Option<String>,
    /// Master volume (0-100)
    pub master_volume: u32,
    /// Is master muted
    pub is_muted: bool,
}

impl Default for AudioData {
    fn default() -> (d: AudioData)
        ensures
            d.output_devices@.len() == 0,
            d.input_devices@.len() == 0,
            d.default_output_id is None,
            d.default_input_id is None,
            d.master_volume == 100,
            !d.is_muted,
    {
        AudioData {
            output_devices: Vec::new(),
            input_devices: Vec::new(),
            default_output_id: None,
            default_input_id: None,
            master_volume: 100,
            is_muted: false,
        }
    }
}

/// What the audio system says about one endpoint.
#[derive(Clone, Debug, PartialEq, Eq)]
pub struct AudioEndpoint {
    pub id: String,
    /// The friendly name, empty where it could not be read.
    pub name: String,
    /// Volume in percent and whether the endpoint is muted, where its volume
    /// control could be opened.
    pub level: Option<(u32, bool)>,
}

/// Which way an endpoint carries sound.
#[derive(Clone, Copy, Debug, PartialEq, Eq)]
pub enum DeviceKind {
    Output,
    Input,
}

/// The word for a kind of device.
pub open spec fn kind_name(kind: DeviceKind) -> Seq<char> {
    match kind {
        DeviceKind::Output => "output"@,
        DeviceKind::Input => "input"@,
    }
}

/// Whether `entry` is what is shown for `endpoint`.
pub open spec fn shows(
    entry: AudioDevice,
    endpoint: AudioEndpoint,
    default_id: Option<String>,
    kind: DeviceKind,
) -> bool {
    &&& entry.id == endpoint.id
    &&& entry.name@ == (if endpoint.name@.len() == 0 {
        "Unknown Device"@
    } else {
        endpoint.name@
    })
    &&& entry.is_default == (default_id matches Some(d) && d@ == endpoint.id@)
    &&& entry.volume == (match endpoint.level {
        Some(l) => l.0,
        None => 100,
    })
    &&& entry.is_muted == (match endpoint.level {
        Some(l) => l.1,
        None => false,
    })
    &&& entry.device_type@ == kind_name(kind)
}

/// The volume that results from changing `current` by `delta`, held to 0..=100.
pub open spec fn adjusted(current: u32, delta: i32) -> u32 {
    let sum = current + delta;
    if sum < 0 {
        0
    } else if sum > MAX_VOLUME {
        MAX_VOLUME
    } else {
        sum as u32
    }
}

/// The master volume after a change by `delta`, held to 0..=100.
pub fn adjust_master_volume(current: u32, delta: i32) -> (volume: u32)
    ensures
        volume == adjusted(current, delta),
        volume <= MAX_VOLUME,
{
    let sum: i64 = current as i64 + delta as i64;
    if sum < 0 {
        0
    } else if sum > MAX_VOLUME as i64 {
        MAX_VOLUME
    } else {
        sum as u32
    }
}

/// A volume that is asked for, held to at most 100.
pub fn clamp_volume(volume: u32) -> (v: u32)
    ensures
        v == (if volume > MAX_VOLUME {
            MAX_VOLUME
        } else {
            volume
        }),
{
    if volume > MAX_VOLUME {
        MAX_VOLUME
    } else {
        volume
    }
}

/// What is shown for the endpoints of one kind, in their order.
///
/// An endpoint without a name is called "Unknown Device"; one whose volume
/// control could not be opened is shown at full volume, not muted. The
/// default device is the one whose identifier is `default_id`.
pub fn describe_devices(
    endpoints: &Vec<AudioEndpoint>,
    default_id: &Option<String>,
    kind: DeviceKind,
) -> (devices: Vec<AudioDevice>)
    ensures
        devices@.len() == endpoints@.len(),
        forall|i: int|
            0 <= i < endpoints@.len() ==> shows(
                #[trigger] devices@[i],
                endpoints@[i],
                *default_id,
                kind,
            ),
{
    let mut devices: Vec<AudioDevice> = Vec::new();
    let mut i: usize = 0;
    while i < endpoints.len()
        invariant
            i <= endpoints@.len(),
            devices@.len() == i,
            forall|j: int|
                0 <= j < i ==> shows(#[trigger] devices@[j], endpoints@[j], *default_id, kind),
        decreases endpoints@.len() - i,
    {
        let e = &endpoints[i];
        let name = if e.name.as_str().is_empty() {
            String::from_str("Unknown Device")
        } else {
            e.name.clone()
        };
        let is_default = match default_id {
            Some(d) => *d == e.id,
            None => false,
        };
        let (volume, is_muted) = match e.level {
            Some(l) => (l.0, l.1),
            None => (100, false),
        };
        let device_type = match kind {
            DeviceKind::Output => String::from_str("output"),
            DeviceKind::Input => String::from_str("input"),
        };
        devices.push(
            AudioDevice { id: e.id.clone(), name, is_default, volume, is_muted, device_type },
        );
        i = i + 1;
    }
    devices
}

} // verus!
