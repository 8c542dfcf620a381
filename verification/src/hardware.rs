//! Hardware telemetry: turning the answers of management queries and of the
//! graphics driver into the records that are cached.

use vstd::prelude::*;
use vstd::string::*;
use crate::text::{
    contains_text, lowercase, parse_u64, parse_u64_spec, str_contains, to_chars, to_lowercase,
};

verus! {

/// A value of a management query, as far as sizes are read from it.
#[derive(Clone, Debug, PartialEq, Eq)]
pub enum QueryValue {
    Text(String),
    UI8(u64),
    I8(i64),
    UI4(u32),
    I4(i32),
    UI2(u16),
    I2(i16),
    /// Null, a missing value, or a value of another type.
    Other,
}

/// NVIDIA GPU data from the driver
#[derive(Clone, Debug, PartialEq, Eq)]
pub struct NvidiaGpuData {
    pub name: String,
    pub temperature_c: u32,
    pub usage_percent: u32,
    pub memory_used_mb: u64,
    pub memory_total_mb: u64,
    pub power_draw_w: u32,
    pub fan_speed_percent: u32,
    pub available: bool,
}

/// One fixed drive, as cached from the management query.
#[derive(Clone, Debug, PartialEq, Eq)]
pub struct CachedDriveInfo {
    pub letter: String,
    pub label: String,
    pub file_system: String,
    pub total_bytes: u64,
    pub free_bytes: u64,
}

/// What the driver said, reading by reading; `None` where a reading failed.
#[derive(Clone, Debug, PartialEq, Eq)]
pub struct NvidiaReadings {
    pub name: Option<String>,
    pub temperature_c: Option<u32>,
    pub gpu_utilization: Option<u32>,
    /// Used and total memory in bytes.
    pub memory: Option<(u64, u64)>,
    pub power_milliwatts: Option<u32>,
    pub fan_speed_percent: Option<u32>,
}

/// One row of the query for logical disks.
#[derive(Clone, Debug, PartialEq, Eq)]
pub struct DiskRow {
    pub device_id: QueryValue,
    pub volume_name: QueryValue,
    pub file_system: QueryValue,
    pub size: QueryValue,
    pub free_space: QueryValue,
}

/// Bytes per mebibyte.
pub const MIB: u64 = 1024 * 1024;

impl Default for NvidiaGpuData {
    fn default() -> (d: NvidiaGpuData)
        ensures
            d.name@.len() == 0,
            d.temperature_c == 0,
            d.usage_percent == 0,
            d.memory_used_mb == 0,
            d.memory_total_mb == 0,
            d.power_draw_w == 0,
            d.fan_speed_percent == 0,
            !d.available,
    {
        NvidiaGpuData {
            name: String::new(),
            temperature_c: 0,
            usage_percent: 0,
            memory_used_mb: 0,
            memory_total_mb: 0,
            power_draw_w: 0,
            fan_speed_percent: 0,
            available: false,
        }
    }
}

/// The reading, or 0 where it failed.
pub open spec fn or_zero(v: Option<u32>) -> u32 {
    match v {
        Some(x) => x,
        None => 0,
    }
}

/// The record for a graphics card from the readings of its driver: memory in
/// mebibytes, power in watts, both rounded down; 0 and an empty name where a
/// reading failed. The record is always marked available.
pub fn query_nvidia_gpu(readings: &NvidiaReadings) -> (data: NvidiaGpuData)
    ensures
        data.available,
        data.name@ == (match readings.name {
            Some(n) => n@,
            None => Seq::empty(),
        }),
        data.temperature_c == or_zero(readings.temperature_c),
        data.usage_percent == or_zero(readings.gpu_utilization),
        data.fan_speed_percent == or_zero(readings.fan_speed_percent),
        data.power_draw_w == or_zero(readings.power_milliwatts) / 1000,
        data.memory_used_mb == (match readings.memory {
            Some(m) => m.0 / MIB,
            None => 0,
        }),
        data.memory_total_mb == (match readings.memory {
            Some(m) => m.1 / MIB,
            None => 0,
        }),
{
    let name = match &readings.name {
        Some(n) => n.clone(),
        None => String::new(),
    };
    let (used, total) = match readings.memory {
        Some(m) => (m.0 / 1024 / 1024, m.1 / 1024 / 1024),
        None => (0, 0),
    };
    let zero: u32 = 0;
    NvidiaGpuData {
        name,
        temperature_c: match readings.temperature_c {
            Some(t) => t,
            None => zero,
        },
        usage_percent: match readings.gpu_utilization {
            Some(u) => u,
            None => zero,
        },
        memory_used_mb: used,
        memory_total_mb: total,
        power_draw_w: match readings.power_milliwatts {
            Some(p) => p / 1000,
            None => zero,
        },
        fan_speed_percent: match readings.fan_speed_percent {
            Some(f) => f,
            None => zero,
        },
        available: true,
    }
}

/// The maker of a graphics card, told from its name in lowercase.
pub open spec fn vendor_named(lower: Seq<char>) -> Seq<char> {
    if contains_text(lower, "nvidia"@) {
        "NVIDIA"@
    } else if contains_text(lower, "amd"@) || contains_text(lower, "radeon"@) {
        "AMD"@
    } else if contains_text(lower, "intel"@) {
        "Intel"@
    } else {
        "Unknown"@
    }
}

/// The maker of a graphics card, told from its name in whatever case it is written.
pub open spec fn vendor_of(name: Seq<char>) -> Seq<char> {
    vendor_named(lowercase(name))
}

/// The maker of a graphics card, told from its name in lowercase.
pub fn vendor_from_lowercase(lower: &str) -> (vendor: String)
    ensures
        vendor@ == vendor_named(lower@),
{
    if str_contains(lower, "nvidia") {
        String::from_str("NVIDIA")
    } else if str_contains(lower, "amd") || str_contains(lower, "radeon") {
        String::from_str("AMD")
    } else if str_contains(lower, "intel") {
        String::from_str("Intel")
    } else {
        String::from_str("Unknown")
    }
}

/// The maker of a graphics card, told from its name in whatever case it is written.
pub fn gpu_vendor(name: &str) -> (vendor: String)
    ensures
        vendor@ == vendor_of(name@),
{
    let lower = to_lowercase(name);
    vendor_from_lowercase(lower.as_str())
}

/// The number of bytes that a value of the disk query stands for. Text is
/// read as decimal; a signed value is taken as the unsigned value with the
/// same 64 bits; anything that is no number counts as 0.
pub open spec fn bytes_of(v: QueryValue) -> u64 {
    match v {
        QueryValue::Text(s) => match parse_u64_spec(s@) {
            Some(n) => n,
            None => 0,
        },
        QueryValue::UI8(n) => n,
        QueryValue::I8(n) => n as u64,
        QueryValue::UI4(n) => n as u64,
        QueryValue::I4(n) => n as u64,
        QueryValue::UI2(n) => n as u64,
        QueryValue::I2(n) => n as u64,
        QueryValue::Other => 0,
    }
}

fn bytes_in(v: &QueryValue) -> (n: u64)
    ensures
        n == bytes_of(*v),
{
    match v {
        QueryValue::Text(s) => {
            let chars = to_chars(s.as_str());
            match parse_u64(&chars) {
                Some(n) => n,
                None => 0,
            }
        },
        QueryValue::UI8(n) => *n,
        QueryValue::I8(n) => #[verifier::truncate]
        (*n as u64),
        QueryValue::UI4(n) => *n as u64,
        QueryValue::I4(n) => #[verifier::truncate]
        (*n as u64),
        QueryValue::UI2(n) => *n as u64,
        QueryValue::I2(n) => #[verifier::truncate]
        (*n as u64),
        QueryValue::Other => 0,
    }
}

/// Whether a row of the disk query describes a drive: its identifier is text.
pub open spec fn is_drive(row: DiskRow) -> bool {
    row.device_id is Text
}

/// The record for a row that describes a drive.
pub open spec fn drive_of(row: DiskRow) -> CachedDriveView {
    CachedDriveView {
        letter: row.device_id->Text_0@,
        label: match row.volume_name {
            QueryValue::Text(s) => s@,
            _ => Seq::empty(),
        },
        file_system: match row.file_system {
            QueryValue::Text(s) => s@,
            _ => "Unknown"@,
        },
        total_bytes: bytes_of(row.size),
        free_bytes: bytes_of(row.free_space),
    }
}

/// What a drive record holds, with its texts as plain text.
pub struct CachedDriveView {
    pub letter: Seq<char>,
    pub label: Seq<char>,
    pub file_system: Seq<char>,
    pub total_bytes: u64,
    pub free_bytes: u64,
}

impl View for CachedDriveInfo {
    type V = CachedDriveView;

    open spec fn view(&self) -> CachedDriveView {
        CachedDriveView {
            letter: self.letter@,
            label: self.label@,
            file_system: self.file_system@,
            total_bytes: self.total_bytes,
            free_bytes: self.free_bytes,
        }
    }
}

/// The records for those of `rows` that describe a drive, in their order.
pub open spec fn drives_of(rows: Seq<DiskRow>) -> Seq<CachedDriveView>
    decreases rows.len(),
{
    if rows.len() == 0 {
        Seq::empty()
    } else if is_drive(rows.last()) {
        drives_of(rows.drop_last()).push(drive_of(rows.last()))
    } else {
        drives_of(rows.drop_last())
    }
}

/// The views of drive records.
pub open spec fn drive_views(drives: Seq<CachedDriveInfo>) -> Seq<CachedDriveView> {
    drives.map_values(|d: CachedDriveInfo| d@)
}

/// The drives that the rows of the disk query describe, in their order.
///
/// A row without an identifier is passed over. A drive without a label has
/// an empty one; one without a file system has "Unknown".
pub fn query_storage(rows: &Vec<DiskRow>) -> (drives: Vec<CachedDriveInfo>)
    ensures
        drive_views(drives@) == drives_of(rows@),
{
    let mut drives: Vec<CachedDriveInfo> = Vec::new();
    let mut i: usize = 0;
    proof {
        assert(drive_views(drives@) =~= drives_of(rows@.take(0)));
    }
    while i < rows.len()
        invariant
            i <= rows@.len(),
            drive_views(drives@) == drives_of(rows@.take(i as int)),
        decreases rows@.len() - i,
    {
        let row = &rows[i];
        proof {
            assert(rows@.take(i + 1).drop_last() =~= rows@.take(i as int));
            assert(rows@.take(i + 1).last() == rows@[i as int]);
        }
        match &row.device_id {
            QueryValue::Text(letter) => {
                let label = match &row.volume_name {
                    QueryValue::Text(s) => s.clone(),
                    _ => String::new(),
                };
                let file_system = match &row.file_system {
                    QueryValue::Text(s) => s.clone(),
                    _ => String::from_str("Unknown"),
                };
                let ghost before = drives@;
                let drive = CachedDriveInfo {
                    letter: letter.clone(),
                    label,
                    file_system,
                    total_bytes: bytes_in(&row.size),
                    free_bytes: bytes_in(&row.free_space),
                };
                drives.push(drive);
                proof {
                    assert(drive_views(drives@) =~= drive_views(before).push(
                        drive_of(rows@[i as int]),
                    ));
                }
            },
            _ => {},
        }
        i = i + 1;
    }
    proof {
        assert(rows@.take(rows@.len() as int) =~= rows@);
    }
    drives
}

/// The sum of `f` over the first `n` drives, held to 64 bits.
pub open spec fn capped_sum(drives: Seq<CachedDriveInfo>, free: bool, n: nat) -> u64
    decreases n,
{
    if n == 0 {
        0
    } else {
        let before = capped_sum(drives, free, (n - 1) as nat);
        let d = drives[n - 1];
        let add = if free {
            d.free_bytes
        } else {
            d.total_bytes
        };
        if before + add > u64::MAX {
            u64::MAX
        } else {
            (before + add) as u64
        }
    }
}

/// The bytes in use on a drive: its size less what is free, and 0 where
/// more is reported free than the drive holds.
pub fn used_bytes(drive: &CachedDriveInfo) -> (used: u64)
    ensures
        used == (if drive.free_bytes > drive.total_bytes {
            0
        } else {
            drive.total_bytes - drive.free_bytes
        }),
{
    if drive.free_bytes > drive.total_bytes {
        0
    } else {
        drive.total_bytes - drive.free_bytes
    }
}

/// Total and free bytes over all drives, each sum held to 64 bits.
pub fn storage_totals(drives: &Vec<CachedDriveInfo>) -> (totals: (u64, u64))
    ensures
        totals.0 == capped_sum(drives@, false, drives@.len()),
        totals.1 == capped_sum(drives@, true, drives@.len()),
{
    let mut total: u64 = 0;
    let mut free: u64 = 0;
    let mut i: usize = 0;
    while i < drives.len()
        invariant
            i <= drives@.len(),
            total == capped_sum(drives@, false, i as nat),
            free == capped_sum(drives@, true, i as nat),
        decreases drives@.len() - i,
    {
        let d = &drives[i];
        total = if total > u64::MAX - d.total_bytes {
            u64::MAX
        } else {
            total + d.total_bytes
        };
        free = if free > u64::MAX - d.free_bytes {
            u64::MAX
        } else {
            free + d.free_bytes
        };
        i = i + 1;
    }
    (total, free)
}

} // verus!
