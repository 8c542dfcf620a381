//! Network throughput: choosing the interface to show from the performance
//! counters of all interfaces.

use vstd::prelude::*;
use crate::text::{
    contains_text, lowercase, parse_u64, parse_u64_spec, str_contains, to_chars, to_lowercase,
};

verus! {

/// A value of a management query, as far as the counters are read.
#[derive(Clone, Debug, PartialEq, Eq)]
pub enum CounterValue {
    Text(String),
    UI8(u64),
    UI4(u32),
    /// Anything else, a missing value included.
    Other,
}

/// The counters of one network interface.
#[derive(Clone, Debug, PartialEq, Eq)]
pub struct InterfaceCounters {
    /// The interface's name, if the query gave one as text.
    pub name: Option<String>,
    pub received_per_sec: CounterValue,
    pub sent_per_sec: CounterValue,
    pub total_per_sec: CounterValue,
}

/// Network data for speed monitoring, kept from one poll to the next.
#[derive(Clone, Debug, PartialEq, Eq)]
pub struct CachedNetworkData {
    pub interface_name: String,
    pub download_bytes_sec: u64,
    pub upload_bytes_sec: u64,
    pub total_received: u64,
    pub total_sent: u64,
    pub is_connected: bool,
}

/// Network data as the widget shows it.
#[derive(Clone, Debug, PartialEq, Eq)]
pub struct NetworkData {
    /// Network interface name
    pub interface_name: String,
    /// Download speed in bytes per second
    pub download_bytes_sec: u64,
    /// Upload speed in bytes per second
    pub upload_bytes_sec: u64,
    /// Total bytes received
    pub total_received: u64,
    /// Total bytes sent
    pub total_sent: u64,
    /// Is connected
    pub is_connected: bool,
}

/// What an interface record holds, with its name as plain text.
pub struct InterfaceView {
    pub name: Seq<char>,
    pub download: u64,
    pub upload: u64,
    pub total_received: u64,
    pub total_sent: u64,
    pub connected: bool,
}

impl View for CachedNetworkData {
    type V = InterfaceView;

    open spec fn view(&self) -> InterfaceView {
        InterfaceView {
            name: self.interface_name@,
            download: self.download_bytes_sec,
            upload: self.upload_bytes_sec,
            total_received: self.total_received,
            total_sent: self.total_sent,
            connected: self.is_connected,
        }
    }
}

impl View for NetworkData {
    type V = InterfaceView;

    open spec fn view(&self) -> InterfaceView {
        InterfaceView {
            name: self.interface_name@,
            download: self.download_bytes_sec,
            upload: self.upload_bytes_sec,
            total_received: self.total_received,
            total_sent: self.total_sent,
            connected: self.is_connected,
        }
    }
}

impl Default for CachedNetworkData {
    fn default() -> (d: CachedNetworkData)
        ensures
            d@ == (InterfaceView {
                name: Seq::empty(),
                download: 0,
                upload: 0,
                total_received: 0,
                total_sent: 0,
                connected: false,
            }),
    {
        CachedNetworkData {
            interface_name: String::new(),
            download_bytes_sec: 0,
            upload_bytes_sec: 0,
            total_received: 0,
            total_sent: 0,
            is_connected: false,
        }
    }
}

impl Default for NetworkData {
    fn default() -> (d: NetworkData)
        ensures
            d@ == (InterfaceView {
                name: "Unknown"@,
                download: 0,
                upload: 0,
                total_received: 0,
                total_sent: 0,
                connected: false,
            }),
    {
        NetworkData {
            interface_name: "Unknown".to_owned(),
            download_bytes_sec: 0,
            upload_bytes_sec: 0,
            total_received: 0,
            total_sent: 0,
            is_connected: false,
        }
    }
}

/// Get network information using cached data: the same record, for display.
pub fn get_network_info_cached(cached: &CachedNetworkData) -> (data: NetworkData)
    ensures
        data@ == cached@,
{
    NetworkData {
        interface_name: cached.interface_name.clone(),
        download_bytes_sec: cached.download_bytes_sec,
        upload_bytes_sec: cached.upload_bytes_sec,
        total_received: cached.total_received,
        total_sent: cached.total_sent,
        is_connected: cached.is_connected,
    }
}

/// The value closest to `v` that fits in 64 bits.
pub open spec fn cap_u64(v: int) -> u64 {
    if v > u64::MAX {
        u64::MAX
    } else if v < 0 {
        0
    } else {
        v as u64
    }
}

/// The number a counter stands for: text is read as decimal, anything that
/// is no number counts as 0.
pub open spec fn counter(v: CounterValue) -> u64 {
    match v {
        CounterValue::Text(s) => match parse_u64_spec(s@) {
            Some(n) => n,
            None => 0,
        },
        CounterValue::UI8(n) => n,
        CounterValue::UI4(n) => n as u64,
        CounterValue::Other => 0,
    }
}

/// The traffic of an interface: its total counter, or received plus sent
/// where the query gave no total.
pub open spec fn traffic(row: InterfaceCounters) -> u64 {
    match row.total_per_sec {
        CounterValue::Other => cap_u64(counter(row.received_per_sec) + counter(row.sent_per_sec)),
        _ => counter(row.total_per_sec),
    }
}

/// Whether a name in lowercase is that of a loopback or virtual adapter.
pub open spec fn names_virtual(lower: Seq<char>) -> bool {
    contains_text(lower, "loopback"@) || contains_text(lower, "virtual"@) || contains_text(
        lower,
        "vmware"@,
    ) || contains_text(lower, "vethernet"@)
}

/// Whether a name is that of a loopback or virtual adapter, in whatever case it is written.
pub open spec fn is_virtual_name(name: Seq<char>) -> bool {
    names_virtual(lowercase(name))
}

/// Whether the interface of `row` can be shown.
pub open spec fn eligible(row: InterfaceCounters) -> bool {
    row.name matches Some(n) && !is_virtual_name(n@)
}

/// The record for the interface of `row`, with running totals that go on from `prev`.
pub open spec fn record_of(row: InterfaceCounters, prev: InterfaceView) -> InterfaceView {
    let received = counter(row.received_per_sec);
    let sent = counter(row.sent_per_sec);
    InterfaceView {
        name: row.name->0@,
        download: received,
        upload: sent,
        total_received: cap_u64(prev.total_received + cap_u64(received * 2)),
        total_sent: cap_u64(prev.total_sent + cap_u64(sent * 2)),
        connected: received > 0 || sent > 0,
    }
}

/// The choice after the first `n` rows: the chosen record, if any, and the
/// highest traffic seen at a choice.
///
/// An eligible row is chosen if it is the interface shown before, if no row
/// was chosen yet, or if its traffic is higher than at the last choice.
pub open spec fn choice(rows: Seq<InterfaceCounters>, prev: InterfaceView, n: nat) -> (
    Option<InterfaceView>,
    u64,
)
    decreases n,
{
    if n == 0 {
        (None, 0)
    } else {
        let before = choice(rows, prev, (n - 1) as nat);
        let row = rows[n - 1];
        if !eligible(row) {
            before
        } else if (prev.name.len() > 0 && row.name->0@ == prev.name) || traffic(row) > before.1
            || before.0 is None {
            (Some(record_of(row, prev)), traffic(row))
        } else {
            before
        }
    }
}

fn counter_of(v: &CounterValue) -> (n: u64)
    ensures
        n == counter(*v),
{
    match v {
        CounterValue::Text(s) => {
            let chars = to_chars(s.as_str());
            match parse_u64(&chars) {
                Some(n) => n,
                None => 0,
            }
        },
        CounterValue::UI8(n) => *n,
        CounterValue::UI4(n) => *n as u64,
        CounterValue::Other => 0,
    }
}

fn add_capped(a: u64, b: u64) -> (r: u64)
    ensures
        r == cap_u64(a + b),
{
    if a > u64::MAX - b {
        u64::MAX
    } else {
        a + b
    }
}

fn twice_capped(a: u64) -> (r: u64)
    ensures
        r == cap_u64(a * 2),
{
    if a > u64::MAX / 2 {
        u64::MAX
    } else {
        a * 2
    }
}

fn traffic_of(row: &InterfaceCounters) -> (n: u64)
    ensures
        n == traffic(*row),
{
    match &row.total_per_sec {
        CounterValue::Other => add_capped(
            counter_of(&row.received_per_sec),
            counter_of(&row.sent_per_sec),
        ),
        _ => counter_of(&row.total_per_sec),
    }
}

/// Whether a name in lowercase is that of a loopback or virtual adapter.
pub fn is_virtual_lowercase(lower: &str) -> (r: bool)
    ensures
        r == names_virtual(lower@),
{
    str_contains(lower, "loopback") || str_contains(lower, "virtual") || str_contains(
        lower,
        "vmware",
    ) || str_contains(lower, "vethernet")
}

/// Whether a name is that of a loopback or virtual adapter, in whatever case it is written.
pub fn is_virtual_adapter(name: &str) -> (r: bool)
    ensures
        r == is_virtual_name(name@),
{
    let lower = to_lowercase(name);
    is_virtual_lowercase(lower.as_str())
}

/// Chooses the interface to show from the counters of all interfaces.
///
/// Loopback and virtual adapters and rows without a name are passed over.
/// The interface that was shown before is kept where it is still there; else
/// the one with the most traffic is taken. `None` if no row is eligible.
pub fn select_interface(rows: &Vec<InterfaceCounters>, prev: &CachedNetworkData) -> (best: Option<
    CachedNetworkData,
>)
    ensures
        match best {
            Some(b) => choice(rows@, prev@, rows@.len()).0 == Some(b@),
            None => choice(rows@, prev@, rows@.len()).0 is None,
        },
        best is None <==> forall|i: int| 0 <= i < rows@.len() ==> !eligible(#[trigger] rows@[i]),
{
    let mut best: Option<CachedNetworkData> = None;
    let mut max_traffic: u64 = 0;
    let mut i: usize = 0;
    while i < rows.len()
        invariant
            i <= rows@.len(),
            max_traffic == choice(rows@, prev@, i as nat).1,
            match best {
                Some(b) => choice(rows@, prev@, i as nat).0 == Some(b@),
                None => choice(rows@, prev@, i as nat).0 is None,
            },
            best is None <==> forall|j: int| 0 <= j < i ==> !eligible(#[trigger] rows@[j]),
        decreases rows@.len() - i,
    {
        let row = &rows[i];
        match &row.name {
            None => {},
            Some(name) => {
                if !is_virtual_adapter(name.as_str()) {
                    let total = traffic_of(row);
                    let same = prev.interface_name.as_str().unicode_len() > 0 && *name
                        == prev.interface_name;
                    if same || total > max_traffic || best.is_none() {
                        let received = counter_of(&row.received_per_sec);
                        let sent = counter_of(&row.sent_per_sec);
                        max_traffic = total;
                        best = Some(
                            CachedNetworkData {
                                interface_name: name.clone(),
                                download_bytes_sec: received,
                                upload_bytes_sec: sent,
                                total_received: add_capped(
                                    prev.total_received,
                                    twice_capped(received),
                                ),
                                total_sent: add_capped(prev.total_sent, twice_capped(sent)),
                                is_connected: received > 0 || sent > 0,
                            },
                        );
                    }
                    assert(eligible(rows@[i as int]));
                }
            },
        }
        i = i + 1;
    }
    best
}

} // verus!
