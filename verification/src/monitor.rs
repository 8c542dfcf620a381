//! Monitors: a stable identifier for each, and resolving a saved selector to
//! one of those that are connected now.

use vstd::prelude::*;
use vstd::string::*;
use crate::dock::DockError;
use crate::text::{
    all_digits, char_to_digit, decimal, digits_value, is_digit, lemma_decimal_round_trip,
    lemma_digits_value_grows, lemma_numerals_are_plain, lemma_signed_decimal_injective,
    lemma_split_at_colon, push_decimal, push_signed_decimal, signed_decimal,
};

verus! {

/// What the window system reports about one monitor.
#[derive(Clone, Debug, PartialEq, Eq)]
pub struct MonitorProbe {
    pub name: Option<String>,
    pub x: i32,
    pub y: i32,
    pub width: u32,
    pub height: u32,
}

/// One connected monitor. A snapshot: it is made anew by every enumeration.
#[derive(Clone, Debug, PartialEq, Eq)]
pub struct MonitorInfo {
    /// Made of position and size, so that it does not depend on the order of
    /// enumeration.
    pub id: String,
    pub name: String,
    pub is_primary: bool,
    /// Width in physical pixels.
    pub width: u32,
    /// Height in physical pixels.
    pub height: u32,
    pub x: i32,
    pub y: i32,
}

/// The identifier of the monitor at `(x, y)` of the given size: the four
/// numbers in decimal, separated by colons.
pub open spec fn monitor_id(x: int, y: int, width: nat, height: nat) -> Seq<char> {
    signed_decimal(x) + seq![':'] + signed_decimal(y) + seq![':'] + decimal(width) + seq![':']
        + decimal(height)
}

/// The name given to the monitor at position `index` of the enumeration when
/// the window system has none for it.
pub open spec fn default_name(index: nat) -> Seq<char> {
    "Monitor "@ + decimal(index + 1)
}

/// Whether two optional names are the same: both missing, or both there and equal.
pub open spec fn same_name(a: Option<String>, b: Option<String>) -> bool {
    match (a, b) {
        (None, None) => true,
        (Some(x), Some(y)) => x@ == y@,
        _ => false,
    }
}

/// The entry that the enumeration makes of the probe at position `index`.
pub open spec fn describes(
    info: MonitorInfo,
    probe: MonitorProbe,
    index: nat,
    primary: Option<MonitorProbe>,
) -> bool {
    &&& info.id@ == monitor_id(
        probe.x as int,
        probe.y as int,
        probe.width as nat,
        probe.height as nat,
    )
    &&& info.name@ == (match probe.name {
        Some(n) => n@,
        None => default_name(index),
    })
    &&& info.is_primary == (primary matches Some(p) && same_name(p.name, probe.name))
    &&& info.x == probe.x
    &&& info.y == probe.y
    &&& info.width == probe.width
    &&& info.height == probe.height
}

/// The text that follows the prefix of a selector in the old format, if
/// `selector` has that prefix.
pub open spec fn legacy_suffix(selector: Seq<char>) -> Option<Seq<char>> {
    if selector.len() >= 8 && selector.take(8) == "monitor_"@ {
        Some(selector.skip(8))
    } else {
        None
    }
}

/// The number that `text` denotes: digits, with at most one plus sign in front.
pub open spec fn parse_index(text: Seq<char>) -> Option<nat> {
    let digits = if text.len() > 0 && text[0] == '+' {
        text.skip(1)
    } else {
        text
    };
    if digits.len() > 0 && all_digits(digits) {
        Some(digits_value(digits))
    } else {
        None
    }
}

/// The position that a selector in the old format names.
pub open spec fn legacy_index(selector: Seq<char>) -> Option<nat> {
    match legacy_suffix(selector) {
        Some(text) => parse_index(text),
        None => None,
    }
}

/// Whether some monitor has `selector` as its identifier.
pub open spec fn has_id(monitors: Seq<MonitorInfo>, selector: Seq<char>) -> bool {
    exists|j: int| 0 <= j < monitors.len() && (#[trigger] monitors[j]).id@ == selector
}

/// Whether `selector` resolves to the monitor at position `i`: it is the
/// first whose identifier is `selector`, or no identifier is, and `selector`
/// names position `i` in the old format.
pub open spec fn resolves_to(monitors: Seq<MonitorInfo>, selector: Seq<char>, i: int) -> bool {
    &&& 0 <= i < monitors.len()
    &&& if has_id(monitors, selector) {
        &&& monitors[i].id@ == selector
        &&& forall|j: int| 0 <= j < i ==> (#[trigger] monitors[j]).id@ != selector
    } else {
        legacy_index(selector) == Some(i as nat)
    }
}

/// Whether `selector` resolves to any monitor.
pub open spec fn resolvable(monitors: Seq<MonitorInfo>, selector: Seq<char>) -> bool {
    exists|i: int| resolves_to(monitors, selector, i)
}

/// The identifier of the monitor at `(x, y)` of the given size.
pub fn stable_monitor_id(x: i32, y: i32, width: u32, height: u32) -> (id: String)
    ensures
        id@ == monitor_id(x as int, y as int, width as nat, height as nat),
{
    let mut id = String::new();
    push_signed_decimal(&mut id, x as i64);
    id.push(':');
    push_signed_decimal(&mut id, y as i64);
    id.push(':');
    push_decimal(&mut id, width as u64);
    id.push(':');
    push_decimal(&mut id, height as u64);
    assert(id@ =~= monitor_id(x as int, y as int, width as nat, height as nat));
    id
}

fn names_match(a: &Option<String>, b: &Option<String>) -> (r: bool)
    ensures
        r == same_name(*a, *b),
{
    match (a, b) {
        (None, None) => true,
        (Some(x), Some(y)) => *x == *y,
        _ => false,
    }
}

fn describe(probe: &MonitorProbe, index: usize, primary: &Option<MonitorProbe>) -> (info:
    MonitorInfo)
    requires
        index < usize::MAX,
    ensures
        describes(info, *probe, index as nat, *primary),
{
    let name = match &probe.name {
        Some(n) => n.clone(),
        None => {
            let mut n = String::from_str("Monitor ");
            push_decimal(&mut n, (index + 1) as u64);
            n
        },
    };
    let is_primary = match primary {
        Some(p) => names_match(&p.name, &probe.name),
        None => false,
    };
    MonitorInfo {
        id: stable_monitor_id(probe.x, probe.y, probe.width, probe.height),
        name,
        is_primary,
        width: probe.width,
        height: probe.height,
        x: probe.x,
        y: probe.y,
    }
}

/// Describes the connected monitors, in the order of `probes`.
///
/// Each identifier is made of the monitor's position and size alone. The
/// primary monitor is told by its name.
pub fn list_monitors(probes: &Vec<MonitorProbe>, primary: &Option<MonitorProbe>) -> (monitors: Vec<
    MonitorInfo,
>)
    ensures
        monitors@.len() == probes@.len(),
        forall|i: int|
            0 <= i < probes@.len() ==> describes(
                #[trigger] monitors@[i],
                probes@[i],
                i as nat,
                *primary,
            ),
{
    let mut monitors: Vec<MonitorInfo> = Vec::new();
    let mut i: usize = 0;
    while i < probes.len()
        invariant
            i <= probes@.len(),
            monitors@.len() == i,
            forall|j: int|
                0 <= j < i ==> describes(#[trigger] monitors@[j], probes@[j], j as nat, *primary),
        decreases probes@.len() - i,
    {
        let info = describe(&probes[i], i, primary);
        monitors.push(info);
        i = i + 1;
    }
    monitors
}

/// The number that the text of `s` from position `from` on denotes, if it
/// denotes one below `limit`.
fn parse_index_below(s: &str, from: usize, limit: usize) -> (r: Option<usize>)
    requires
        from <= s@.len(),
    ensures
        r matches Some(v) ==> v < limit && parse_index(s@.skip(from as int)) == Some(v as nat),
        r is None ==> match parse_index(s@.skip(from as int)) {
            Some(v) => v >= limit,
            None => true,
        },
{
    let len = s.unicode_len();
    let ghost text = s@.skip(from as int);
    let mut i: usize = from;
    if i < len && s.get_char(i) == '+' {
        i = i + 1;
    }
    let start = i;
    let ghost digits = s@.skip(start as int);
    proof {
        if start > from {
            assert(text[0] == '+');
            assert(text.skip(1) =~= digits);
        } else {
            assert(text =~= digits);
            if text.len() > 0 && text[0] == '+' {
                assert(s@[from as int] == '+');
            }
        }
    }
    if start >= len {
        return None;
    }
    let mut acc: usize = 0;
    while i < len
        invariant
            start <= i <= len,
            len == s@.len(),
            digits == s@.skip(start as int),
            digits.len() == len - start,
            parse_index(s@.skip(from as int)) == (if digits.len() > 0 && all_digits(digits) {
                Some(digits_value(digits))
            } else {
                None
            }),
            all_digits(digits.take(i - start)),
            acc == digits_value(digits.take(i - start)),
            acc < limit || i == start,
        decreases len - i,
    {
        let c = s.get_char(i);
        let ghost before = digits.take(i - start);
        let ghost after = digits.take(i - start + 1);
        proof {
            assert(after.drop_last() =~= before);
            assert(after.last() == c);
        }
        match char_to_digit(c) {
            None => {
                proof {
                    assert(digits[i - start] == c);
                    assert(!all_digits(digits));
                }
                return None;
            },
            Some(d) => {
                proof {
                    assert forall|j: int| 0 <= j < after.len() implies is_digit(
                        #[trigger] after[j],
                    ) by {
                        if j < before.len() {
                            assert(after[j] == before[j]);
                        }
                    }
                    assert(digits_value(after) == acc * 10 + d);
                }
                if acc > (usize::MAX - d as usize) / 10 || acc * 10 + d as usize >= limit {
                    proof {
                        lemma_digits_value_grows(digits, i - start + 1);
                        assert(digits_value(digits) >= limit);
                    }
                    // The rest must still be made of digits for the text to denote a number.
                    return None;
                }
                acc = acc * 10 + d as usize;
            },
        }
        i = i + 1;
    }
    proof {
        assert(digits.take(len - start) =~= digits);
    }
    Some(acc)
}

/// The position that `selector` names in the old format, if it names one below `limit`.
fn legacy_index_below(selector: &str, limit: usize) -> (r: Option<usize>)
    ensures
        r matches Some(v) ==> v < limit && legacy_index(selector@) == Some(v as nat),
        r is None ==> match legacy_index(selector@) {
            Some(v) => v >= limit,
            None => true,
        },
{
    let prefix = "monitor_";
    proof {
        reveal_strlit("monitor_");
    }
    let len = selector.unicode_len();
    if len < 8 {
        return None;
    }
    let mut i: usize = 0;
    while i < 8
        invariant
            i <= 8,
            len == selector@.len(),
            len >= 8,
            prefix@.len() == 8,
            prefix@ == "monitor_"@,
            forall|j: int| 0 <= j < i ==> selector@[j] == prefix@[j],
        decreases 8 - i,
    {
        if selector.get_char(i) != prefix.get_char(i) {
            proof {
                assert(selector@.take(8)[i as int] == selector@[i as int]);
            }
            return None;
        }
        i = i + 1;
    }
    proof {
        assert(selector@.take(8) =~= "monitor_"@);
    }
    parse_index_below(selector, 8, limit)
}

/// Resolves a selector to one of `monitors`.
///
/// The selector is taken as an identifier first: the first monitor that has
/// it is the answer. If none has it, the selector is read in the old format,
/// as a position in `monitors`. If that fails too, the answer is `NotFound`.
pub fn resolve_monitor<'a>(selector: &String, monitors: &'a Vec<MonitorInfo>) -> (r: Result<
    &'a MonitorInfo,
    DockError,
>)
    ensures
        r matches Ok(m) ==> exists|i: int|
            resolves_to(monitors@, selector@, i) && *m == monitors@[i],
        r matches Err(e) ==> e == DockError::NotFound && !resolvable(monitors@, selector@),
        r is Ok <==> resolvable(monitors@, selector@),
{
    let mut i: usize = 0;
    while i < monitors.len()
        invariant
            i <= monitors@.len(),
            forall|j: int| 0 <= j < i ==> (#[trigger] monitors@[j]).id@ != selector@,
        decreases monitors@.len() - i,
    {
        if monitors[i].id == *selector {
            assert(resolves_to(monitors@, selector@, i as int));
            return Ok(&monitors[i]);
        }
        i = i + 1;
    }
    assert(!has_id(monitors@, selector@));
    match legacy_index_below(selector.as_str(), monitors.len()) {
        Some(index) => {
            assert(resolves_to(monitors@, selector@, index as int));
            Ok(&monitors[index])
        },
        None => {
            assert forall|k: int| !resolves_to(monitors@, selector@, k) by {}
            Err(DockError::NotFound)
        },
    }
}

/// Stable identifiers. Two entries for monitors of the same position and
/// size have the same identifier, wherever they stand in their
/// enumerations, whatever their names, and whichever monitor is primary.
pub proof fn lemma_monitor_id_is_stable(
    a: MonitorInfo,
    probe_a: MonitorProbe,
    index_a: nat,
    primary_a: Option<MonitorProbe>,
    b: MonitorInfo,
    probe_b: MonitorProbe,
    index_b: nat,
    primary_b: Option<MonitorProbe>,
)
    requires
        describes(a, probe_a, index_a, primary_a),
        describes(b, probe_b, index_b, primary_b),
        probe_a.x == probe_b.x,
        probe_a.y == probe_b.y,
        probe_a.width == probe_b.width,
        probe_a.height == probe_b.height,
    ensures
        a.id@ == b.id@,
{
}

/// Identifiers tell monitors apart. Monitors that differ in position or
/// size have different identifiers.
pub proof fn lemma_monitor_id_is_a_key(
    x1: int,
    y1: int,
    width1: nat,
    height1: nat,
    x2: int,
    y2: int,
    width2: nat,
    height2: nat,
)
    requires
        monitor_id(x1, y1, width1, height1) == monitor_id(x2, y2, width2, height2),
    ensures
        x1 == x2,
        y1 == y2,
        width1 == width2,
        height1 == height2,
{
    let colon = seq![':'];
    let tail1 = signed_decimal(y1) + colon + decimal(width1) + colon + decimal(height1);
    let tail2 = signed_decimal(y2) + colon + decimal(width2) + colon + decimal(height2);
    let rest1 = decimal(width1) + colon + decimal(height1);
    let rest2 = decimal(width2) + colon + decimal(height2);
    lemma_numerals_are_plain(x1);
    lemma_numerals_are_plain(x2);
    lemma_numerals_are_plain(y1);
    lemma_numerals_are_plain(y2);
    lemma_numerals_are_plain(width1 as int);
    lemma_numerals_are_plain(width2 as int);
    assert(monitor_id(x1, y1, width1, height1) =~= signed_decimal(x1) + colon + tail1);
    assert(monitor_id(x2, y2, width2, height2) =~= signed_decimal(x2) + colon + tail2);
    lemma_split_at_colon(signed_decimal(x1), tail1, signed_decimal(x2), tail2);
    lemma_signed_decimal_injective(x1, x2);
    assert(tail1 =~= signed_decimal(y1) + colon + rest1);
    assert(tail2 =~= signed_decimal(y2) + colon + rest2);
    lemma_split_at_colon(signed_decimal(y1), rest1, signed_decimal(y2), rest2);
    lemma_signed_decimal_injective(y1, y2);
    lemma_split_at_colon(decimal(width1), decimal(height1), decimal(width2), decimal(height2));
    lemma_decimal_round_trip(width1);
    lemma_decimal_round_trip(width2);
    lemma_decimal_round_trip(height1);
    lemma_decimal_round_trip(height2);
}

} // verus!
