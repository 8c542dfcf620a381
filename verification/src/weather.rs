//! Weather: what a weather code means, and reading the times of sunrise and sunset.

use vstd::prelude::*;
use vstd::string::*;

verus! {

/// The description of a weather code of the World Meteorological Organization.
pub open spec fn description_of(code: u32) -> Seq<char> {
    if code == 0 {
        "Céu limpo"@
    } else if code == 1 {
        "Principalmente limpo"@
    } else if code == 2 {
        "Parcialmente nublado"@
    } else if code == 3 {
        "Nublado"@
    } else if code == 45 || code == 48 {
        "Neblina"@
    } else if code == 51 || code == 53 || code == 55 {
        "Garoa"@
    } else if code == 56 || code == 57 {
        "Garoa congelante"@
    } else if code == 61 || code == 63 || code == 65 {
        "Chuva"@
    } else if code == 66 || code == 67 {
        "Chuva congelante"@
    } else if code == 71 || code == 73 || code == 75 {
        "Neve"@
    } else if code == 77 {
        "Granizo"@
    } else if 80 <= code <= 82 {
        "Pancadas de chuva"@
    } else if code == 85 || code == 86 {
        "Pancadas de neve"@
    } else if code == 95 {
        "Tempestade"@
    } else if code == 96 || code == 99 {
        "Tempestade com granizo"@
    } else {
        "Desconhecido"@
    }
}

/// The two digits that name the picture for a weather code.
pub open spec fn icon_group(code: u32) -> Seq<char> {
    if code == 2 {
        "02"@
    } else if code == 3 {
        "03"@
    } else if code == 45 || code == 48 {
        "50"@
    } else if code == 51 || code == 53 || code == 55 || code == 56 || code == 57 || (80 <= code
        <= 82) {
        "09"@
    } else if code == 61 || code == 63 || code == 65 || code == 66 || code == 67 {
        "10"@
    } else if code == 71 || code == 73 || code == 75 || code == 77 || code == 85 || code == 86 {
        "13"@
    } else if code == 95 || code == 96 || code == 99 {
        "11"@
    } else {
        "01"@
    }
}

/// The name of the picture for a weather code: its group, then `d` by day and `n` by night.
pub open spec fn icon_of(code: u32, is_day: bool) -> Seq<char> {
    icon_group(code) + (if is_day {
        "d"@
    } else {
        "n"@
    })
}

/// The address of the picture named `icon`.
pub open spec fn icon_url(icon: Seq<char>) -> Seq<char> {
    "https://openweathermap.org/img/wn/"@ + icon + "@2x.png"@
}

/// Get weather icon URL.
pub fn get_weather_icon_url(icon: &str) -> (url: String)
    ensures
        url@ == icon_url(icon@),
{
    let mut url = String::from_str("https://openweathermap.org/img/wn/");
    url.append(icon);
    url.append("@2x.png");
    url
}

/// Convert a weather code to its description and the name of its picture.
pub fn weather_code_to_description(code: u32, is_day: bool) -> (r: (String, String))
    ensures
        r.0@ == description_of(code),
        r.1@ == icon_of(code, is_day),
{
    let suffix = if is_day {
        "d"
    } else {
        "n"
    };
    let (description, group) = if code == 0 {
        ("Céu limpo", "01")
    } else if code == 1 {
        ("Principalmente limpo", "01")
    } else if code == 2 {
        ("Parcialmente nublado", "02")
    } else if code == 3 {
        ("Nublado", "03")
    } else if code == 45 || code == 48 {
        ("Neblina", "50")
    } else if code == 51 || code == 53 || code == 55 {
        ("Garoa", "09")
    } else if code == 56 || code == 57 {
        ("Garoa congelante", "09")
    } else if code == 61 || code == 63 || code == 65 {
        ("Chuva", "10")
    } else if code == 66 || code == 67 {
        ("Chuva congelante", "10")
    } else if code == 71 || code == 73 || code == 75 {
        ("Neve", "13")
    } else if code == 77 {
        ("Granizo", "13")
    } else if 80 <= code && code <= 82 {
        ("Pancadas de chuva", "09")
    } else if code == 85 || code == 86 {
        ("Pancadas de neve", "13")
    } else if code == 95 {
        ("Tempestade", "11")
    } else if code == 96 || code == 99 {
        ("Tempestade com granizo", "11")
    } else {
        ("Desconhecido", "01")
    };
    let mut icon = String::from_str(group);
    icon.append(suffix);
    (String::from_str(description), icon)
}

/// What `chrono` makes of a text in RFC 3339: the seconds from the start of
/// 1970 (UTC) to the instant the text denotes, or `None` where the text is
/// not in that format.
pub uninterp spec fn rfc3339_seconds(text: Seq<char>) -> Option<i64>;

/// `chrono::DateTime::parse_from_rfc3339`, then `DateTime::timestamp` on what
/// it gave: the result is a function of the text alone.
#[verifier::external_body]
fn rfc3339_timestamp(text: &str) -> (r: Option<i64>)
    ensures
        r == rfc3339_seconds(text@),
{
    match chrono::DateTime::parse_from_rfc3339(text) {
        Ok(instant) => Some(instant.timestamp()),
        Err(_) => None,
    }
}

/// The time to show for a parsed sunrise or sunset: 0 where there is none.
pub fn seconds_or_zero(parsed: Option<i64>) -> (t: i64)
    ensures
        t == (match parsed {
            Some(v) => v,
            None => 0,
        }),
{
    match parsed {
        Some(v) => v,
        None => 0,
    }
}

/// The text that is handed to the parser for a time without seconds and
/// zone, such as `2024-05-01T06:12`: the same with seconds 0 in UTC.
pub open spec fn with_seconds_and_zone(time: Seq<char>) -> Seq<char> {
    time + ":00+00:00"@
}

/// Parse a local date and time without seconds to a Unix timestamp; 0 where
/// there is no text or it cannot be read.
pub fn parse_iso_time(time_str: Option<&String>) -> (t: i64)
    ensures
        t == (match time_str {
            Some(s) => match rfc3339_seconds(with_seconds_and_zone(s@)) {
                Some(v) => v,
                None => 0,
            },
            None => 0,
        }),
{
    match time_str {
        Some(s) => {
            let mut text = String::from_str(s.as_str());
            text.append(":00+00:00");
            seconds_or_zero(rfc3339_timestamp(text.as_str()))
        },
        None => 0,
    }
}

} // verus!
