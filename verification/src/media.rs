//! Media: the name of the application that plays, and what to show of a session.

use vstd::prelude::*;
use vstd::string::*;
use crate::text::{contains_text, find_text, from_chars, to_chars};

verus! {

/// Playback status
#[derive(Clone, Copy, Debug, PartialEq, Eq)]
pub enum PlaybackStatus {
    Playing,
    Paused,
    Stopped,
    Unknown,
}

/// The name under which a known application is shown, if the identifier of
/// the session names one.
pub open spec fn known_app(app_id: Seq<char>) -> Option<Seq<char>> {
    if contains_text(app_id, "Spotify"@) {
        Some("Spotify"@)
    } else if contains_text(app_id, "Chrome"@) || contains_text(app_id, "chrome"@) {
        Some("Chrome"@)
    } else if contains_text(app_id, "Firefox"@) || contains_text(app_id, "firefox"@) {
        Some("Firefox"@)
    } else if contains_text(app_id, "Edge"@) || contains_text(app_id, "msedge"@) {
        Some("Edge"@)
    } else if contains_text(app_id, "Music"@) || contains_text(app_id, "Groove"@) {
        Some("Groove Music"@)
    } else if contains_text(app_id, "VLC"@) || contains_text(app_id, "vlc"@) {
        Some("VLC"@)
    } else if contains_text(app_id, "foobar"@) {
        Some("foobar2000"@)
    } else {
        None
    }
}

/// Where the first `c` stands in `s`; the length of `s` if there is none.
pub open spec fn first_of(s: Seq<char>, c: char) -> int
    decreases s.len(),
{
    if s.len() == 0 {
        0
    } else if s[0] == c {
        0
    } else {
        1 + first_of(s.skip(1), c)
    }
}

/// The position after the last `c` in `s`; 0 if there is none.
pub open spec fn after_last(s: Seq<char>, c: char) -> int
    decreases s.len(),
{
    if s.len() == 0 {
        0
    } else if s.last() == c {
        s.len() as int
    } else {
        after_last(s.drop_last(), c)
    }
}

/// The last part of an identifier: what stands before the first `!`, and of
/// that what follows the last backslash.
pub open spec fn last_part(app_id: Seq<char>) -> Seq<char> {
    let head = app_id.take(first_of(app_id, '!'));
    head.skip(after_last(head, '\\'))
}

/// The name to show for the identifier of a session.
pub open spec fn app_name(app_id: Seq<char>) -> Seq<char> {
    match known_app(app_id) {
        Some(name) => name,
        None => last_part(app_id),
    }
}

fn contains(hay: &Vec<char>, needle: &str) -> (r: bool)
    ensures
        r == contains_text(hay@, needle@),
{
    let n = to_chars(needle);
    find_text(hay, &n).is_some()
}

/// Extract a readable name from the identifier of a media session: the name
/// of a known application if the identifier holds one, else its last part.
pub fn extract_app_name(app_id: &str) -> (name: String)
    ensures
        name@ == app_name(app_id@),
{
    let id = to_chars(app_id);
    if contains(&id, "Spotify") {
        return String::from_str("Spotify");
    }
    if contains(&id, "Chrome") || contains(&id, "chrome") {
        return String::from_str("Chrome");
    }
    if contains(&id, "Firefox") || contains(&id, "firefox") {
        return String::from_str("Firefox");
    }
    if contains(&id, "Edge") || contains(&id, "msedge") {
        return String::from_str("Edge");
    }
    if contains(&id, "Music") || contains(&id, "Groove") {
        return String::from_str("Groove Music");
    }
    if contains(&id, "VLC") || contains(&id, "vlc") {
        return String::from_str("VLC");
    }
    if contains(&id, "foobar") {
        return String::from_str("foobar2000");
    }
    // What stands before the first '!'.
    let mut end: usize = 0;
    proof {
        assert(id@.skip(0) =~= id@);
    }
    while end < id.len() && id[end] != '!'
        invariant
            end <= id@.len(),
            first_of(id@, '!') == end + first_of(id@.skip(end as int), '!'),
        decreases id@.len() - end,
    {
        proof {
            assert(id@.skip(end as int).skip(1) =~= id@.skip(end + 1));
        }
        end = end + 1;
    }
    proof {
        if end < id@.len() {
            assert(id@.skip(end as int)[0] == '!');
        }
        assert(first_of(id@, '!') == end);
    }
    // Of that, what follows the last backslash.
    let ghost head = id@.take(end as int);
    let mut start: usize = end;
    proof {
        assert(head.take(end as int) =~= head);
    }
    while start > 0 && id[start - 1] != '\\'
        invariant
            start <= end <= id@.len(),
            head == id@.take(end as int),
            after_last(head, '\\') == after_last(head.take(start as int), '\\'),
        decreases start,
    {
        proof {
            assert(head.take(start as int).drop_last() =~= head.take(start - 1));
            assert(head.take(start as int).last() == id@[start - 1]);
        }
        start = start - 1;
    }
    proof {
        assert(head.take(end as int) =~= head);
        if start > 0 {
            assert(head.take(start as int).last() == id@[start - 1]);
        }
        assert(after_last(head, '\\') == start);
    }
    let mut part: Vec<char> = Vec::new();
    let mut i: usize = start;
    while i < end
        invariant
            start <= i <= end <= id@.len(),
            part@ == id@.subrange(start as int, i as int),
        decreases end - i,
    {
        part.push(id[i]);
        proof {
            assert(id@.subrange(start as int, i + 1) =~= id@.subrange(start as int, i as int).push(
                id@[i as int],
            ));
        }
        i = i + 1;
    }
    proof {
        assert(id@.subrange(start as int, end as int) =~= head.skip(start as int));
    }
    from_chars(&part)
}

/// Whether a session counts as media: it has a title or is playing.
pub fn has_media(title: &str, status: PlaybackStatus) -> (r: bool)
    ensures
        r == (title@.len() > 0 || status == PlaybackStatus::Playing),
{
    let playing = match status {
        PlaybackStatus::Playing => true,
        _ => false,
    };
    !title.is_empty() || playing
}

/// Whether the cover of a session is fetched: only for sessions of a browser.
pub open spec fn is_browser(source_app: Seq<char>) -> bool {
    source_app == "Chrome"@ || source_app == "Firefox"@ || source_app == "Edge"@
}

/// Whether the cover of a session is fetched: only for sessions of a browser.
pub fn wants_thumbnail(source_app: &str) -> (r: bool)
    ensures
        r == is_browser(source_app@),
{
    crate::text::str_eq(source_app, "Chrome") || crate::text::str_eq(source_app, "Firefox")
        || crate::text::str_eq(source_app, "Edge")
}

/// The key that tells one track from another: application, title, artist
/// and album, separated by bars.
pub open spec fn track_key(
    source_app: Seq<char>,
    title: Seq<char>,
    artist: Seq<char>,
    album: Seq<char>,
) -> Seq<char> {
    source_app + "|"@ + title + "|"@ + artist + "|"@ + album
}

/// The key that tells one track from another.
pub fn make_track_key(source_app: &str, title: &str, artist: &str, album: &str) -> (key: String)
    ensures
        key@ == track_key(source_app@, title@, artist@, album@),
{
    let mut key = String::from_str(source_app);
    key.append("|");
    key.append(title);
    key.append("|");
    key.append(artist);
    key.append("|");
    key.append(album);
    key
}

} // verus!
