//! Profiles: the widgets and folder shortcuts a profile starts with, the
//! name of its file, and its summary in the list of profiles.

use vstd::prelude::*;
use vstd::string::*;
use crate::text::{alphanumeric, from_chars, is_alphanumeric, lowercase, to_chars, to_lowercase};

verus! {

/// One widget of the bar.
#[derive(Clone, Debug, PartialEq, Eq)]
pub struct WidgetConfig {
    pub id: String,
    pub widget_type: String,
    pub enabled: bool,
    pub order: u32,
}

/// How often the widgets ask for new data.
#[derive(Clone, Copy, Debug, PartialEq, Eq)]
pub struct PollingConfig {
    pub interval_ms: u32,
    pub detailed_interval_ms: u32,
}

impl Default for PollingConfig {
    fn default() -> (p: PollingConfig)
        ensures
            p == (PollingConfig { interval_ms: 1000, detailed_interval_ms: 5000 }),
    {
        PollingConfig { interval_ms: 1000, detailed_interval_ms: 5000 }
    }
}

/// Single folder shortcut entry
#[derive(Clone, Debug, PartialEq, Eq)]
pub struct FolderShortcut {
    pub id: String,
    pub name: String,
    pub path: String,
    pub icon: String,
    pub enabled: bool,
}

/// Folder shortcuts config
#[derive(Clone, Debug, PartialEq, Eq)]
pub struct FolderShortcutsConfig {
    pub shortcuts: Vec<FolderShortcut>,
}

/// One line of the list of profiles.
#[derive(Clone, Debug, PartialEq, Eq)]
pub struct ProfileSummary {
    pub filename: String,
    pub name: String,
    pub is_active: bool,
    pub modified_at: String,
}

/// Why a change to the folder shortcuts was refused.
#[derive(Clone, Copy, Debug, PartialEq, Eq)]
pub enum ShortcutError {
    /// A shortcut with this identifier is there already.
    Duplicate,
    /// No shortcut has this identifier.
    NotFound,
}

impl ShortcutError {
    /// The message for the user.
    pub fn message(&self) -> (m: &'static str)
        ensures
            m@ == (match *self {
                ShortcutError::Duplicate => "Folder shortcut with this ID already exists"@,
                ShortcutError::NotFound => "Folder shortcut not found"@,
            }),
    {
        match self {
            ShortcutError::Duplicate => "Folder shortcut with this ID already exists",
            ShortcutError::NotFound => "Folder shortcut not found",
        }
    }
}

/// Kind and place of the widget at position `i` of a new profile.
pub open spec fn default_widget(i: int) -> (Seq<char>, u32) {
    if i == 0 {
        ("cpu"@, 0)
    } else if i == 1 {
        ("ram"@, 1)
    } else if i == 2 {
        ("gpu"@, 2)
    } else if i == 3 {
        ("storage"@, 3)
    } else if i == 4 {
        ("network"@, 4)
    } else if i == 5 {
        ("media"@, 5)
    } else if i == 6 {
        ("audio"@, 90)
    } else if i == 7 {
        ("headset"@, 91)
    } else if i == 8 {
        ("weather"@, 92)
    } else {
        ("clock"@, 93)
    }
}

fn widget(kind: &str, order: u32) -> (w: WidgetConfig)
    ensures
        w.widget_type@ == kind@,
        w.id@ == kind@ + "-1"@,
        w.enabled,
        w.order == order,
{
    let mut id = String::from_str(kind);
    id.append("-1");
    WidgetConfig { id, widget_type: String::from_str(kind), enabled: true, order }
}

/// The widgets of a new profile: ten of them, all enabled, each with the
/// identifier of its kind followed by `-1`.
pub fn default_widgets() -> (widgets: Vec<WidgetConfig>)
    ensures
        widgets@.len() == 10,
        forall|i: int|
            0 <= i < 10 ==> {
                let w = #[trigger] widgets@[i];
                &&& w.widget_type@ == default_widget(i).0
                &&& w.id@ == default_widget(i).0 + "-1"@
                &&& w.order == default_widget(i).1
                &&& w.enabled
            },
{
    let mut widgets: Vec<WidgetConfig> = Vec::new();
    widgets.push(widget("cpu", 0));
    widgets.push(widget("ram", 1));
    widgets.push(widget("gpu", 2));
    widgets.push(widget("storage", 3));
    widgets.push(widget("network", 4));
    widgets.push(widget("media", 5));
    widgets.push(widget("audio", 90));
    widgets.push(widget("headset", 91));
    widgets.push(widget("weather", 92));
    widgets.push(widget("clock", 93));
    widgets
}

/// The character that stands for `c` in the name of a file, given whether
/// `c` is a letter or a number: itself if it is one, or a hyphen or an
/// underscore, else an underscore.
pub open spec fn kept_or_underscore(c: char, letter_or_number: bool) -> char {
    if letter_or_number || c == '-' || c == '_' {
        c
    } else {
        '_'
    }
}

/// The character that stands for `c` in the name of a file.
pub open spec fn safe_char(c: char) -> char {
    kept_or_underscore(c, alphanumeric(c))
}

/// The character that stands for `c` in the name of a file, given whether
/// `c` is a letter or a number.
pub fn file_name_char(c: char, letter_or_number: bool) -> (r: char)
    ensures
        r == kept_or_underscore(c, letter_or_number),
{
    if letter_or_number || c == '-' || c == '_' {
        c
    } else {
        '_'
    }
}

/// The name of the file for a profile called `name`.
pub open spec fn sanitized(name: Seq<char>) -> Seq<char> {
    lowercase(name.map_values(|c: char| safe_char(c)))
}

/// The name of the file for a profile called `name`: every character that
/// is no letter, number, hyphen or underscore becomes an underscore, and the
/// result is put in lowercase.
pub fn sanitize_filename(name: &str) -> (file: String)
    ensures
        file@ == sanitized(name@),
{
    let chars = to_chars(name);
    let mut safe: Vec<char> = Vec::new();
    let mut i: usize = 0;
    while i < chars.len()
        invariant
            i <= chars@.len(),
            safe@ == chars@.take(i as int).map_values(|c: char| safe_char(c)),
        decreases chars@.len() - i,
    {
        let c = chars[i];
        safe.push(file_name_char(c, is_alphanumeric(c)));
        proof {
            assert(chars@.take(i + 1).map_values(|c: char| safe_char(c)) =~= chars@.take(
                i as int,
            ).map_values(|c: char| safe_char(c)).push(safe_char(c)));
        }
        i = i + 1;
    }
    proof {
        assert(chars@.take(chars@.len() as int) =~= chars@);
    }
    let mapped = from_chars(&safe);
    to_lowercase(mapped.as_str())
}

/// Whether one of `shortcuts` has the identifier `id`.
pub open spec fn has_shortcut(shortcuts: Seq<FolderShortcut>, id: Seq<char>) -> bool {
    exists|i: int| 0 <= i < shortcuts.len() && (#[trigger] shortcuts[i]).id@ == id
}

/// Those of `shortcuts` whose identifier is not `id`, in their order.
pub open spec fn without_shortcut(shortcuts: Seq<FolderShortcut>, id: Seq<char>) -> Seq<
    FolderShortcut,
>
    decreases shortcuts.len(),
{
    if shortcuts.len() == 0 {
        Seq::empty()
    } else if shortcuts.last().id@ == id {
        without_shortcut(shortcuts.drop_last(), id)
    } else {
        without_shortcut(shortcuts.drop_last(), id).push(shortcuts.last())
    }
}

fn copy_shortcut(s: &FolderShortcut) -> (c: FolderShortcut)
    ensures
        c == *s,
{
    FolderShortcut {
        id: s.id.clone(),
        name: s.name.clone(),
        path: s.path.clone(),
        icon: s.icon.clone(),
        enabled: s.enabled,
    }
}

impl FolderShortcutsConfig {
    fn position(&self, id: &String) -> (at: Option<usize>)
        ensures
            at is Some <==> has_shortcut(self.shortcuts@, id@),
            at matches Some(i) ==> i < self.shortcuts@.len() && self.shortcuts@[i as int].id@ == id@
                && forall|j: int| 0 <= j < i ==> (#[trigger] self.shortcuts@[j]).id@ != id@,
    {
        let mut i: usize = 0;
        while i < self.shortcuts.len()
            invariant
                i <= self.shortcuts@.len(),
                forall|j: int| 0 <= j < i ==> (#[trigger] self.shortcuts@[j]).id@ != id@,
            decreases self.shortcuts@.len() - i,
        {
            if self.shortcuts[i].id == *id {
                return Some(i);
            }
            i = i + 1;
        }
        None
    }

    /// Add a new folder shortcut at the end, unless one with its identifier
    /// is there already.
    pub fn add_folder_shortcut(&mut self, shortcut: FolderShortcut) -> (r: Result<
        (),
        ShortcutError,
    >)
        ensures
            r is Err <==> has_shortcut(old(self).shortcuts@, shortcut.id@),
            r matches Err(e) ==> e == ShortcutError::Duplicate && *final(self) == *old(self),
            r is Ok ==> final(self).shortcuts@ == old(self).shortcuts@.push(shortcut),
    {
        if self.position(&shortcut.id).is_some() {
            return Err(ShortcutError::Duplicate);
        }
        self.shortcuts.push(shortcut);
        Ok(())
    }

    /// Remove every folder shortcut with the identifier `id`.
    pub fn remove_folder_shortcut(&mut self, id: &String)
        ensures
            final(self).shortcuts@ == without_shortcut(old(self).shortcuts@, id@),
    {
        let mut kept: Vec<FolderShortcut> = Vec::new();
        let mut i: usize = 0;
        while i < self.shortcuts.len()
            invariant
                i <= self.shortcuts@.len(),
                *self == *old(self),
                kept@ == without_shortcut(self.shortcuts@.take(i as int), id@),
            decreases self.shortcuts@.len() - i,
        {
            proof {
                assert(self.shortcuts@.take(i + 1).drop_last() =~= self.shortcuts@.take(i as int));
                assert(self.shortcuts@.take(i + 1).last() == self.shortcuts@[i as int]);
            }
            if self.shortcuts[i].id != *id {
                kept.push(copy_shortcut(&self.shortcuts[i]));
            }
            i = i + 1;
        }
        proof {
            assert(self.shortcuts@.take(self.shortcuts@.len() as int) =~= self.shortcuts@);
        }
        self.shortcuts = kept;
    }

    /// Put `shortcut` in the place of the first folder shortcut that has its
    /// identifier.
    pub fn update_folder_shortcut(&mut self, shortcut: FolderShortcut) -> (r: Result<
        (),
        ShortcutError,
    >)
        ensures
            r is Ok <==> has_shortcut(old(self).shortcuts@, shortcut.id@),
            r matches Err(e) ==> e == ShortcutError::NotFound && *final(self) == *old(self),
            r is Ok ==> exists|i: int|
                0 <= i < old(self).shortcuts@.len() && (#[trigger] old(self).shortcuts@[i]).id@
                    == shortcut.id@ && (forall|j: int|
                    0 <= j < i ==> (#[trigger] old(self).shortcuts@[j]).id@ != shortcut.id@)
                    && final(self).shortcuts@ == old(self).shortcuts@.update(i, shortcut),
    {
        match self.position(&shortcut.id) {
            Some(i) => {
                self.shortcuts.set(i, shortcut);
                Ok(())
            },
            None => Err(ShortcutError::NotFound),
        }
    }

    /// The shortcuts of a new profile: the five folders of the user, each
    /// with the path that is given for it.
    pub fn with_paths(
        downloads: String,
        documents: String,
        pictures: String,
        music: String,
        videos: String,
    ) -> (c: FolderShortcutsConfig)
        ensures
            c.shortcuts@.len() == 5,
            c.shortcuts@[0].path == downloads && c.shortcuts@[0].id@ == "downloads"@
                && c.shortcuts@[0].name@ == "Downloads"@ && c.shortcuts@[0].icon@ == "download"@,
            c.shortcuts@[1].path == documents && c.shortcuts@[1].id@ == "documents"@
                && c.shortcuts@[1].name@ == "Documentos"@ && c.shortcuts@[1].icon@ == "file-text"@,
            c.shortcuts@[2].path == pictures && c.shortcuts@[2].id@ == "pictures"@
                && c.shortcuts@[2].name@ == "Imagens"@ && c.shortcuts@[2].icon@ == "image"@,
            c.shortcuts@[3].path == music && c.shortcuts@[3].id@ == "music"@
                && c.shortcuts@[3].name@ == "Músicas"@ && c.shortcuts@[3].icon@ == "music"@,
            c.shortcuts@[4].path == videos && c.shortcuts@[4].id@ == "videos"@
                && c.shortcuts@[4].name@ == "Vídeos"@ && c.shortcuts@[4].icon@ == "video"@,
            forall|i: int| 0 <= i < 5 ==> (#[trigger] c.shortcuts@[i]).enabled,
    {
        let mut shortcuts: Vec<FolderShortcut> = Vec::new();
        shortcuts.push(folder("downloads", "Downloads", downloads, "download"));
        shortcuts.push(folder("documents", "Documentos", documents, "file-text"));
        shortcuts.push(folder("pictures", "Imagens", pictures, "image"));
        shortcuts.push(folder("music", "Músicas", music, "music"));
        shortcuts.push(folder("videos", "Vídeos", videos, "video"));
        FolderShortcutsConfig { shortcuts }
    }
}

fn folder(id: &str, name: &str, path: String, icon: &str) -> (s: FolderShortcut)
    ensures
        s.id@ == id@,
        s.name@ == name@,
        s.path == path,
        s.icon@ == icon@,
        s.enabled,
{
    FolderShortcut {
        id: String::from_str(id),
        name: String::from_str(name),
        path,
        icon: String::from_str(icon),
        enabled: true,
    }
}

/// What `serde_json` finds in a text under a key: the text of the member
/// `key`, if `content` is a JSON object that has such a member and the
/// member is a string.
pub uninterp spec fn json_text_member(content: Seq<char>, key: Seq<char>) -> Option<Seq<char>>;

/// `serde_json::from_str` to a `serde_json::Value`, then `Value::get` with
/// the key: the member's text if the member is a `Value::String`. The result
/// is a function of text and key.
#[verifier::external_body]
fn json_member(content: &str, key: &str) -> (member: Option<String>)
    ensures
        match member {
            Some(m) => json_text_member(content@, key@) == Some(m@),
            None => json_text_member(content@, key@) is None,
        },
{
    match serde_json::from_str::<serde_json::Value>(content) {
        Ok(value) => match value.get(key) {
            Some(serde_json::Value::String(text)) => Some(text.clone()),
            _ => None,
        },
        Err(_) => None,
    }
}

/// The line for a profile whose name and time of change have been read.
pub fn summary_of(
    filename: String,
    active: &String,
    name: Option<String>,
    modified_at: Option<String>,
) -> (summary: Option<ProfileSummary>)
    ensures
        match (name, modified_at) {
            (Some(n), Some(m)) => summary matches Some(s) && s.filename == filename && s.name == n
                && s.modified_at == m && s.is_active == (filename@ == active@),
            _ => summary is None,
        },
{
    match (name, modified_at) {
        (Some(n), Some(m)) => {
            let is_active = filename == *active;
            Some(ProfileSummary { filename, name: n, is_active, modified_at: m })
        },
        _ => None,
    }
}

/// The line for the profile in the file `filename` with the given content,
/// if the content is a JSON object with a name and a time of change. The
/// profile is the active one if its file is called as the active one.
pub fn profile_summary(filename: String, content: &str, active: &String) -> (summary: Option<
    ProfileSummary,
>)
    ensures
        match (
            json_text_member(content@, "profileName"@),
            json_text_member(content@, "modifiedAt"@),
        ) {
            (Some(n), Some(m)) => summary matches Some(s) && s.filename == filename && s.name@ == n
                && s.modified_at@ == m && s.is_active == (filename@ == active@),
            _ => summary is None,
        },
{
    let name = json_member(content, "profileName");
    let modified_at = json_member(content, "modifiedAt");
    summary_of(filename, active, name, modified_at)
}

} // verus!
