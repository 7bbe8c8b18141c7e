//! The track as it is listed: title, artist, genre, length and path.

use vstd::prelude::*;
use vstd::string::StringExecFns;

verus! {

/// The text fields of a tag; a field the tag does not carry is `None`.
#[derive(Clone, Debug, PartialEq, Eq)]
pub struct Labels {
    pub title: Option<String>,
    pub artist: Option<String>,
    pub genre: Option<String>,
}

/// What probing a path for an audio file came to.
#[derive(Clone, Debug, PartialEq, Eq)]
pub enum Probe {
    /// The file could not be opened.
    Unopened,
    /// The file was opened, but it is no audio file that can be read.
    Unreadable,
    /// The file was read: its name without the directories, the track's
    /// length in milliseconds, and its primary tag where it has one.
    Read { file_name: String, length: u64, tag: Option<Labels> },
}

impl Probe {
    /// The title to list a track under when only the probe is to go by: the
    /// tag's title, else the file's name, and `Default` for a file that
    /// could not be probed.
    pub open spec fn title(self) -> Seq<char> {
        match self {
            Probe::Read { file_name, tag: Some(labels), .. } => match labels.title {
                Some(title) => title@,
                None => file_name@,
            },
            Probe::Read { file_name, tag: None, .. } => file_name@,
            _ => "Default"@,
        }
    }
}

/// A track as it is listed. `length` is in milliseconds.
#[derive(Clone, Debug, PartialEq, Eq, PartialOrd, Ord)]
pub struct Music {
    pub title: String,
    pub length: u64,
    pub path: String,
    pub artist: String,
    pub genre: String,
}

/// A field of a tag, `Unknown` where the tag does not carry it.
pub open spec fn known(field: Option<String>) -> Seq<char> {
    match field {
        Some(text) => text@,
        None => "Unknown"@,
    }
}

/// The text of a field, `Unknown` where the tag does not carry it.
pub fn or_unknown(field: Option<String>) -> (out: String)
    ensures
        out@ == known(field),
{
    match field {
        Some(text) => text,
        None => String::from_str("Unknown"),
    }
}

impl Default for Music {
    /// The empty record.
    fn default() -> (music: Music)
        ensures
            music.title@.len() == 0,
            music.length == 0,
            music.path@.len() == 0,
            music.artist@.len() == 0,
            music.genre@.len() == 0,
    {
        Music {
            title: String::new(),
            length: 0,
            path: String::new(),
            artist: String::new(),
            genre: String::new(),
        }
    }
}

impl Music {
    /// The record for a track of which little is known: titled from the
    /// probe, of unknown artist and genre, and of no length.
    pub fn new(path: String, probe: Probe) -> (music: Music)
        ensures
            music.title@ == probe.title(),
            music.length == 0,
            music.path@ == path@,
            music.artist@ == "Unknown"@,
            music.genre@ == "Unknown"@,
    {
        let title = match probe {
            Probe::Read { file_name, length: _, tag } => match tag {
                Some(labels) => match labels.title {
                    Some(title) => title,
                    None => file_name,
                },
                None => file_name,
            },
            _ => String::from_str("Default"),
        };
        Music {
            title,
            length: 0,
            path,
            artist: String::from_str("Unknown"),
            genre: String::from_str("Unknown"),
        }
    }

    /// The record for the track at `path`, given what probing it came to.
    pub open spec fn lists(self, path: Seq<char>, probe: Probe) -> bool {
        &&& self.path@ == path
        &&& match probe {
            Probe::Read { length, tag: Some(labels), .. } => {
                &&& self.title@ == known(labels.title)
                &&& self.artist@ == known(labels.artist)
                &&& self.genre@ == known(labels.genre)
                &&& self.length == length
            },
            Probe::Read { length, tag: None, .. } => {
                &&& self.title@.len() == 0
                &&& self.artist@.len() == 0
                &&& self.genre@.len() == 0
                &&& self.length == length
            },
            _ => {
                &&& self.title@ == "Default"@
                &&& self.artist@ == "Unknown"@
                &&& self.genre@ == "Unknown"@
                &&& self.length == 0
            },
        }
    }
}

} // verus!
