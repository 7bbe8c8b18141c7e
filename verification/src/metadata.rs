//! The tags of a track as they are handed to callers, cover picture
//! included, and the image types a cover can have.

use vstd::prelude::*;
use vstd::string::StringExecFns;

use crate::music::Labels;
use crate::text::{contains, has_part, occurs_at, strip_char, without};

verus! {

/// The image formats a cover picture comes in.
#[derive(Clone, Copy, Debug, PartialEq, Eq, Structural)]
pub enum MimeType {
    Png,
    Jpeg,
    Tiff,
    Bmp,
    Gif,
}

/// The type of a cover picture. On the wire it travels as its name.
#[derive(Clone, Copy, Debug, PartialEq, Eq, Structural)]
pub struct ImageType(pub MimeType);

impl ImageType {
    /// The name under which the type travels.
    pub open spec fn name_text(self) -> Seq<char> {
        match self.0 {
            MimeType::Png => "Png"@,
            MimeType::Jpeg => "Jpeg"@,
            MimeType::Tiff => "Tiff"@,
            MimeType::Bmp => "Bmp"@,
            MimeType::Gif => "Gif"@,
        }
    }

    /// The type that a text names: the first of `Jpeg`, `Png`, `Tiff`,
    /// `Bmp`, `Gif` that stands anywhere in it.
    pub open spec fn named_in(text: Seq<char>) -> Option<ImageType> {
        if has_part(text, "Jpeg"@) {
            Some(ImageType(MimeType::Jpeg))
        } else if has_part(text, "Png"@) {
            Some(ImageType(MimeType::Png))
        } else if has_part(text, "Tiff"@) {
            Some(ImageType(MimeType::Tiff))
        } else if has_part(text, "Bmp"@) {
            Some(ImageType(MimeType::Bmp))
        } else if has_part(text, "Gif"@) {
            Some(ImageType(MimeType::Gif))
        } else {
            None
        }
    }

    /// Writes the type's name.
    pub fn name(&self) -> (out: String)
        ensures
            out@ == self.name_text(),
    {
        match self.0 {
            MimeType::Png => String::from_str("Png"),
            MimeType::Jpeg => String::from_str("Jpeg"),
            MimeType::Tiff => String::from_str("Tiff"),
            MimeType::Bmp => String::from_str("Bmp"),
            MimeType::Gif => String::from_str("Gif"),
        }
    }

    /// Reads a type from a text that holds its name; `None` where the text
    /// names no type.
    pub fn from_name(text: &str) -> (found: Option<ImageType>)
        ensures
            found == Self::named_in(text@),
    {
        if contains(text, "Jpeg") {
            Some(ImageType(MimeType::Jpeg))
        } else if contains(text, "Png") {
            Some(ImageType(MimeType::Png))
        } else if contains(text, "Tiff") {
            Some(ImageType(MimeType::Tiff))
        } else if contains(text, "Bmp") {
            Some(ImageType(MimeType::Bmp))
        } else if contains(text, "Gif") {
            Some(ImageType(MimeType::Gif))
        } else {
            None
        }
    }
}

/// A text that nowhere holds the first character of `needle` does not hold
/// `needle`; nor does a text that is shorter.
proof fn lemma_not_a_part(hay: Seq<char>, needle: Seq<char>)
    requires
        needle.len() > 0,
        hay.len() < needle.len() || forall|i: int| 0 <= i < hay.len() ==> hay[i] != needle[0],
    ensures
        !has_part(hay, needle),
{
    assert forall|at: int| !occurs_at(hay, needle, at) by {
        if occurs_at(hay, needle, at) {
            assert(hay.subrange(at, at + needle.len())[0] == hay[at]);
        }
    }
}

/// A type's name names that type: what is written by [`ImageType::name`]
/// is read back by [`ImageType::from_name`] as the same type.
pub proof fn law_name_round_trip(image: ImageType)
    ensures
        ImageType::named_in(image.name_text()) == Some(image),
{
    reveal_strlit("Png");
    reveal_strlit("Jpeg");
    reveal_strlit("Tiff");
    reveal_strlit("Bmp");
    reveal_strlit("Gif");
    let name = image.name_text();
    assert(name.subrange(0, name.len() as int) =~= name);
    assert(occurs_at(name, name, 0));
    match image.0 {
        MimeType::Jpeg => {},
        MimeType::Png => {
            lemma_not_a_part(name, "Jpeg"@);
        },
        MimeType::Tiff => {
            lemma_not_a_part(name, "Jpeg"@);
            lemma_not_a_part(name, "Png"@);
        },
        MimeType::Bmp => {
            lemma_not_a_part(name, "Jpeg"@);
            lemma_not_a_part(name, "Png"@);
            lemma_not_a_part(name, "Tiff"@);
        },
        MimeType::Gif => {
            lemma_not_a_part(name, "Jpeg"@);
            lemma_not_a_part(name, "Png"@);
            lemma_not_a_part(name, "Tiff"@);
            lemma_not_a_part(name, "Bmp"@);
        },
    }
}

/// A cover picture: the image's bytes and their type.
#[derive(Clone, Debug, PartialEq, Eq)]
pub struct Picture {
    pub data: Vec<u8>,
    pub tp: ImageType,
}

/// What a tag reader found in a file.
#[derive(Clone, Debug, PartialEq, Eq)]
pub struct Tags {
    pub labels: Labels,
    pub cover: Option<Picture>,
}

/// The tags of the current track, with something to show in every field.
#[derive(Clone, Debug, PartialEq, Eq)]
pub struct Metadata {
    pub title: String,
    pub artist: String,
    pub genre: String,
    pub cover: Picture,
}

/// A field as it is shown: the text without its NUL characters, `Unknown`
/// where the tag has no such field.
pub open spec fn shown(field: Option<String>) -> Seq<char> {
    match field {
        Some(text) => without(text@, '\0'),
        None => "Unknown"@,
    }
}

/// Prepares a field for showing.
pub fn show(field: Option<String>) -> (out: String)
    ensures
        out@ == shown(field),
{
    match field {
        Some(text) => strip_char(text.as_str(), '\0'),
        None => String::from_str("Unknown"),
    }
}

impl Picture {
    /// The picture shown where a track has no cover: a single zero byte,
    /// marked as JPEG.
    pub fn blank() -> (picture: Picture)
        ensures
            picture.data@ == seq![0u8],
            picture.tp == ImageType(MimeType::Jpeg),
    {
        let mut data: Vec<u8> = Vec::new();
        data.push(0);
        assert(data@ =~= seq![0u8]);
        Picture { data, tp: ImageType(MimeType::Jpeg) }
    }
}

impl Metadata {
    /// The record that stands for a file whose tags cannot be read.
    pub open spec fn is_unreadable(self) -> bool {
        &&& self.title@ == "None"@
        &&& self.artist@ == "None"@
        &&& self.genre@ == "None"@
        &&& self.cover.data@ == seq![0u8]
        &&& self.cover.tp == ImageType(MimeType::Jpeg)
    }

    /// The record that shows `tags`.
    pub open spec fn shows(self, tags: Tags) -> bool {
        &&& self.title@ == shown(tags.labels.title)
        &&& self.artist@ == shown(tags.labels.artist)
        &&& self.genre@ == shown(tags.labels.genre)
        &&& match tags.cover {
            Some(cover) => self.cover.data@ == cover.data@ && self.cover.tp == cover.tp,
            None => self.cover.data@ == seq![0u8] && self.cover.tp == ImageType(MimeType::Jpeg),
        }
    }
}

} // verus!
