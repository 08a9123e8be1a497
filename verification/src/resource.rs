//! The metadata of one episode and the file name it is given.

use crate::media::{Clarity, Encode, Source};
use crate::number::{append_decimal, decimal};
use vstd::prelude::*;

verus! {

/// The metadata that describes one media file.
#[derive(Debug, PartialEq, Eq)]
pub struct Resource {
    /// Display title; may be empty.
    pub name: String,
    pub year: u32,
    pub season: u8,
    pub ep: u8,
    pub source: Source,
    pub encode: Encode,
    pub clarity: Clarity,
}

/// A `Resource` as a mathematical value.
pub struct ResourceView {
    pub name: Seq<char>,
    pub year: u32,
    pub season: u8,
    pub ep: u8,
    pub source: Source,
    pub encode: Encode,
    pub clarity: Clarity,
}

impl View for Resource {
    type V = ResourceView;

    open spec fn view(&self) -> ResourceView {
        ResourceView {
            name: self.name@,
            year: self.year,
            season: self.season,
            ep: self.ep,
            source: self.source,
            encode: self.encode,
            clarity: self.clarity,
        }
    }
}

/// The extension given to a file that has none.
pub open spec fn fallback_extension() -> Seq<char> {
    "mp4"@
}

impl ResourceView {
    /// The canonical base name,
    /// `<name>.<year>.S<season>E<episode>.<source>.<clarity>.<encode>`:
    /// the numbers in decimal without padding, the three properties by
    /// their labels.
    pub open spec fn formatted(self) -> Seq<char> {
        self.name + "."@ + decimal(self.year as nat) + ".S"@ + decimal(self.season as nat) + "E"@
            + decimal(self.ep as nat) + "."@ + self.source.label() + "."@ + self.clarity.label()
            + "."@ + self.encode.label()
    }

    /// The canonical base name followed by a dot and the extension, `mp4`
    /// standing in for a missing one.
    pub open spec fn file_name(self, extension: Option<Seq<char>>) -> Seq<char> {
        self.formatted() + "."@ + match extension {
            Some(e) => e,
            None => fallback_extension(),
        }
    }
}

/// A file without an extension gets `.mp4` after the canonical base name.
pub proof fn lemma_missing_extension(resource: ResourceView)
    ensures
        resource.file_name(None) == resource.formatted() + ".mp4"@,
{
    reveal_strlit(".");
    reveal_strlit("mp4");
    reveal_strlit(".mp4");
}

impl Resource {
    /// Renders the canonical base name.
    pub fn to_string(&self) -> (s: String)
        ensures
            s@ == self@.formatted(),
    {
        let mut out = self.name.clone();
        out.append(".");
        append_decimal(&mut out, self.year);
        out.append(".S");
        append_decimal(&mut out, self.season as u32);
        out.append("E");
        append_decimal(&mut out, self.ep as u32);
        out.append(".");
        out.append(self.source.to_string().as_str());
        out.append(".");
        out.append(self.clarity.to_string().as_str());
        out.append(".");
        out.append(self.encode.to_string().as_str());
        out
    }

    /// Renders the full file name: the canonical base name, a dot, and the
    /// extension of the file or `mp4` where it had none.
    pub fn file_name(&self, extension: Option<&str>) -> (s: String)
        ensures
            s@ == self@.file_name(
                match extension {
                    Some(e) => Some(e@),
                    None => None,
                },
            ),
    {
        let mut out = self.to_string();
        out.append(".");
        match extension {
            Some(e) => out.append(e),
            None => out.append("mp4"),
        }
        out
    }
}

} // verus!
