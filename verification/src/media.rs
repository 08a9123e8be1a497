//! The three labelled properties of a release: where it was taken from,
//! its resolution tier and its codec.

use vstd::prelude::*;

verus! {

/// Acquisition origin of the media.
#[allow(non_camel_case_types)]
#[derive(Clone, Copy, Debug, PartialEq, Eq, PartialOrd, Ord, Structural)]
pub enum Source {
    /// Web distribution.
    WEB_DL,
    /// Broadcast capture.
    HDTV,
    /// Optical disc.
    DVD,
}

/// Resolution tier.
#[derive(Clone, Copy, Debug, PartialEq, Eq, PartialOrd, Ord, Structural)]
pub enum Clarity {
    C720p,
    C1080p,
    C2k,
    C4k,
}

/// Video compression codec.
#[derive(Clone, Copy, Debug, PartialEq, Eq, PartialOrd, Ord, Structural)]
pub enum Encode {
    H264,
    H265,
    HEVC,
}

impl Source {
    /// The canonical label of the source.
    pub open spec fn label(self) -> Seq<char> {
        match self {
            Source::WEB_DL => "WEB_DL"@,
            Source::HDTV => "HDTV"@,
            Source::DVD => "DVD"@,
        }
    }

    /// The canonical label, as an owned string.
    pub fn to_string(&self) -> (s: String)
        ensures
            s@ == self.label(),
    {
        match self {
            Source::WEB_DL => "WEB_DL".to_owned(),
            Source::HDTV => "HDTV".to_owned(),
            Source::DVD => "DVD".to_owned(),
        }
    }
}

impl Clarity {
    /// The canonical label of the resolution tier.
    pub open spec fn label(self) -> Seq<char> {
        match self {
            Clarity::C720p => "720p"@,
            Clarity::C1080p => "1080p"@,
            Clarity::C2k => "2k"@,
            Clarity::C4k => "4k"@,
        }
    }

    /// The canonical label, as an owned string.
    pub fn to_string(&self) -> (s: String)
        ensures
            s@ == self.label(),
    {
        match self {
            Clarity::C720p => "720p".to_owned(),
            Clarity::C1080p => "1080p".to_owned(),
            Clarity::C2k => "2k".to_owned(),
            Clarity::C4k => "4k".to_owned(),
        }
    }
}

impl Encode {
    /// The canonical label of the codec.
    pub open spec fn label(self) -> Seq<char> {
        match self {
            Encode::H264 => "H264"@,
            Encode::H265 => "H265"@,
            Encode::HEVC => "HEVC"@,
        }
    }

    /// The canonical label, as an owned string.
    pub fn to_string(&self) -> (s: String)
        ensures
            s@ == self.label(),
    {
        match self {
            Encode::H264 => "H264".to_owned(),
            Encode::H265 => "H265".to_owned(),
            Encode::HEVC => "HEVC".to_owned(),
        }
    }
}

} // verus!
