//! What the user configures: the pattern, the policy on a missing episode
//! group, and the values that the file name itself does not supply.

use crate::media::{Clarity, Encode, Source};
use crate::resource::ResourceView;
use vstd::prelude::*;

verus! {

/// What to do with a file name that the pattern matches without capturing
/// an `ep` group.
#[derive(Clone, Copy, Debug, PartialEq, Eq, Structural)]
pub enum Policy {
    /// The file is passed over.
    Strict,
    /// The file is taken, as episode 1.
    Lenient,
}

/// The configuration of a run. Every field but the pattern and the policy
/// is optional and has a documented default.
#[derive(Debug, PartialEq, Eq)]
pub struct Config {
    /// Directory to scan; the library does not read it.
    pub path: Option<String>,
    /// The regular expression applied to each file name.
    pub regex: String,
    /// Title; empty by default.
    pub name: Option<String>,
    /// Year; 2023 by default.
    pub year: Option<u32>,
    /// Season of a file name that captures none; 1 by default. A season is
    /// at least 1: with 0 here, a file name that captures no season fails.
    pub season: Option<u8>,
    /// `WEB_DL` by default.
    pub source: Option<Source>,
    /// `1080p` by default.
    pub clarity: Option<Clarity>,
    /// `H264` by default.
    pub encode: Option<Encode>,
    pub policy: Policy,
}

impl Config {
    /// The configured title, or the empty one.
    pub open spec fn default_name(self) -> Seq<char> {
        match self.name {
            Some(name) => name@,
            None => Seq::empty(),
        }
    }

    /// The configured year, or 2023.
    pub open spec fn default_year(self) -> u32 {
        match self.year {
            Some(year) => year,
            None => 2023,
        }
    }

    /// The configured season, or 1.
    pub open spec fn default_season(self) -> u8 {
        match self.season {
            Some(season) => season,
            None => 1,
        }
    }

    /// The configured source, or `WEB_DL`.
    pub open spec fn default_source(self) -> Source {
        match self.source {
            Some(source) => source,
            None => Source::WEB_DL,
        }
    }

    /// The configured resolution tier, or `1080p`.
    pub open spec fn default_clarity(self) -> Clarity {
        match self.clarity {
            Some(clarity) => clarity,
            None => Clarity::C1080p,
        }
    }

    /// The configured codec, or `H264`.
    pub open spec fn default_encode(self) -> Encode {
        match self.encode {
            Some(encode) => encode,
            None => Encode::H264,
        }
    }

    /// The resource of the given season and episode: everything else comes
    /// from the configuration.
    pub open spec fn resource(self, season: u8, ep: u8) -> ResourceView {
        ResourceView {
            name: self.default_name(),
            year: self.default_year(),
            season,
            ep,
            source: self.default_source(),
            encode: self.default_encode(),
            clarity: self.default_clarity(),
        }
    }
}

} // verus!
