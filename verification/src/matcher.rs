//! The matcher: from a file name to the resource it names.

use crate::config::{Config, Policy};
use crate::failure::Failure;
use crate::media::{Clarity, Encode, Source};
use crate::number::{decimal, lemma_parse_decimal, parse_positive, parsed_positive};
use crate::pattern::{capture_pair, compile, regex_group, regex_matches, Pattern};
use crate::resource::{Resource, ResourceView};
use crate::run::{decided, plan_view, Outcome, Run};
use vstd::prelude::*;

verus! {

/// The text of the two named groups of a match; `None` for a group that
/// the pattern lacks or that took no part in the match.
#[derive(Debug, PartialEq, Eq)]
pub struct Captured {
    pub season: Option<String>,
    pub ep: Option<String>,
}

/// A `Captured` as a mathematical value.
pub struct CapturedView {
    pub season: Option<Seq<char>>,
    pub ep: Option<Seq<char>>,
}

impl View for Captured {
    type V = CapturedView;

    open spec fn view(&self) -> CapturedView {
        CapturedView {
            season: match self.season {
                Some(text) => Some(text@),
                None => None,
            },
            ep: match self.ep {
                Some(text) => Some(text@),
                None => None,
            },
        }
    }
}

/// What the pattern finds in a file name: nothing where it does not match,
/// else the text of the groups `season` and `ep`.
pub open spec fn found(pattern: Seq<char>, filename: Seq<char>) -> Option<CapturedView> {
    if regex_matches(pattern, filename) {
        Some(
            CapturedView {
                season: regex_group(pattern, filename, "season"@),
                ep: regex_group(pattern, filename, "ep"@),
            },
        )
    } else {
        None
    }
}

/// The result of a parse with the strings taken by their views.
pub open spec fn parse_view(r: Result<Option<Resource>, Failure>) -> Result<
    Option<ResourceView>,
    Failure,
> {
    match r {
        Ok(Some(resource)) => Ok(Some(resource@)),
        Ok(None) => Ok(None),
        Err(failure) => Err(failure),
    }
}

/// The text of an optional extension.
pub open spec fn extension_view(extension: Option<&str>) -> Option<Seq<char>> {
    match extension {
        Some(e) => Some(e@),
        None => None,
    }
}

impl Config {
    /// The season of a file: the number from 1 to 255 that the captured
    /// text writes, or the default where none was captured. `None` where
    /// the text writes no such number, and where the default is used and
    /// is 0.
    pub open spec fn season_of(self, captured: CapturedView) -> Option<u8> {
        match captured.season {
            Some(text) => parsed_positive(text),
            None => if self.default_season() >= 1 {
                Some(self.default_season())
            } else {
                None
            },
        }
    }

    /// The episode of a file: the number from 1 to 255 that the captured
    /// text writes, or 1 where none was captured. `None` where the text
    /// writes no such number.
    pub open spec fn episode_of(self, captured: CapturedView) -> Option<u8> {
        match captured.ep {
            Some(text) => parsed_positive(text),
            None => Some(1u8),
        }
    }

    /// The resource that a file is given, from what the pattern found in
    /// its name.
    ///
    /// No match gives no resource, and neither does a match without an `ep`
    /// group under the strict policy. Otherwise a season that is no number
    /// from 1 to 255 is a failure, then an episode that is none; with both,
    /// the resource has that season and episode and the configured rest.
    pub open spec fn resolved(self, captured: Option<CapturedView>) -> Result<
        Option<ResourceView>,
        Failure,
    > {
        match captured {
            None => Ok(None),
            Some(c) => {
                if c.ep is None && self.policy == Policy::Strict {
                    Ok(None)
                } else if self.season_of(c) is None {
                    Err(Failure::Season)
                } else if self.episode_of(c) is None {
                    Err(Failure::Episode)
                } else {
                    Ok(Some(self.resource(self.season_of(c)->0, self.episode_of(c)->0)))
                }
            },
        }
    }

    /// The new name of a file, from what the pattern found in its old name
    /// and from its extension: the file name of the resolved resource. A
    /// file without a resource has no new name.
    pub open spec fn renamed(self, captured: Option<CapturedView>, extension: Option<Seq<char>>)
        -> Result<Option<Seq<char>>, Failure> {
        match self.resolved(captured) {
            Ok(Some(resource)) => Ok(Some(resource.file_name(extension))),
            Ok(None) => Ok(None),
            Err(failure) => Err(failure),
        }
    }
}

/// A file whose name the pattern does not match is given no resource and
/// no new name.
pub proof fn lemma_no_match_untouched(
    config: Config,
    filename: Seq<char>,
    extension: Option<Seq<char>>,
)
    requires
        !regex_matches(config.regex@, filename),
    ensures
        config.resolved(found(config.regex@, filename)) == Ok::<Option<ResourceView>, Failure>(
            None,
        ),
        config.renamed(found(config.regex@, filename), extension) == Ok::<
            Option<Seq<char>>,
            Failure,
        >(None),
{
}

/// Season and episode of a resource are at least 1, whatever was captured
/// and whatever is configured.
pub proof fn lemma_resource_is_positive(config: Config, captured: Option<CapturedView>)
    ensures
        config.resolved(captured) matches Ok(Some(resource)) ==> resource.season >= 1
            && resource.ep >= 1,
{
}

/// A match whose `ep` group writes an episode, and whose season is written
/// by the `season` group or is the default, is named after the template:
/// title, year, `S`, season, `E`, episode, source, clarity and codec,
/// joined by dots as shown, then a dot and the extension.
pub proof fn lemma_match_follows_template(
    config: Config,
    captured: CapturedView,
    extension: Seq<char>,
    season: u8,
    ep: u8,
)
    requires
        captured.ep matches Some(text) && parsed_positive(text) == Some(ep),
        config.season_of(captured) == Some(season),
    ensures
        config.renamed(Some(captured), Some(extension)) == Ok::<Option<Seq<char>>, Failure>(
            Some(
                config.default_name() + "."@ + decimal(config.default_year() as nat) + ".S"@
                    + decimal(season as nat) + "E"@ + decimal(ep as nat) + "."@
                    + config.default_source().label() + "."@ + config.default_clarity().label()
                    + "."@ + config.default_encode().label() + "."@ + extension,
            ),
        ),
{
}

/// Season and episode survive a round trip: where the groups capture the
/// two numerals as the canonical name of a resource writes them, the
/// resource that is read back has the season and the episode that were
/// written.
pub proof fn lemma_round_trip(config: Config, resource: ResourceView)
    requires
        resource.season >= 1,
        resource.ep >= 1,
    ensures
        config.resolved(
            Some(
                CapturedView {
                    season: Some(decimal(resource.season as nat)),
                    ep: Some(decimal(resource.ep as nat)),
                },
            ),
        ) == Ok::<Option<ResourceView>, Failure>(
            Some(config.resource(resource.season, resource.ep)),
        ),
{
    lemma_parse_decimal(resource.season);
    lemma_parse_decimal(resource.ep);
}

/// Under the strict policy a match without an `ep` group leaves the file
/// untouched, whatever the `season` group holds.
pub proof fn lemma_strict_needs_episode(
    config: Config,
    captured: CapturedView,
    extension: Option<Seq<char>>,
)
    requires
        config.policy == Policy::Strict,
        captured.ep is None,
    ensures
        config.resolved(Some(captured)) == Ok::<Option<ResourceView>, Failure>(None),
        config.renamed(Some(captured), extension) == Ok::<Option<Seq<char>>, Failure>(None),
{
}

/// Under the lenient policy a match without an `ep` group is episode 1 of
/// its season; a file without a season is the one case left out.
pub proof fn lemma_lenient_defaults_episode(config: Config, captured: CapturedView)
    requires
        config.policy == Policy::Lenient,
        captured.ep is None,
        config.season_of(captured) is Some,
    ensures
        config.resolved(Some(captured)) == Ok::<Option<ResourceView>, Failure>(
            Some(config.resource(config.season_of(captured)->0, 1)),
        ),
{
}

/// The filename matcher: a configuration, with its pattern compiled. Its
/// view is the configuration.
pub struct Rer {
    config: Config,
    pattern: Pattern,
}

impl View for Rer {
    type V = Config;

    closed spec fn view(&self) -> Config {
        self.config
    }
}

impl Rer {
    #[verifier::type_invariant]
    spec fn holds_its_pattern(self) -> bool {
        self.pattern@ == self.config.regex@
    }

    /// A matcher with the given configuration, its pattern compiled once
    /// and for all.
    ///
    /// The engine alone decides whether it accepts the pattern: where it
    /// does not, there is no matcher, and the error is `Failure::Pattern`.
    pub fn new(config: Config) -> (r: Result<Rer, Failure>)
        ensures
            r matches Ok(rer) ==> rer@ == config,
            r matches Err(failure) ==> failure == Failure::Pattern,
    {
        match compile(config.regex.as_str()) {
            Ok(pattern) => Ok(Rer { config, pattern }),
            Err(_) => Err(Failure::Pattern),
        }
    }

    /// The configuration of the matcher.
    pub fn config(&self) -> (config: &Config)
        ensures
            *config == self@,
    {
        &self.config
    }

    /// Builds the resource from what the pattern found.
    pub fn resolve(&self, captured: Option<&Captured>) -> (r: Result<Option<Resource>, Failure>)
        ensures
            parse_view(r) == self@.resolved(
                match captured {
                    Some(c) => Some(c@),
                    None => None,
                },
            ),
            r matches Ok(Some(resource)) ==> resource.season >= 1 && resource.ep >= 1,
    {
        let config = &self.config;
        let c = match captured {
            Some(c) => c,
            None => {
                return Ok(None);
            },
        };
        let ep = match &c.ep {
            Some(text) => parse_positive(text.as_str()),
            None => {
                match config.policy {
                    Policy::Strict => {
                        return Ok(None);
                    },
                    Policy::Lenient => Some(1u8),
                }
            },
        };
        let season = match &c.season {
            Some(text) => parse_positive(text.as_str()),
            None => match config.season {
                Some(0) => None,
                Some(season) => Some(season),
                None => Some(1u8),
            },
        };
        let season = match season {
            Some(season) => season,
            None => {
                return Err(Failure::Season);
            },
        };
        let ep = match ep {
            Some(ep) => ep,
            None => {
                return Err(Failure::Episode);
            },
        };
        Ok(
            Some(
                Resource {
                    name: match &config.name {
                        Some(name) => name.clone(),
                        None => String::new(),
                    },
                    year: match config.year {
                        Some(year) => year,
                        None => 2023,
                    },
                    season,
                    ep,
                    source: match config.source {
                        Some(source) => source,
                        None => Source::WEB_DL,
                    },
                    encode: match config.encode {
                        Some(encode) => encode,
                        None => Encode::H264,
                    },
                    clarity: match config.clarity {
                        Some(clarity) => clarity,
                        None => Clarity::C1080p,
                    },
                },
            ),
        )
    }

    /// Applies the pattern to `filename` and builds the resource from what
    /// it finds.
    pub fn parse(&self, filename: &str) -> (r: Result<Option<Resource>, Failure>)
        ensures
            parse_view(r) == self@.resolved(found(self@.regex@, filename@)),
            r matches Ok(Some(resource)) ==> resource.season >= 1 && resource.ep >= 1,
    {
        proof {
            use_type_invariant(self);
        }
        match capture_pair(&self.pattern, filename, "season", "ep") {
            None => self.resolve(None),
            Some((season, ep)) => {
                let captured = Captured { season, ep };
                self.resolve(Some(&captured))
            },
        }
    }

    /// The new name of the file called `filename`: the canonical base name
    /// of its resource, a dot, and `extension` or `mp4` where there is
    /// none. `Ok(None)` for a file that is to be left alone.
    pub fn new_name(&self, filename: &str, extension: Option<&str>) -> (r: Result<
        Option<String>,
        Failure,
    >)
        ensures
            plan_view(r) == self@.renamed(
                found(self@.regex@, filename@),
                extension_view(extension),
            ),
    {
        match self.parse(filename) {
            Ok(Some(resource)) => Ok(Some(resource.file_name(extension))),
            Ok(None) => Ok(None),
            Err(failure) => Err(failure),
        }
    }

    /// Decides what becomes of the file called `filename` in the run
    /// recorded by `run`, and adds the decision to the record: the new name
    /// is granted unless an earlier file of the run has it.
    pub fn process(&self, run: &mut Run, filename: &str, extension: Option<&str>) -> (outcome:
        Outcome)
        ensures
            outcome@ == decided(
                old(run)@,
                self@.renamed(found(self@.regex@, filename@), extension_view(extension)),
            ),
            final(run)@ == old(run)@.push(outcome@),
    {
        run.decide(self.new_name(filename, extension))
    }
}

} // verus!
