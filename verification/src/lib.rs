//! Normalised names for the episodes of a series.
//!
//! A regular expression with the optional named groups `season` and `ep`
//! is applied to a file name; what it captures, together with the
//! configured defaults, is rendered as
//! `<name>.<year>.S<season>E<episode>.<source>.<clarity>.<encode>`.

pub mod config;
pub mod failure;
pub mod matcher;
pub mod media;
pub mod number;
pub mod pattern;
pub mod resource;
pub mod run;

pub use config::{Config, Policy};
pub use failure::Failure;
pub use matcher::{Captured, Rer};
pub use media::{Clarity, Encode, Source};
pub use resource::Resource;
pub use run::{Outcome, Run, Summary};
