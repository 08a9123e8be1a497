//! Why a file is not renamed.

use vstd::prelude::*;

verus! {

/// Why a file could not be given its new name.
#[derive(Clone, Copy, Debug, PartialEq, Eq, Structural)]
pub enum Failure {
    /// The engine did not accept the configured pattern.
    Pattern,
    /// The season is not a number from 1 to 255: the text captured as
    /// `season` writes none, or no season was captured and the configured
    /// default is 0.
    Season,
    /// The text captured as `ep` is not a number from 1 to 255.
    Episode,
    /// The new name was already given to an earlier file of the run.
    Collision,
    /// The caller could not carry the rename out.
    Rename,
}

} // verus!
