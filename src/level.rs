//! The normalization levels. They form an append-only chain: a new level goes
//! after all existing ones, so that snapshots saved under an earlier level stay
//! reproducible as one of the variants.
use vstd::prelude::*;

verus! {

/// The number of normalization levels.
pub const LEVELS: usize = 20;

#[derive(Clone, Copy, Debug, PartialEq, Eq, Structural)]
pub enum Normalization {
    Basic,
    StripCouldNotCompile,
    StripCouldNotCompile2,
    StripForMoreInformation,
    StripForMoreInformation2,
    TrimEnd,
    RustLib,
    TypeDirBackslash,
    WorkspaceLines,
    PathDependencies,
    CargoRegistry,
    ArrowOtherCrate,
    RelativeToDir,
    LinesOutsideInputFile,
    Unindent,
    AndOthers,
    StripLongTypeNameFiles,
    UnindentAfterHelp,
    AndOthersVerbose,
    UnindentMultilineNote,
}

impl Normalization {
    /// The position of the level in the chain.
    pub open spec fn rank(self) -> int {
        match self {
            Normalization::Basic => 0,
            Normalization::StripCouldNotCompile => 1,
            Normalization::StripCouldNotCompile2 => 2,
            Normalization::StripForMoreInformation => 3,
            Normalization::StripForMoreInformation2 => 4,
            Normalization::TrimEnd => 5,
            Normalization::RustLib => 6,
            Normalization::TypeDirBackslash => 7,
            Normalization::WorkspaceLines => 8,
            Normalization::PathDependencies => 9,
            Normalization::CargoRegistry => 10,
            Normalization::ArrowOtherCrate => 11,
            Normalization::RelativeToDir => 12,
            Normalization::LinesOutsideInputFile => 13,
            Normalization::Unindent => 14,
            Normalization::AndOthers => 15,
            Normalization::StripLongTypeNameFiles => 16,
            Normalization::UnindentAfterHelp => 17,
            Normalization::AndOthersVerbose => 18,
            Normalization::UnindentMultilineNote => 19,
        }
    }

    /// Whether this level includes the rules of `other`.
    pub open spec fn includes(self, other: Normalization) -> bool {
        self.rank() >= other.rank()
    }

    pub fn index(self) -> (r: usize)
        ensures
            r as int == self.rank(),
            r < LEVELS,
    {
        match self {
            Normalization::Basic => 0,
            Normalization::StripCouldNotCompile => 1,
            Normalization::StripCouldNotCompile2 => 2,
            Normalization::StripForMoreInformation => 3,
            Normalization::StripForMoreInformation2 => 4,
            Normalization::TrimEnd => 5,
            Normalization::RustLib => 6,
            Normalization::TypeDirBackslash => 7,
            Normalization::WorkspaceLines => 8,
            Normalization::PathDependencies => 9,
            Normalization::CargoRegistry => 10,
            Normalization::ArrowOtherCrate => 11,
            Normalization::RelativeToDir => 12,
            Normalization::LinesOutsideInputFile => 13,
            Normalization::Unindent => 14,
            Normalization::AndOthers => 15,
            Normalization::StripLongTypeNameFiles => 16,
            Normalization::UnindentAfterHelp => 17,
            Normalization::AndOthersVerbose => 18,
            Normalization::UnindentMultilineNote => 19,
        }
    }

    pub fn at_least(self, other: Normalization) -> (r: bool)
        ensures
            r == self.includes(other),
    {
        self.index() >= other.index()
    }

    /// The level at position `i` of the chain.
    pub open spec fn spec_nth(i: int) -> Normalization {
        if i <= 0 {
            Normalization::Basic
        } else if i == 1 {
            Normalization::StripCouldNotCompile
        } else if i == 2 {
            Normalization::StripCouldNotCompile2
        } else if i == 3 {
            Normalization::StripForMoreInformation
        } else if i == 4 {
            Normalization::StripForMoreInformation2
        } else if i == 5 {
            Normalization::TrimEnd
        } else if i == 6 {
            Normalization::RustLib
        } else if i == 7 {
            Normalization::TypeDirBackslash
        } else if i == 8 {
            Normalization::WorkspaceLines
        } else if i == 9 {
            Normalization::PathDependencies
        } else if i == 10 {
            Normalization::CargoRegistry
        } else if i == 11 {
            Normalization::ArrowOtherCrate
        } else if i == 12 {
            Normalization::RelativeToDir
        } else if i == 13 {
            Normalization::LinesOutsideInputFile
        } else if i == 14 {
            Normalization::Unindent
        } else if i == 15 {
            Normalization::AndOthers
        } else if i == 16 {
            Normalization::StripLongTypeNameFiles
        } else if i == 17 {
            Normalization::UnindentAfterHelp
        } else if i == 18 {
            Normalization::AndOthersVerbose
        } else {
            Normalization::UnindentMultilineNote
        }
    }

    pub fn nth(i: usize) -> (r: Normalization)
        requires
            i < LEVELS,
        ensures
            r == Normalization::spec_nth(i as int),
            r.rank() == i as int,
    {
        if i == 0 {
            Normalization::Basic
        } else if i == 1 {
            Normalization::StripCouldNotCompile
        } else if i == 2 {
            Normalization::StripCouldNotCompile2
        } else if i == 3 {
            Normalization::StripForMoreInformation
        } else if i == 4 {
            Normalization::StripForMoreInformation2
        } else if i == 5 {
            Normalization::TrimEnd
        } else if i == 6 {
            Normalization::RustLib
        } else if i == 7 {
            Normalization::TypeDirBackslash
        } else if i == 8 {
            Normalization::WorkspaceLines
        } else if i == 9 {
            Normalization::PathDependencies
        } else if i == 10 {
            Normalization::CargoRegistry
        } else if i == 11 {
            Normalization::ArrowOtherCrate
        } else if i == 12 {
            Normalization::RelativeToDir
        } else if i == 13 {
            Normalization::LinesOutsideInputFile
        } else if i == 14 {
            Normalization::Unindent
        } else if i == 15 {
            Normalization::AndOthers
        } else if i == 16 {
            Normalization::StripLongTypeNameFiles
        } else if i == 17 {
            Normalization::UnindentAfterHelp
        } else if i == 18 {
            Normalization::AndOthersVerbose
        } else {
            Normalization::UnindentMultilineNote
        }
    }
}

} // verus!
