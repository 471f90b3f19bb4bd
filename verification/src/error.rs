//! The failures that loading a catalog and resolving a conversion report.

use vstd::prelude::*;

verus! {

/// Which side of a conversion a unit stands on.
#[derive(Clone, Copy, Debug, PartialEq, Eq, Structural)]
pub enum Direction {
    /// The unit the value is given in.
    Source,
    /// The unit the value is converted to.
    Target,
}

/// Why a conversion request was refused.
#[derive(Clone, Copy, Debug, PartialEq, Eq, Structural)]
pub enum ConversionError {
    /// No category of the catalog has the requested name.
    CategoryNotFound,
    /// No unit of the category has the requested abbreviation.
    UnitNotFound(Direction),
    /// The two unit records handed in name different categories.
    CategoryMismatch,
    /// The target unit's factor is zero.
    InvalidConversionFactor,
}

/// Why no catalog could be loaded.
#[derive(Clone, Copy, Debug, PartialEq, Eq, Structural)]
pub enum LoadError {
    /// The source is missing or cannot be read.
    NotFound,
    /// The source does not hold a well-formed catalog.
    Malformed,
}

impl ConversionError {
    /// The line shown to a user for each failure.
    pub open spec fn spec_message(self) -> Seq<char> {
        match self {
            ConversionError::CategoryNotFound => "Category not found"@,
            ConversionError::UnitNotFound(_) => "Unit not found"@,
            ConversionError::CategoryMismatch => "Units are not in the same category."@,
            ConversionError::InvalidConversionFactor => "Conversion factor of the target unit is zero"@,
        }
    }

    /// Renders the failure as a line of text.
    pub fn message(&self) -> (line: &'static str)
        ensures
            line@ == self.spec_message(),
    {
        match self {
            ConversionError::CategoryNotFound => "Category not found",
            ConversionError::UnitNotFound(_) => "Unit not found",
            ConversionError::CategoryMismatch => "Units are not in the same category.",
            ConversionError::InvalidConversionFactor => "Conversion factor of the target unit is zero",
        }
    }
}

impl LoadError {
    /// The line shown to a user for each failure.
    pub open spec fn spec_message(self) -> Seq<char> {
        match self {
            LoadError::NotFound => "Catalog source not found"@,
            LoadError::Malformed => "Catalog source is malformed"@,
        }
    }

    /// Renders the failure as a line of text.
    pub fn message(&self) -> (line: &'static str)
        ensures
            line@ == self.spec_message(),
    {
        match self {
            LoadError::NotFound => "Catalog source not found",
            LoadError::Malformed => "Catalog source is malformed",
        }
    }
}

} // verus!
