//! The catalog's data: factors, units, categories, and their mathematical views.

use vstd::prelude::*;

verus! {

/// A scale factor, held as the bit pattern of an IEEE-754 double.
#[derive(Clone, Copy, Debug, PartialEq, Eq, Structural)]
pub struct Factor {
    pub bits: u64,
}

/// The sign bit of a double: alone, it is the bit pattern of negative zero.
pub const SIGN_BIT: u64 = 0x8000_0000_0000_0000;

impl Factor {
    /// Whether the bits stand for positive or negative zero.
    pub open spec fn spec_is_zero(&self) -> bool {
        self.bits == 0 || self.bits == SIGN_BIT
    }

    /// Tells whether the factor is zero, so that dividing by it is undefined.
    #[verifier::when_used_as_spec(spec_is_zero)]
    pub fn is_zero(&self) -> (zero: bool)
        ensures
            zero == self.spec_is_zero(),
    {
        self.bits == 0 || self.bits == SIGN_BIT
    }
}

/// A unit of measurement.
#[derive(Clone, Debug, PartialEq, Eq)]
pub struct Unit {
    /// Display name.
    pub name: String,
    /// Short identifier by which the unit is looked up within its category.
    pub abbreviation: String,
    /// Name of the category that owns the unit.
    pub category: String,
    /// Magnitude of the unit relative to the base unit of its category.
    pub conversion_factor: Factor,
}

/// What a [`Unit`] holds, as mathematical values.
pub struct UnitView {
    pub name: Seq<char>,
    pub abbreviation: Seq<char>,
    pub category: Seq<char>,
    pub conversion_factor: Factor,
}

impl View for Unit {
    type V = UnitView;

    open spec fn view(&self) -> UnitView {
        UnitView {
            name: self.name@,
            abbreviation: self.abbreviation@,
            category: self.category@,
            conversion_factor: self.conversion_factor,
        }
    }
}

/// A named group of units that convert into one another.
#[derive(Clone, Debug, PartialEq, Eq)]
pub struct Category {
    pub name: String,
    /// The units, in display order.
    pub units: Vec<Unit>,
}

/// What a [`Category`] holds, as mathematical values.
pub struct CategoryView {
    pub name: Seq<char>,
    pub units: Seq<UnitView>,
}

impl View for Category {
    type V = CategoryView;

    open spec fn view(&self) -> CategoryView {
        CategoryView { name: self.name@, units: self.units@.map_values(|u: Unit| u@) }
    }
}

/// The whole catalog: categories in display order.
#[derive(Clone, Debug, PartialEq, Eq)]
pub struct Catalog {
    pub categories: Vec<Category>,
}

impl View for Catalog {
    type V = Seq<CategoryView>;

    open spec fn view(&self) -> Seq<CategoryView> {
        self.categories@.map_values(|c: Category| c@)
    }
}

} // verus!
