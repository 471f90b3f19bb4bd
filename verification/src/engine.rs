//! Lookup in the catalog and the resolution of a conversion request.
//!
//! Lookup is by exact match, and the first match wins: a later category or
//! unit with the same key is never reached.

use crate::error::{ConversionError, Direction};
use crate::model::{Catalog, Category, CategoryView, Factor, Unit, UnitView};
use vstd::prelude::*;

verus! {

/// The two scale factors of a resolved conversion. A value in the source unit
/// becomes `value * from_factor / to_factor` in the target unit.
#[derive(Clone, Copy, Debug, PartialEq, Eq, Structural)]
pub struct Conversion {
    /// Factor of the unit the value is given in.
    pub from_factor: Factor,
    /// Factor of the unit the value is converted to; never zero in a
    /// conversion that [`convert`] or [`convert_unit`] resolved.
    pub to_factor: Factor,
}

/// `i` is the first index at which `key` stands in `keys`.
pub open spec fn is_first_position(keys: Seq<Seq<char>>, key: Seq<char>, i: int) -> bool {
    &&& 0 <= i < keys.len()
    &&& keys[i] == key
    &&& forall|j: int| 0 <= j < i ==> keys[j] != key
}

/// The first index at which `key` stands in `keys`, if it stands there at all.
pub open spec fn first_position(keys: Seq<Seq<char>>, key: Seq<char>) -> Option<int> {
    if exists|i: int| is_first_position(keys, key, i) {
        Some(choose|i: int| is_first_position(keys, key, i))
    } else {
        None
    }
}

/// The names of the categories, in catalog order.
pub open spec fn category_names(catalog: Seq<CategoryView>) -> Seq<Seq<char>> {
    catalog.map_values(|c: CategoryView| c.name)
}

/// The abbreviations of the units, in the category's order.
pub open spec fn unit_abbreviations(units: Seq<UnitView>) -> Seq<Seq<char>> {
    units.map_values(|u: UnitView| u.abbreviation)
}

/// The name and abbreviation of each unit, in the category's order.
pub open spec fn unit_labels(units: Seq<UnitView>) -> Seq<(Seq<char>, Seq<char>)> {
    units.map_values(|u: UnitView| (u.name, u.abbreviation))
}

/// The convention that catalogs follow, though nothing enforces it: no two
/// categories share a name, and within a category no two units share an
/// abbreviation.
pub open spec fn well_formed(catalog: Seq<CategoryView>) -> bool {
    &&& category_names(catalog).no_duplicates()
    &&& forall|c: int|
        0 <= c < catalog.len() ==> unit_abbreviations(#[trigger] catalog[c].units).no_duplicates()
}

/// The first category of the catalog with the given name.
pub open spec fn first_category(catalog: Seq<CategoryView>, name: Seq<char>) -> Option<
    CategoryView,
> {
    match first_position(category_names(catalog), name) {
        Some(i) => Some(catalog[i]),
        None => None,
    }
}

/// The first of the units with the given abbreviation.
pub open spec fn first_unit(units: Seq<UnitView>, abbreviation: Seq<char>) -> Option<UnitView> {
    match first_position(unit_abbreviations(units), abbreviation) {
        Some(i) => Some(units[i]),
        None => None,
    }
}

/// What a conversion request resolves to: the category by name, then the
/// source unit, then the target unit, each by first exact match; a target
/// whose factor is zero is refused.
pub open spec fn conversion_of(
    catalog: Seq<CategoryView>,
    category_name: Seq<char>,
    from_abbreviation: Seq<char>,
    to_abbreviation: Seq<char>,
) -> Result<Conversion, ConversionError> {
    match first_category(catalog, category_name) {
        None => Err(ConversionError::CategoryNotFound),
        Some(category) => match first_unit(category.units, from_abbreviation) {
            None => Err(ConversionError::UnitNotFound(Direction::Source)),
            Some(from_unit) => match first_unit(category.units, to_abbreviation) {
                None => Err(ConversionError::UnitNotFound(Direction::Target)),
                Some(to_unit) => if to_unit.conversion_factor.is_zero() {
                    Err(ConversionError::InvalidConversionFactor)
                } else {
                    Ok(
                        Conversion {
                            from_factor: from_unit.conversion_factor,
                            to_factor: to_unit.conversion_factor,
                        },
                    )
                },
            },
        },
    }
}

/// What a request made with two unit records resolves to: records that name
/// different categories are refused before the catalog is consulted;
/// otherwise only their abbreviations count.
pub open spec fn unit_conversion_of(
    from_unit: UnitView,
    to_unit: UnitView,
    catalog: Seq<CategoryView>,
    category_name: Seq<char>,
) -> Result<Conversion, ConversionError> {
    if from_unit.category != to_unit.category {
        Err(ConversionError::CategoryMismatch)
    } else {
        conversion_of(catalog, category_name, from_unit.abbreviation, to_unit.abbreviation)
    }
}

/// A first position is the only one: whoever finds one has found the position.
pub proof fn lemma_first_position_found(keys: Seq<Seq<char>>, key: Seq<char>, i: int)
    requires
        is_first_position(keys, key, i),
    ensures
        first_position(keys, key) == Some(i),
{
    let chosen = choose|k: int| is_first_position(keys, key, k);
    assert(is_first_position(keys, key, chosen));
    if chosen < i {
        assert(keys[chosen] != key);
    } else if i < chosen {
        assert(keys[i] != key);
    }
}

/// A key that stands nowhere has no first position.
pub proof fn lemma_first_position_absent(keys: Seq<Seq<char>>, key: Seq<char>)
    requires
        forall|j: int| 0 <= j < keys.len() ==> keys[j] != key,
    ensures
        first_position(keys, key).is_none(),
{
}

impl Category {
    /// Finds the first unit of the category with the given abbreviation.
    pub fn find_unit(&self, abbreviation: &str) -> (found: Option<&Unit>)
        ensures
            match found {
                Some(unit) => first_unit(self@.units, abbreviation@) == Some(unit@),
                None => first_unit(self@.units, abbreviation@).is_none(),
            },
    {
        let wanted = abbreviation.to_owned();
        let ghost keys = unit_abbreviations(self@.units);
        let mut i: usize = 0;
        while i < self.units.len()
            invariant
                i <= self.units.len(),
                wanted@ == abbreviation@,
                keys == unit_abbreviations(self@.units),
                forall|j: int| 0 <= j < i ==> keys[j] != abbreviation@,
            decreases self.units.len() - i,
        {
            if self.units[i].abbreviation == wanted {
                proof {
                    lemma_first_position_found(keys, abbreviation@, i as int);
                }
                return Some(&self.units[i]);
            }
            i += 1;
        }
        proof {
            lemma_first_position_absent(keys, abbreviation@);
        }
        None
    }
}

impl Catalog {
    /// Finds the first category of the catalog with the given name.
    pub fn find_category(&self, name: &str) -> (found: Option<&Category>)
        ensures
            match found {
                Some(category) => first_category(self@, name@) == Some(category@),
                None => first_category(self@, name@).is_none(),
            },
    {
        let wanted = name.to_owned();
        let ghost keys = category_names(self@);
        let mut i: usize = 0;
        while i < self.categories.len()
            invariant
                i <= self.categories.len(),
                wanted@ == name@,
                keys == category_names(self@),
                forall|j: int| 0 <= j < i ==> keys[j] != name@,
            decreases self.categories.len() - i,
        {
            if self.categories[i].name == wanted {
                proof {
                    lemma_first_position_found(keys, name@, i as int);
                }
                return Some(&self.categories[i]);
            }
            i += 1;
        }
        proof {
            lemma_first_position_absent(keys, name@);
        }
        None
    }
}

/// Resolves a conversion between two units of one category, each given by its
/// abbreviation.
pub fn convert(
    from_abbreviation: &str,
    to_abbreviation: &str,
    category_name: &str,
    catalog: &Catalog,
) -> (resolved: Result<Conversion, ConversionError>)
    ensures
        resolved == conversion_of(catalog@, category_name@, from_abbreviation@, to_abbreviation@),
        resolved matches Ok(conversion) ==> !conversion.to_factor.is_zero(),
{
    let category = match catalog.find_category(category_name) {
        Some(category) => category,
        None => return Err(ConversionError::CategoryNotFound),
    };
    let from_unit = match category.find_unit(from_abbreviation) {
        Some(unit) => unit,
        None => return Err(ConversionError::UnitNotFound(Direction::Source)),
    };
    let to_unit = match category.find_unit(to_abbreviation) {
        Some(unit) => unit,
        None => return Err(ConversionError::UnitNotFound(Direction::Target)),
    };
    if to_unit.conversion_factor.is_zero() {
        return Err(ConversionError::InvalidConversionFactor);
    }
    Ok(
        Conversion {
            from_factor: from_unit.conversion_factor,
            to_factor: to_unit.conversion_factor,
        },
    )
}

/// Resolves a conversion between two units given as records. Records whose
/// category fields differ are refused; of records that agree, only the
/// abbreviations are used, and the units are looked up in the named category.
pub fn convert_unit(
    from_unit: &Unit,
    to_unit: &Unit,
    catalog: &Catalog,
    category_name: &str,
) -> (resolved: Result<Conversion, ConversionError>)
    ensures
        resolved == unit_conversion_of(from_unit@, to_unit@, catalog@, category_name@),
        resolved matches Ok(conversion) ==> !conversion.to_factor.is_zero(),
{
    if from_unit.category != to_unit.category {
        return Err(ConversionError::CategoryMismatch);
    }
    convert(from_unit.abbreviation.as_str(), to_unit.abbreviation.as_str(), category_name, catalog)
}

/// Lists the names of all categories, in catalog order.
pub fn list_categories(catalog: &Catalog) -> (names: Vec<String>)
    ensures
        names@.map_values(|name: String| name@) == category_names(catalog@),
{
    let mut names: Vec<String> = Vec::new();
    let mut i: usize = 0;
    while i < catalog.categories.len()
        invariant
            i <= catalog.categories.len(),
            names@.len() == i,
            forall|j: int| 0 <= j < i ==> names@[j]@ == catalog@[j].name,
        decreases catalog.categories.len() - i,
    {
        names.push(catalog.categories[i].name.clone());
        i += 1;
    }
    assert(names@.map_values(|name: String| name@) =~= category_names(catalog@));
    names
}

/// Lists the name and abbreviation of each unit of the named category, in the
/// category's order.
pub fn list_units(category_name: &str, catalog: &Catalog) -> (listed: Result<
    Vec<(String, String)>,
    ConversionError,
>)
    ensures
        match listed {
            Ok(labels) => match first_category(catalog@, category_name@) {
                Some(category) => labels@.map_values(|label: (String, String)| (label.0@, label.1@))
                    == unit_labels(category.units),
                None => false,
            },
            Err(error) => error == ConversionError::CategoryNotFound && first_category(
                catalog@,
                category_name@,
            ).is_none(),
        },
{
    let category = match catalog.find_category(category_name) {
        Some(category) => category,
        None => return Err(ConversionError::CategoryNotFound),
    };
    let mut labels: Vec<(String, String)> = Vec::new();
    let mut i: usize = 0;
    while i < category.units.len()
        invariant
            i <= category.units.len(),
            labels@.len() == i,
            forall|j: int|
                0 <= j < i ==> labels@[j].0@ == category@.units[j].name && labels@[j].1@
                    == category@.units[j].abbreviation,
        decreases category.units.len() - i,
    {
        let unit = &category.units[i];
        labels.push((unit.name.clone(), unit.abbreviation.clone()));
        i += 1;
    }
    assert(labels@.map_values(|label: (String, String)| (label.0@, label.1@)) =~= unit_labels(
        category@.units,
    ));
    Ok(labels)
}

} // verus!
