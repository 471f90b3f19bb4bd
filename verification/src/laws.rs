//! What holds of every conversion request and of every malformed source,
//! proved from the definitions.

use crate::engine::{
    category_names, conversion_of, first_category, first_position, first_unit, is_first_position,
    lemma_first_position_absent, lemma_first_position_found, unit_abbreviations,
    unit_conversion_of, well_formed, Conversion,
};
use crate::error::{ConversionError, Direction, LoadError};
use crate::json::{member, parsed_json, JsonView};
use crate::loader::{array_member, catalog_of, category_of, loaded, unit_of, units_of};
use crate::model::{CategoryView, UnitView};
use vstd::prelude::*;

verus! {

/// Where keys are distinct, every key stands at its own first position.
pub proof fn lemma_distinct_keys_first_position(keys: Seq<Seq<char>>, i: int)
    requires
        keys.no_duplicates(),
        0 <= i < keys.len(),
    ensures
        first_position(keys, keys[i]) == Some(i),
{
    assert(is_first_position(keys, keys[i], i));
    lemma_first_position_found(keys, keys[i], i);
}

/// A conversion between the first category of a name and the first units of
/// two abbreviations in it resolves to the factors of exactly these two
/// units, source first, whenever the target's factor is not zero; the
/// converted value is then `value * from_factor / to_factor`.
pub proof fn lemma_conversion_uses_first_matches(
    catalog: Seq<CategoryView>,
    c: int,
    a: int,
    b: int,
)
    requires
        is_first_position(category_names(catalog), catalog[c].name, c),
        is_first_position(
            unit_abbreviations(catalog[c].units),
            catalog[c].units[a].abbreviation,
            a,
        ),
        is_first_position(
            unit_abbreviations(catalog[c].units),
            catalog[c].units[b].abbreviation,
            b,
        ),
        !catalog[c].units[b].conversion_factor.is_zero(),
    ensures
        conversion_of(
            catalog,
            catalog[c].name,
            catalog[c].units[a].abbreviation,
            catalog[c].units[b].abbreviation,
        ) == Ok::<Conversion, ConversionError>(
            Conversion {
                from_factor: catalog[c].units[a].conversion_factor,
                to_factor: catalog[c].units[b].conversion_factor,
            },
        ),
{
    let units = catalog[c].units;
    lemma_first_position_found(category_names(catalog), catalog[c].name, c);
    lemma_first_position_found(unit_abbreviations(units), units[a].abbreviation, a);
    lemma_first_position_found(unit_abbreviations(units), units[b].abbreviation, b);
}

/// In a well-formed catalog this holds of any two units of any one category:
/// their conversion resolves to the source's factor and the target's factor,
/// whenever the latter is not zero.
pub proof fn lemma_conversion_uses_unit_factors(
    catalog: Seq<CategoryView>,
    c: int,
    a: int,
    b: int,
)
    requires
        well_formed(catalog),
        0 <= c < catalog.len(),
        0 <= a < catalog[c].units.len(),
        0 <= b < catalog[c].units.len(),
        !catalog[c].units[b].conversion_factor.is_zero(),
    ensures
        conversion_of(
            catalog,
            catalog[c].name,
            catalog[c].units[a].abbreviation,
            catalog[c].units[b].abbreviation,
        ) == Ok::<Conversion, ConversionError>(
            Conversion {
                from_factor: catalog[c].units[a].conversion_factor,
                to_factor: catalog[c].units[b].conversion_factor,
            },
        ),
{
    let units = catalog[c].units;
    lemma_distinct_keys_first_position(category_names(catalog), c);
    lemma_distinct_keys_first_position(unit_abbreviations(units), a);
    lemma_distinct_keys_first_position(unit_abbreviations(units), b);
}

/// Converting there and back uses the same two factors in exchanged roles:
/// where neither factor is zero, the request from one unit to another and the
/// request back both resolve, the second to the first with its factors
/// swapped.
pub proof fn lemma_round_trip_swaps_factors(catalog: Seq<CategoryView>, c: int, a: int, b: int)
    requires
        well_formed(catalog),
        0 <= c < catalog.len(),
        0 <= a < catalog[c].units.len(),
        0 <= b < catalog[c].units.len(),
        !catalog[c].units[a].conversion_factor.is_zero(),
        !catalog[c].units[b].conversion_factor.is_zero(),
    ensures
        ({
            let there = conversion_of(
                catalog,
                catalog[c].name,
                catalog[c].units[a].abbreviation,
                catalog[c].units[b].abbreviation,
            );
            let back = conversion_of(
                catalog,
                catalog[c].name,
                catalog[c].units[b].abbreviation,
                catalog[c].units[a].abbreviation,
            );
            &&& there is Ok
            &&& back is Ok
            &&& back->Ok_0.from_factor == there->Ok_0.to_factor
            &&& back->Ok_0.to_factor == there->Ok_0.from_factor
        }),
{
    lemma_conversion_uses_unit_factors(catalog, c, a, b);
    lemma_conversion_uses_unit_factors(catalog, c, b, a);
}

/// A conversion from a unit to itself, in any catalog, resolves to one and
/// the same factor on both sides.
pub proof fn lemma_identity_has_equal_factors(
    catalog: Seq<CategoryView>,
    category_name: Seq<char>,
    abbreviation: Seq<char>,
)
    ensures
        match conversion_of(catalog, category_name, abbreviation, abbreviation) {
            Ok(conversion) => conversion.from_factor == conversion.to_factor,
            Err(_) => true,
        },
{
}

/// A category name that no category of the catalog has is refused with
/// `CategoryNotFound`, whatever the unit abbreviations are.
pub proof fn lemma_unknown_category(
    catalog: Seq<CategoryView>,
    category_name: Seq<char>,
    from_abbreviation: Seq<char>,
    to_abbreviation: Seq<char>,
)
    requires
        !category_names(catalog).contains(category_name),
    ensures
        first_category(catalog, category_name).is_none(),
        conversion_of(catalog, category_name, from_abbreviation, to_abbreviation) == Err::<
            Conversion,
            ConversionError,
        >(ConversionError::CategoryNotFound),
{
    lemma_first_position_absent(category_names(catalog), category_name);
}

/// Unit records that agree on their category are refused with
/// `CategoryNotFound` when the requested category name is unknown.
pub proof fn lemma_unknown_category_for_records(
    from_unit: UnitView,
    to_unit: UnitView,
    catalog: Seq<CategoryView>,
    category_name: Seq<char>,
)
    requires
        from_unit.category == to_unit.category,
        !category_names(catalog).contains(category_name),
    ensures
        unit_conversion_of(from_unit, to_unit, catalog, category_name) == Err::<
            Conversion,
            ConversionError,
        >(ConversionError::CategoryNotFound),
{
    lemma_unknown_category(catalog, category_name, from_unit.abbreviation, to_unit.abbreviation);
}

/// In a category that the catalog has, an abbreviation that none of its
/// units has is refused with `UnitNotFound`: as the source whatever the
/// target is, and as the target of any source (the source is reported
/// instead when it is unknown too).
pub proof fn lemma_unknown_unit(
    catalog: Seq<CategoryView>,
    category_name: Seq<char>,
    unknown: Seq<char>,
    other: Seq<char>,
)
    requires
        first_category(catalog, category_name) is Some,
        !unit_abbreviations(first_category(catalog, category_name)->Some_0.units).contains(
            unknown,
        ),
    ensures
        conversion_of(catalog, category_name, unknown, other) == Err::<Conversion, ConversionError>(
            ConversionError::UnitNotFound(Direction::Source),
        ),
        conversion_of(catalog, category_name, other, unknown) == Err::<Conversion, ConversionError>(
            ConversionError::UnitNotFound(
                if first_unit(first_category(catalog, category_name)->Some_0.units, other) is Some {
                    Direction::Target
                } else {
                    Direction::Source
                },
            ),
        ),
{
    let units = first_category(catalog, category_name)->Some_0.units;
    lemma_first_position_absent(unit_abbreviations(units), unknown);
}

/// A document in which some unit record lacks its `conversion_factor`
/// describes no catalog, and loading any bytes that parse to it fails with
/// `Malformed`.
pub proof fn lemma_missing_factor_is_malformed(document: JsonView, c: int, u: int)
    requires
        document is Array,
        0 <= c < document->Array_0.len(),
        array_member(document->Array_0[c], "units"@) is Some,
        0 <= u < array_member(document->Array_0[c], "units"@)->Some_0.len(),
        member(
            array_member(document->Array_0[c], "units"@)->Some_0[u],
            "conversion_factor"@,
        ).is_none(),
    ensures
        catalog_of(document).is_none(),
        forall|bytes: Seq<u8>|
            (#[trigger] parsed_json(bytes)) == Some(document) ==> loaded(Some(bytes)) == Err::<
                Seq<CategoryView>,
                LoadError,
            >(LoadError::Malformed),
{
    let records = document->Array_0;
    let units = array_member(records[c], "units"@)->Some_0;
    assert(unit_of(units[u]).is_none());
    assert(units_of(units).is_none());
    assert(category_of(records[c]).is_none());
}

} // verus!
