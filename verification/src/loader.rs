//! Building a catalog from a JSON document.
//!
//! The document is an array of category records. A category record is an
//! object with a string `name` and an array `units`; a unit record is an
//! object with strings `name`, `abbreviation` and `category` and a number
//! `conversion_factor`. Members beyond these are ignored. A record that lacks
//! a member, or holds a value of another kind under it, makes the whole
//! document malformed: no part of a catalog is returned for it.

use crate::error::LoadError;
use crate::json::{
    json_view, member, parse_value, parsed_json, value_as_array, value_as_number_bits,
    value_as_str, value_get, JsonView,
};
use crate::model::{Catalog, Category, CategoryView, Factor, Unit, UnitView};
use vstd::prelude::*;

verus! {

/// The text stored under `key`, when the record has a string there.
pub open spec fn text_member(record: JsonView, key: Seq<char>) -> Option<Seq<char>> {
    match member(record, key) {
        Some(JsonView::Text(text)) => Some(text),
        _ => None,
    }
}

/// The factor stored under `key`, when the record has a number there.
pub open spec fn factor_member(record: JsonView, key: Seq<char>) -> Option<Factor> {
    match member(record, key) {
        Some(JsonView::Number(bits)) => Some(Factor { bits }),
        _ => None,
    }
}

/// The elements stored under `key`, when the record has an array there.
pub open spec fn array_member(record: JsonView, key: Seq<char>) -> Option<Seq<JsonView>> {
    match member(record, key) {
        Some(JsonView::Array(elements)) => Some(elements),
        _ => None,
    }
}

/// The unit that a record describes, when all four of its members are there.
pub open spec fn unit_of(record: JsonView) -> Option<UnitView> {
    match (
        text_member(record, "name"@),
        text_member(record, "abbreviation"@),
        text_member(record, "category"@),
        factor_member(record, "conversion_factor"@),
    ) {
        (Some(name), Some(abbreviation), Some(category), Some(conversion_factor)) => Some(
            UnitView { name, abbreviation, category, conversion_factor },
        ),
        _ => None,
    }
}

/// The units that the records describe, in their order, when every record
/// describes one.
pub open spec fn units_of(records: Seq<JsonView>) -> Option<Seq<UnitView>> {
    if forall|i: int| 0 <= i < records.len() ==> unit_of(#[trigger] records[i]).is_some() {
        Some(records.map_values(|record: JsonView| unit_of(record).unwrap()))
    } else {
        None
    }
}

/// The category that a record describes, when it has a name and its units
/// are all well formed.
pub open spec fn category_of(record: JsonView) -> Option<CategoryView> {
    match (text_member(record, "name"@), array_member(record, "units"@)) {
        (Some(name), Some(records)) => match units_of(records) {
            Some(units) => Some(CategoryView { name, units }),
            None => None,
        },
        _ => None,
    }
}

/// The catalog that a document describes: the document is an array, and
/// every element of it describes a category.
pub open spec fn catalog_of(document: JsonView) -> Option<Seq<CategoryView>> {
    match document {
        JsonView::Array(records) => if forall|i: int|
            0 <= i < records.len() ==> category_of(#[trigger] records[i]).is_some() {
            Some(records.map_values(|record: JsonView| category_of(record).unwrap()))
        } else {
            None
        },
        _ => None,
    }
}

/// The bytes of a source that could be read.
pub open spec fn bytes_of(source: Option<&[u8]>) -> Option<Seq<u8>> {
    match source {
        Some(bytes) => Some(bytes@),
        None => None,
    }
}

/// What loading yields for a source: `NotFound` when there is no source,
/// `Malformed` when its bytes are no JSON document or the document describes
/// no catalog, and the catalog otherwise.
pub open spec fn loaded(source: Option<Seq<u8>>) -> Result<Seq<CategoryView>, LoadError> {
    match source {
        None => Err(LoadError::NotFound),
        Some(bytes) => match parsed_json(bytes) {
            None => Err(LoadError::Malformed),
            Some(document) => match catalog_of(document) {
                None => Err(LoadError::Malformed),
                Some(catalog) => Ok(catalog),
            },
        },
    }
}

/// Reads the string stored under `key`.
fn read_text(record: &serde_json::Value, key: &str) -> (text: Option<String>)
    ensures
        match text {
            Some(s) => text_member(json_view(*record), key@) == Some(s@),
            None => text_member(json_view(*record), key@).is_none(),
        },
{
    match value_get(record, key) {
        Some(found) => match value_as_str(found) {
            Some(s) => Some(s.to_owned()),
            None => None,
        },
        None => None,
    }
}

/// Reads the number stored under `key` as a factor.
fn read_factor(record: &serde_json::Value, key: &str) -> (factor: Option<Factor>)
    ensures
        factor == factor_member(json_view(*record), key@),
{
    match value_get(record, key) {
        Some(found) => match value_as_number_bits(found) {
            Some(bits) => Some(Factor { bits }),
            None => None,
        },
        None => None,
    }
}

/// Builds a unit from its record.
pub fn unit_from_value(record: &serde_json::Value) -> (built: Result<Unit, LoadError>)
    ensures
        match built {
            Ok(unit) => unit_of(json_view(*record)) == Some(unit@),
            Err(error) => error == LoadError::Malformed && unit_of(json_view(*record)).is_none(),
        },
{
    let name = match read_text(record, "name") {
        Some(text) => text,
        None => return Err(LoadError::Malformed),
    };
    let abbreviation = match read_text(record, "abbreviation") {
        Some(text) => text,
        None => return Err(LoadError::Malformed),
    };
    let category = match read_text(record, "category") {
        Some(text) => text,
        None => return Err(LoadError::Malformed),
    };
    let conversion_factor = match read_factor(record, "conversion_factor") {
        Some(factor) => factor,
        None => return Err(LoadError::Malformed),
    };
    Ok(Unit { name, abbreviation, category, conversion_factor })
}

/// Builds a category from its record.
pub fn category_from_value(record: &serde_json::Value) -> (built: Result<Category, LoadError>)
    ensures
        match built {
            Ok(category) => category_of(json_view(*record)) == Some(category@),
            Err(error) => error == LoadError::Malformed && category_of(
                json_view(*record),
            ).is_none(),
        },
{
    let name = match read_text(record, "name") {
        Some(text) => text,
        None => return Err(LoadError::Malformed),
    };
    let records = match value_get(record, "units") {
        Some(found) => match value_as_array(found) {
            Some(elements) => elements,
            None => return Err(LoadError::Malformed),
        },
        None => return Err(LoadError::Malformed),
    };
    let ghost views = records@.map_values(|element: serde_json::Value| json_view(element));
    assert(array_member(json_view(*record), "units"@) == Some(views));
    let mut units: Vec<Unit> = Vec::new();
    let mut i: usize = 0;
    while i < records.len()
        invariant
            i <= records.len(),
            units@.len() == i,
            views == records@.map_values(|element: serde_json::Value| json_view(element)),
            array_member(json_view(*record), "units"@) == Some(views),
            forall|j: int| 0 <= j < i ==> unit_of(#[trigger] views[j]) == Some(units@[j]@),
        decreases records.len() - i,
    {
        match unit_from_value(&records[i]) {
            Ok(unit) => units.push(unit),
            Err(error) => {
                assert(unit_of(views[i as int]).is_none());
                return Err(error);
            },
        }
        i += 1;
    }
    let category = Category { name, units };
    assert(category@.units =~= units_of(views).unwrap());
    Ok(category)
}

/// Builds a catalog from a parsed document.
pub fn catalog_from_value(document: &serde_json::Value) -> (built: Result<Catalog, LoadError>)
    ensures
        match built {
            Ok(catalog) => catalog_of(json_view(*document)) == Some(catalog@),
            Err(error) => error == LoadError::Malformed && catalog_of(
                json_view(*document),
            ).is_none(),
        },
{
    let records = match value_as_array(document) {
        Some(elements) => elements,
        None => return Err(LoadError::Malformed),
    };
    let ghost views = records@.map_values(|element: serde_json::Value| json_view(element));
    let mut categories: Vec<Category> = Vec::new();
    let mut i: usize = 0;
    while i < records.len()
        invariant
            i <= records.len(),
            categories@.len() == i,
            views == records@.map_values(|element: serde_json::Value| json_view(element)),
            json_view(*document) == JsonView::Array(views),
            forall|j: int|
                0 <= j < i ==> category_of(#[trigger] views[j]) == Some(categories@[j]@),
        decreases records.len() - i,
    {
        match category_from_value(&records[i]) {
            Ok(category) => categories.push(category),
            Err(error) => {
                assert(category_of(views[i as int]).is_none());
                return Err(error);
            },
        }
        i += 1;
    }
    let catalog = Catalog { categories };
    assert(catalog@ =~= catalog_of(json_view(*document)).unwrap());
    Ok(catalog)
}

/// Loads the catalog from the bytes of its source; `None` stands for a
/// source that is missing or could not be read.
pub fn load_units(source: Option<&[u8]>) -> (outcome: Result<Catalog, LoadError>)
    ensures
        match outcome {
            Ok(catalog) => loaded(bytes_of(source)) == Ok::<Seq<CategoryView>, LoadError>(catalog@),
            Err(error) => loaded(bytes_of(source)) == Err::<Seq<CategoryView>, LoadError>(error),
        },
{
    let bytes = match source {
        Some(bytes) => bytes,
        None => return Err(LoadError::NotFound),
    };
    match parse_value(bytes) {
        Ok(document) => catalog_from_value(&document),
        Err(_) => Err(LoadError::Malformed),
    }
}

} // verus!
