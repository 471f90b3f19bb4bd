use unit_converter::engine::{list_categories, list_units};
use unit_converter::error::ConversionError;
use unit_converter::model::{Catalog, Category, Factor, Unit};

fn unit(name: &str, abbreviation: &str, category: &str, value: f64) -> Unit {
    Unit {
        name: name.to_string(),
        abbreviation: abbreviation.to_string(),
        category: category.to_string(),
        conversion_factor: Factor { bits: value.to_bits() },
    }
}

fn sample() -> Catalog {
    Catalog {
        categories: vec![
            Category {
                name: "Length".to_string(),
                units: vec![
                    unit("Meter", "m", "Length", 1.0),
                    unit("Kilometer", "km", "Length", 1000.0),
                ],
            },
            Category { name: "Empty".to_string(), units: vec![] },
            Category { name: "Mass".to_string(), units: vec![unit("Gram", "g", "Mass", 0.001)] },
        ],
    }
}

#[test]
fn categories_are_listed_in_catalog_order() {
    assert_eq!(
        list_categories(&sample()),
        vec!["Length".to_string(), "Empty".to_string(), "Mass".to_string()]
    );
}

#[test]
fn empty_catalog_lists_no_category() {
    assert_eq!(list_categories(&Catalog { categories: vec![] }), Vec::<String>::new());
}

#[test]
fn units_are_listed_in_category_order() {
    assert_eq!(
        list_units("Length", &sample()),
        Ok(vec![
            ("Meter".to_string(), "m".to_string()),
            ("Kilometer".to_string(), "km".to_string()),
        ])
    );
    assert_eq!(list_units("Mass", &sample()), Ok(vec![("Gram".to_string(), "g".to_string())]));
}

#[test]
fn category_without_units_lists_nothing() {
    assert_eq!(list_units("Empty", &sample()), Ok(vec![]));
}

#[test]
fn units_of_unknown_category_are_not_found() {
    assert_eq!(list_units("bogus", &sample()), Err(ConversionError::CategoryNotFound));
    assert_eq!(list_units("length", &sample()), Err(ConversionError::CategoryNotFound));
}

#[test]
fn units_are_listed_from_the_first_category_of_a_name() {
    let catalog = Catalog {
        categories: vec![
            Category { name: "Length".to_string(), units: vec![unit("Meter", "m", "Length", 1.0)] },
            Category { name: "Length".to_string(), units: vec![unit("Foot", "ft", "Length", 0.3)] },
        ],
    };
    assert_eq!(list_units("Length", &catalog), Ok(vec![("Meter".to_string(), "m".to_string())]));
    assert_eq!(list_categories(&catalog), vec!["Length".to_string(), "Length".to_string()]);
}
