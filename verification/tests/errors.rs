use unit_converter::error::{ConversionError, Direction, LoadError};

#[test]
fn conversion_errors_have_their_lines() {
    assert_eq!(ConversionError::CategoryNotFound.message(), "Category not found");
    assert_eq!(ConversionError::UnitNotFound(Direction::Source).message(), "Unit not found");
    assert_eq!(ConversionError::UnitNotFound(Direction::Target).message(), "Unit not found");
    assert_eq!(
        ConversionError::CategoryMismatch.message(),
        "Units are not in the same category."
    );
    assert_eq!(
        ConversionError::InvalidConversionFactor.message(),
        "Conversion factor of the target unit is zero"
    );
}

#[test]
fn load_errors_have_their_lines() {
    assert_eq!(LoadError::NotFound.message(), "Catalog source not found");
    assert_eq!(LoadError::Malformed.message(), "Catalog source is malformed");
}
