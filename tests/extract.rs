use clap_derive_darling::extract::{extract, update, Extracted, MatchError};
use clap_derive_darling::shape::Shape;

fn parsed(values: &[&str]) -> Vec<Result<u32, String>> {
    values.iter().map(|v| v.parse::<u32>().map_err(|e| e.to_string())).collect()
}

#[test]
fn optional_optional_three_way_decode() {
    let shape = Shape::OptionalOptionalScalar;
    assert_eq!(extract(shape, "retries", false, parsed(&[])), Ok(Extracted::OptionalOptional(None)));
    assert_eq!(extract(shape, "retries", true, parsed(&[])), Ok(Extracted::OptionalOptional(Some(None))));
    assert_eq!(
        extract(shape, "retries", true, parsed(&["3"])),
        Ok(Extracted::OptionalOptional(Some(Some(3))))
    );
}

#[test]
fn scalar_takes_the_value_or_reports_absence() {
    assert_eq!(extract(Shape::Scalar, "name", true, parsed(&["7"])), Ok(Extracted::Single(7)));
    assert_eq!(
        extract(Shape::Scalar, "name", false, parsed(&[])),
        Err(MatchError::MissingValue("name".to_string()))
    );
}

#[test]
fn parse_failure_names_the_argument() {
    let r = extract(Shape::Scalar, "count", true, parsed(&["x"]));
    match r {
        Err(MatchError::InvalidValue { name, message }) => {
            assert_eq!(name, "count");
            assert_eq!(message, "x".parse::<u32>().unwrap_err().to_string());
        }
        other => panic!("unexpected: {:?}", other),
    }
    assert!(matches!(
        extract(Shape::RepeatedScalar, "ids", true, parsed(&["1", "y", "z"])),
        Err(MatchError::InvalidValue { .. })
    ));
}

#[test]
fn optional_and_bool() {
    assert_eq!(extract(Shape::OptionalScalar, "o", false, parsed(&[])), Ok(Extracted::Optional(None)));
    assert_eq!(extract(Shape::OptionalScalar, "o", true, parsed(&["128"])), Ok(Extracted::Optional(Some(128))));
    assert_eq!(extract(Shape::Bool, "b", true, parsed(&[])), Ok(Extracted::Flag(true)));
    assert_eq!(extract(Shape::Bool, "b", false, parsed(&[])), Ok(Extracted::Flag(false)));
}

#[test]
fn repeated_keeps_order_and_absence() {
    assert_eq!(
        extract(Shape::RepeatedScalar, "v", true, parsed(&["3", "1", "2"])),
        Ok(Extracted::Repeated(vec![3, 1, 2]))
    );
    assert_eq!(extract(Shape::RepeatedScalar, "v", false, parsed(&[])), Ok(Extracted::Repeated(vec![])));
    assert_eq!(extract(Shape::OptionalRepeatedScalar, "v", false, parsed(&[])), Ok(Extracted::OptionalRepeated(None)));
    assert_eq!(
        extract(Shape::OptionalRepeatedScalar, "v", true, parsed(&["5"])),
        Ok(Extracted::OptionalRepeated(Some(vec![5])))
    );
}

#[test]
fn update_overwrites_only_when_present() {
    let mut slot = Extracted::Optional(Some(1));
    assert_eq!(update(&mut slot, Shape::OptionalScalar, "o", false, parsed(&[])), Ok(()));
    assert_eq!(slot, Extracted::Optional(Some(1)));
    assert_eq!(update(&mut slot, Shape::OptionalScalar, "o", true, parsed(&["9"])), Ok(()));
    assert_eq!(slot, Extracted::Optional(Some(9)));

    let mut single = Extracted::Single(1);
    assert_eq!(update(&mut single, Shape::Scalar, "s", true, parsed(&["4"])), Ok(()));
    assert_eq!(single, Extracted::Single(4));
    assert!(update(&mut single, Shape::Scalar, "s", true, parsed(&["bad"])).is_err());
    assert_eq!(single, Extracted::Single(4));
}
