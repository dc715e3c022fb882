use sql_report::app::Filter;
use sql_report::context::{
    check_input_file, check_input_file_name, map_discrete_value, map_static_value, validate_filters,
    FilterError, FilterInput, FilterValue, InputFileError,
};

type Input = FilterInput<i32, Vec<i32>, &'static str>;

fn stat(name: &str, v: i32) -> Input {
    FilterInput::Static { name: name.to_string(), value: FilterValue::Known(v) }
}

fn disc(name: &str, v: Vec<i32>) -> Input {
    FilterInput::Discrete { name: name.to_string(), values: FilterValue::Known(v) }
}

#[test]
fn filters_are_kept_in_order() {
    let out = validate_filters(vec![disc("@period", vec![1, 2]), stat("@doc", 7), stat("@x", 8)]).unwrap();
    assert_eq!(out.len(), 3);
    match &out[0] {
        Filter::Discrete { name, values } => {
            assert_eq!(name, "@period");
            assert_eq!(values, &vec![1, 2]);
        }
        other => panic!("unexpected {other:?}"),
    }
    match &out[2] {
        Filter::Static { name, value } => {
            assert_eq!(name, "@x");
            assert_eq!(*value, 8);
        }
        other => panic!("unexpected {other:?}"),
    }
    assert!(validate_filters::<i32, Vec<i32>, &str>(vec![]).unwrap().is_empty());
}

#[test]
fn second_discrete_filter_is_rejected() {
    let res = validate_filters(vec![stat("@a", 1), disc("@b", vec![]), disc("@c", vec![])]);
    assert_eq!(res.unwrap_err(), FilterError::MultipleDiscrete);
}

#[test]
fn unknown_values_are_rejected_at_their_position() {
    let res = validate_filters(vec![
        stat("@a", 1),
        FilterInput::Static { name: "@b".to_string(), value: FilterValue::Unknown("raw") },
        disc("@c", vec![]),
    ]);
    assert_eq!(res.unwrap_err(), FilterError::UnknownStaticValue { position: 2, raw: "raw" });
    let res = validate_filters(vec![
        FilterInput::<i32, Vec<i32>, &str>::Discrete { name: "@d".to_string(), values: FilterValue::Unknown("x") },
    ]);
    assert_eq!(res.unwrap_err(), FilterError::UnknownDiscreteValue { position: 1, raw: "x" });
}

#[test]
fn first_error_wins() {
    let res = validate_filters(vec![
        disc("@a", vec![]),
        FilterInput::Static { name: "@b".to_string(), value: FilterValue::Unknown("bad") },
        disc("@c", vec![]),
    ]);
    assert_eq!(res.unwrap_err(), FilterError::UnknownStaticValue { position: 2, raw: "bad" });
}

#[test]
fn value_mapping() {
    assert_eq!(map_static_value::<i32, &str>(FilterValue::Known(3), 9), Ok(3));
    assert_eq!(
        map_static_value::<i32, &str>(FilterValue::Unknown("u"), 9),
        Err(FilterError::UnknownStaticValue { position: 9, raw: "u" })
    );
    assert_eq!(
        map_discrete_value::<i32, &str>(FilterValue::Unknown("u"), 4),
        Err(FilterError::UnknownDiscreteValue { position: 4, raw: "u" })
    );
}

#[test]
fn input_file_checks() {
    assert_eq!(check_input_file("sql file", "q.sql", true, 10 * 1024 * 1024, 10), Ok(()));
    assert_eq!(
        check_input_file("sql file", "q.sql", true, 10 * 1024 * 1024 + 1, 10),
        Err(InputFileError::TooLarge("The input \"sql file\" with path \"q.sql\" is too large".to_string()))
    );
    assert_eq!(
        check_input_file("filters file", "dir", false, 0, 100),
        Err(InputFileError::NotAFile("The input \"filters file\" with path \"dir\" is not a file".to_string()))
    );
    assert_eq!(check_input_file("x", "y", true, 0, 0), Ok(()));
    assert_eq!(check_input_file("x", "y", true, 1, 0).is_err(), true);
}

#[test]
fn input_file_name() {
    assert_eq!(check_input_file_name("sql file", Some("q.sql".to_string())), Ok("q.sql".to_string()));
    assert_eq!(
        check_input_file_name("sql file", None),
        Err(InputFileError::MissingFileName("Could not get the file name for the input \"sql file\"".to_string()))
    );
}

#[test]
fn filter_error_messages() {
    assert_eq!(FilterError::<&str>::MultipleDiscrete.message("ignored"), "Multiple discrete filters are not allowed");
    assert_eq!(
        FilterError::UnknownStaticValue { position: 12, raw: "r" }.message("Object {}"),
        "Could not parse static filter value at position 12 Object {}"
    );
    assert_eq!(
        FilterError::UnknownDiscreteValue { position: 7, raw: "r" }.message("Null"),
        "Could not parse discrete filter value at position 7 Null"
    );
    assert_eq!(
        FilterError::UnknownStaticValue { position: 4294967295, raw: () }.message("x"),
        "Could not parse static filter value at position 4294967295 x"
    );
    assert_eq!(
        FilterError::UnknownStaticValue { position: 0, raw: () }.message("x"),
        "Could not parse static filter value at position 0 x"
    );
}

#[test]
fn not_a_file_needs_no_size_limit() {
    assert_eq!(
        check_input_file("connection string", "d", false, 0, u64::MAX),
        Err(InputFileError::NotAFile("The input \"connection string\" with path \"d\" is not a file".to_string()))
    );
}
