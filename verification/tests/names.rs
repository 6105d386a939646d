use sibyl_batch::{BatchError, BatchParams};
use sibyl_batch::error::decimal_string;

fn names(list: &[&str]) -> Vec<String> {
    list.iter().map(|s| s.to_string()).collect()
}

#[test]
fn strip_colon_removes_one_leading_colon() {
    assert_eq!(BatchParams::strip_colon(":id"), "id");
    assert_eq!(BatchParams::strip_colon("id"), "id");
    assert_eq!(BatchParams::strip_colon("::id"), ":id");
    assert_eq!(BatchParams::strip_colon(":"), "");
    assert_eq!(BatchParams::strip_colon(""), "");
    assert_eq!(BatchParams::strip_colon("a:b"), "a:b");
    assert_eq!(BatchParams::strip_colon(":ünï"), "ünï");
}

#[test]
fn new_without_placeholders_is_none() {
    let none: Vec<String> = Vec::new();
    assert!(BatchParams::new(0, &none, &[], 3).is_none());
}

#[test]
fn new_sizes_the_arrays() {
    let n = names(&["ID", "NAME"]);
    let p = BatchParams::new(2, &n, &[0, 0], 3).unwrap();
    assert_eq!(p.placeholder_count(), 2);
    assert_eq!(p.batch_size(), 3);
    assert!(p.buffer(0).is_empty());
    assert!(p.null_indicators(1).is_empty());
    assert!(p.data_lengths(1).is_empty());
    assert!(p.bind_calls().is_empty());
}

#[test]
fn index_of_finds_names_with_and_without_colon() {
    let n = names(&["ID", "NAME"]);
    let p = BatchParams::new(2, &n, &[0, 0], 3).unwrap();
    assert_eq!(p.index_of("ID"), Ok(0));
    assert_eq!(p.index_of(":ID"), Ok(0));
    assert_eq!(p.index_of(":NAME"), Ok(1));
    assert_eq!(p.index_of("NAME"), Ok(1));
}

#[test]
fn index_of_falls_back_to_upper_case() {
    let n = names(&["ID", "NAME"]);
    let p = BatchParams::new(2, &n, &[0, 0], 3).unwrap();
    assert_eq!(p.index_of(":name"), Ok(1));
    assert_eq!(p.index_of("id"), Ok(0));
    assert_eq!(p.index_of("Name"), Ok(1));
}

#[test]
fn index_of_prefers_the_exact_name() {
    let n = names(&["num", "NUM"]);
    let p = BatchParams::new(2, &n, &[0, 0], 1).unwrap();
    assert_eq!(p.index_of(":num"), Ok(0));
    assert_eq!(p.index_of(":NUM"), Ok(1));
}

#[test]
fn index_of_unknown_name_is_an_error_without_colon() {
    let n = names(&["ID"]);
    let p = BatchParams::new(1, &n, &[0], 3).unwrap();
    assert_eq!(
        p.index_of(":city"),
        Err(BatchError::UnknownPlaceholder { name: "city".to_string() })
    );
}

#[test]
fn duplicate_binds_are_not_placeholders_of_their_own() {
    // The second bind of "ID" is a duplicate; "X" keeps its own index.
    let n = names(&["ID", "ID", "X"]);
    let p = BatchParams::new(3, &n, &[0, 1, 0], 2).unwrap();
    assert_eq!(p.index_of("ID"), Ok(0));
    assert_eq!(p.index_of("X"), Ok(2));
    assert_eq!(p.placeholder_count(), 3);
}

#[test]
fn a_repeated_name_maps_to_its_last_bind() {
    let n = names(&["A", "A"]);
    let p = BatchParams::new(2, &n, &[0, 0], 1).unwrap();
    assert_eq!(p.index_of("A"), Ok(1));
}

#[test]
fn fewer_bind_names_than_placeholders() {
    let n = names(&["A"]);
    let p = BatchParams::new(3, &n, &[0], 1).unwrap();
    assert_eq!(p.placeholder_count(), 3);
    assert_eq!(p.index_of("A"), Ok(0));
    assert!(p.index_of("B").is_err());
}

#[test]
fn error_messages_name_the_problem() {
    assert_eq!(
        BatchError::UnknownPlaceholder { name: "NOPE".to_string() }.message(),
        "Statement does not define parameter placeholder NOPE"
    );
    assert_eq!(
        BatchError::LengthMismatch { param: "i32".to_string(), len: 2, batch_size: 130 }.message(),
        "Parameter 'i32' has 2 elements but batch size is 130"
    );
    assert_eq!(
        BatchError::SingleValue { value_type: "i32".to_string() }.message(),
        "Single value of type i32 cannot be used with execute_batch. Use a slice instead."
    );
    assert_eq!(BatchError::InvalidText { row: 0 }.message(), "Row 0 returned text that is not valid UTF-8");
    assert_eq!(
        BatchError::NoSuchPosition { pos: 10, count: 3 }.message(),
        "Statement has 3 parameter placeholders, none at position 10"
    );
    assert_eq!(
        BatchError::BufferTooLarge { param: "String (OUT)".to_string() }.message(),
        "Parameter 'String (OUT)' is too large to bind"
    );
}

#[test]
fn decimal_string_writes_digits() {
    assert_eq!(decimal_string(0), "0");
    assert_eq!(decimal_string(9), "9");
    assert_eq!(decimal_string(10), "10");
    assert_eq!(decimal_string(4096), "4096");
    assert_eq!(decimal_string(usize::MAX), usize::MAX.to_string());
}
