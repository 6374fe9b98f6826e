use diesel_guard::error::parse_location;

#[test]
fn test_parse_location() {
    let msg = "sql parser error: Expected: a list of columns in parentheses, found: INDEX at Line: 5, Column: 59";
    assert_eq!(parse_location(msg), Some((5, 59)));
}

#[test]
fn test_parse_location_no_location() {
    let msg = "some error without location info";
    assert_eq!(parse_location(msg), None);
}

#[test]
fn test_parse_location_single_digit() {
    let msg = "error at Line: 1, Column: 1";
    assert_eq!(parse_location(msg), Some((1, 1)));
}
