use diesel_guard::parser::contains_unique_using_index;

#[test]
fn test_detects_unique_using_index() {
    assert!(contains_unique_using_index(
        "ALTER TABLE users ADD CONSTRAINT users_email_key UNIQUE USING INDEX users_email_idx;"
    ));
}

#[test]
fn unique_using_index_detector_test_detects_case_insensitive() {
    assert!(contains_unique_using_index(
        "alter table users add constraint uk UNIQUE using index idx;"
    ));
}

#[test]
fn test_ignores_regular_unique() {
    assert!(!contains_unique_using_index(
        "ALTER TABLE users ADD CONSTRAINT users_email_key UNIQUE (email);"
    ));
}

#[test]
fn unique_using_index_detector_test_ignores_create_unique_index() {
    assert!(!contains_unique_using_index(
        "CREATE UNIQUE INDEX CONCURRENTLY idx ON users(email);"
    ));
}
