use diesel_guard::parser::contains_primary_key_using_index;

#[test]
fn test_detects_primary_key_using_index() {
    assert!(contains_primary_key_using_index(
        "ALTER TABLE users ADD CONSTRAINT users_pkey PRIMARY KEY USING INDEX users_pkey;"
    ));
}

#[test]
fn primary_key_using_index_detector_test_detects_case_insensitive() {
    assert!(contains_primary_key_using_index(
        "alter table users add constraint pk PRIMARY KEY using index idx;"
    ));
}

#[test]
fn test_ignores_regular_primary_key() {
    assert!(!contains_primary_key_using_index(
        "ALTER TABLE users ADD CONSTRAINT users_pkey PRIMARY KEY (id);"
    ));
}

#[test]
fn primary_key_using_index_detector_test_ignores_create_unique_index() {
    assert!(!contains_primary_key_using_index(
        "CREATE UNIQUE INDEX CONCURRENTLY idx ON users(id);"
    ));
}
