use diesel_guard::parser::CommentParser;

#[test]
    fn test_parse_simple_block() {
        let sql = r#"
-- safety-assured:start
ALTER TABLE users DROP COLUMN email;
-- safety-assured:end
        "#;

        let ranges = CommentParser::parse_ignore_ranges(sql).unwrap();
        assert_eq!(ranges.len(), 1);
        assert_eq!(ranges[0].start_line, 2);
        assert_eq!(ranges[0].end_line, 4);
    }

#[test]
    fn comment_parser_test_multiple_blocks() {
        let sql = r#"
-- safety-assured:start
ALTER TABLE users DROP COLUMN email;
-- safety-assured:end

ALTER TABLE posts ADD COLUMN body TEXT;

-- safety-assured:start
DROP INDEX old_index;
-- safety-assured:end
        "#;

        let ranges = CommentParser::parse_ignore_ranges(sql).unwrap();
        assert_eq!(ranges.len(), 2);
        assert_eq!(ranges[0].start_line, 2);
        assert_eq!(ranges[0].end_line, 4);
        assert_eq!(ranges[1].start_line, 8);
        assert_eq!(ranges[1].end_line, 10);
    }

#[test]
    fn comment_parser_test_case_insensitive() {
        let sql = r#"
-- SAFETY-ASSURED:START
ALTER TABLE users DROP COLUMN email;
-- safety-ASSURED:end
        "#;

        let ranges = CommentParser::parse_ignore_ranges(sql).unwrap();
        assert_eq!(ranges.len(), 1);
    }

#[test]
    fn test_unmatched_end() {
        let sql = r#"
ALTER TABLE users DROP COLUMN email;
-- safety-assured:end
        "#;

        let result = CommentParser::parse_ignore_ranges(sql);
        assert!(result.is_err());
        assert!(result.unwrap_err().to_string().contains("Unmatched"));
    }

#[test]
    fn test_unclosed_start() {
        let sql = r#"
-- safety-assured:start
ALTER TABLE users DROP COLUMN email;
        "#;

        let result = CommentParser::parse_ignore_ranges(sql);
        assert!(result.is_err());
        assert!(result.unwrap_err().to_string().contains("Unclosed"));
    }

#[test]
    fn test_nested_blocks_error() {
        let sql = r#"
-- safety-assured:start
ALTER TABLE users DROP COLUMN email;
-- safety-assured:start
ALTER TABLE posts DROP COLUMN body;
-- safety-assured:end
-- safety-assured:end
        "#;

        // Nested blocks should be rejected with clear error
        let result = CommentParser::parse_ignore_ranges(sql);
        assert!(result.is_err());
        assert!(result
            .unwrap_err()
            .to_string()
            .contains("Nested 'safety-assured:start'"));
    }

#[test]
    fn comment_parser_test_empty_block() {
        let sql = r#"
-- safety-assured:start
-- safety-assured:end
        "#;

        let ranges = CommentParser::parse_ignore_ranges(sql).unwrap();
        assert_eq!(ranges.len(), 1);
        assert_eq!(ranges[0].start_line, 2);
        assert_eq!(ranges[0].end_line, 3);
    }

#[test]
    fn test_block_with_comments() {
        let sql = r#"
-- safety-assured:start
-- This column was deprecated
ALTER TABLE users DROP COLUMN email;
-- All references removed
-- safety-assured:end
        "#;

        let ranges = CommentParser::parse_ignore_ranges(sql).unwrap();
        assert_eq!(ranges.len(), 1);
        assert_eq!(ranges[0].start_line, 2);
        assert_eq!(ranges[0].end_line, 6);
    }

#[test]
    fn test_no_blocks() {
        let sql = r#"
ALTER TABLE users DROP COLUMN email;
ALTER TABLE posts ADD COLUMN body TEXT;
        "#;

        let ranges = CommentParser::parse_ignore_ranges(sql).unwrap();
        assert_eq!(ranges.len(), 0);
    }

#[test]
fn test_directive_variations() {
    // Test different whitespace and formatting
    assert!(CommentParser::is_start_directive("-- safety-assured:start"));
    assert!(CommentParser::is_start_directive("--safety-assured:start"));
    assert!(CommentParser::is_start_directive(
        "  -- safety-assured:start  "
    ));
    assert!(CommentParser::is_start_directive("-- SAFETY-ASSURED:START"));

    // Not start directives
    assert!(!CommentParser::is_start_directive("-- safety-assured:end"));
    assert!(!CommentParser::is_start_directive("ALTER TABLE users"));
    assert!(!CommentParser::is_start_directive("-- some comment"));
}

#[test]
    fn test_directive_requires_exact_match() {
        // These should NOT match - no extra characters allowed
        assert!(!CommentParser::is_start_directive(
            "-- safety-assured:start111"
        ));
        assert!(!CommentParser::is_start_directive(
            "-- safety-assured:startx"
        ));
        assert!(!CommentParser::is_start_directive(
            "-- xsafety-assured:start"
        ));
        assert!(!CommentParser::is_start_directive(
            "-- safety-assured:start extra text"
        ));

        assert!(!CommentParser::is_end_directive("-- safety-assured:end222"));
        assert!(!CommentParser::is_end_directive("-- safety-assured:endx"));
        assert!(!CommentParser::is_end_directive(
            "-- safety-assured:end extra text"
        ));

        // Invalid directive should cause an error (unmatched end)
        let sql = r#"
-- safety-assured:start111
ALTER TABLE users DROP COLUMN email;
-- safety-assured:end
        "#;

        let result = CommentParser::parse_ignore_ranges(sql);
        assert!(
            result.is_err(),
            "Invalid start directive should not be recognized"
        );
        assert!(result.unwrap_err().to_string().contains("Unmatched"));
    }
