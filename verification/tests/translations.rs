use arsync::translations::extract_translation_keys;

#[test]
fn test_extract_translation_keys() {
    let test_ftl = r#"
# Comment line
progress-discovered = Discovered
progress-completed = Completed

# Another comment
error-file-not-found = Not found
"#;
    let keys = extract_translation_keys(test_ftl);
    assert_eq!(keys.len(), 3);
    assert!(keys.contains("progress-discovered"));
    assert!(keys.contains("progress-completed"));
    assert!(keys.contains("error-file-not-found"));
}

#[test]
fn test_extract_ignores_comments() {
    let test_ftl = r#"
# This is a comment
## Another comment

key-one = Value one
# Inline comment
key-two = Value two
"#;
    let keys = extract_translation_keys(test_ftl);
    assert_eq!(keys.len(), 2);
    assert!(keys.contains("key-one"));
    assert!(keys.contains("key-two"));
}

#[test]
fn test_extract_ignores_indented_lines() {
    let test_ftl = r#"
key-one = Value one
    This is a continuation
    Another line
key-two = Value two
"#;
    let keys = extract_translation_keys(test_ftl);
    assert_eq!(keys.len(), 2);
    assert!(keys.contains("key-one"));
    assert!(keys.contains("key-two"));
}

#[test]
fn test_validator_detects_missing_keys() {
    let en_ftl = r#"
progress-discovered = Discovered
progress-completed = Completed
status-complete = Complete
"#;
    let pirate_ftl = r#"
progress-discovered = Treasure found, arrr!
progress-completed = Booty secured, matey!
"#;
    let en_keys = extract_translation_keys(en_ftl);
    let pirate_keys = extract_translation_keys(pirate_ftl);
    assert_eq!(en_keys.len(), 3, "English should have 3 keys");
    assert_eq!(pirate_keys.len(), 2, "Pirate should have 2 keys");
    let missing = en_keys.difference(&pirate_keys);
    assert_eq!(missing.len(), 1, "Should detect 1 missing key");
    assert!(
        missing.contains(&"status-complete".to_string()),
        "Should detect status-complete is missing"
    );
}

#[test]
fn test_validator_detects_extra_keys() {
    let en_ftl = r#"
progress-discovered = Discovered
progress-completed = Completed
"#;
    let pirate_ftl = r#"
progress-discovered = Treasure found, arrr!
progress-completed = Booty secured, matey!
status-typo-key = This shouldn't be here
"#;
    let en_keys = extract_translation_keys(en_ftl);
    let pirate_keys = extract_translation_keys(pirate_ftl);
    let extra = pirate_keys.difference(&en_keys);
    assert_eq!(extra.len(), 1, "Should detect 1 extra key");
    assert!(
        extra.contains(&"status-typo-key".to_string()),
        "Should detect status-typo-key is extra"
    );
}

#[test]
fn duplicate_keys_count_once() {
    let keys = extract_translation_keys("a-key = one\na-key = two\r\nb = x");
    assert_eq!(keys.len(), 2);
    assert!(keys.contains("a-key"));
    assert!(keys.contains("b"));
}

#[test]
fn malformed_left_sides_are_not_keys() {
    let ftl = "Upper = no\nwith space = no\nnum1 = no\n = empty\nno-equals\n\tkey-tab = yes\n key-space = no\nspaced-key   =   ok";
    let keys = extract_translation_keys(ftl);
    assert!(keys.contains("key-tab"));
    assert!(keys.contains("spaced-key"));
    assert!(!keys.contains("key-space"));
    assert!(!keys.contains("Upper"));
    assert_eq!(keys.len(), 2);
}

#[test]
fn empty_content_has_no_keys() {
    let keys = extract_translation_keys("");
    assert_eq!(keys.len(), 0);
    assert!(extract_translation_keys("\n\n# only comments\n").difference(&keys).is_empty());
}

#[test]
fn difference_with_self_is_empty() {
    let keys = extract_translation_keys("x = 1\ny = 2\n");
    assert!(keys.difference(&keys).is_empty());
}
