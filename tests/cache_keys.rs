use gh_report::key_gen::{generate_cache_key, hex_string, is_safe_key_component, CacheKeyBuilder};

#[test]
fn test_generate_cache_key_simple() {
    let key = generate_cache_key(&["repo", "issue", "123"]);
    assert_eq!(key, "repo_issue_123");
}

#[test]
fn test_generate_cache_key_complex() {
    let key = generate_cache_key(&["repo/with/slashes", "issue#123"]);
    assert!(key.len() == 16);
    assert!(key.chars().all(|c| c.is_ascii_hexdigit()));
}

#[test]
fn digest_key_is_sha256_prefix() {
    assert_eq!(generate_cache_key(&["repo/with/slashes", "issue#123"]), "8356ddc64109fbbb");
    assert_eq!(generate_cache_key(&["x y"]), "4282f22bd53d946d");
    assert_eq!(generate_cache_key(&[]), "");
}

#[test]
fn hex_string_uses_two_lower_case_digits_per_byte() {
    assert_eq!(hex_string(&[0x00, 0x0f, 0xa5, 0xff]), "000fa5ff");
    assert_eq!(hex_string(&[]), "");
}

#[test]
fn test_cache_key_builder() {
    let key = CacheKeyBuilder::new().with_namespace("test").add("component1").add("component2").build();
    assert_eq!(key, "test_component1_component2");
}

#[test]
fn test_cache_key_builder_optional() {
    let key = CacheKeyBuilder::new().add("base").add_opt(Some("present")).add_opt(None).build();
    assert_eq!(key, "base_present");
}

#[test]
fn test_is_safe_key_component() {
    assert!(is_safe_key_component("simple"));
    assert!(is_safe_key_component("with-dash"));
    assert!(is_safe_key_component("with_underscore"));
    assert!(is_safe_key_component("123numbers"));
    assert!(!is_safe_key_component(""));
    assert!(!is_safe_key_component("with/slash"));
    assert!(!is_safe_key_component("with space"));
    assert!(!is_safe_key_component("special@char"));
    let long = "a".repeat(65);
    assert!(!is_safe_key_component(&long));
}
