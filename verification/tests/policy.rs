use wasmut::config::{Config, FilterConfig};
use wasmut::policy::{MutationPolicy, MutationPolicyBuilder};

#[test]
fn build_mutation_policy() {
    let policy = MutationPolicyBuilder::default()
        .allow_function("^test_")
        .allow_file("^src/")
        .build()
        .ok()
        .unwrap();

    assert!(policy.check_function("test_func1"));
    assert!(policy.check_function("test_func2"));
    assert!(policy.check_file("src/foo.rs"));
    assert!(!policy.check_file("test/foo.rs"));
}

#[test]
fn policy_from_config() {
    let filter = FilterConfig::new(Some(vec!["^src/".into()]), Some(vec!["^test".into()]));
    let config = Config::from_sections(Some(filter), None, None);

    let policy = MutationPolicy::from_config(&config).ok().unwrap();

    assert!(policy.check_function("test_func1"));
    assert!(policy.check_function("test_func2"));
    assert!(policy.check_file("src/foo.rs"));
    assert!(!policy.check_file("test/foo.rs"));
}

#[test]
fn empty_policy_allows_all() {
    let policy = MutationPolicy::default();

    assert!(policy.check_function("test_func1"));
    assert!(policy.check_function("test_func2"));
    assert!(policy.check_file("src/foo.rs"));
    assert!(policy.check_file("test/foo.rs"));
}

#[test]
fn check_allows_by_file_or_function() {
    let policy = MutationPolicyBuilder::default().allow_function("^add$").build().ok().unwrap();
    assert!(policy.check(Some("src/a.c"), Some("add")));
    assert!(!policy.check(Some("src/a.c"), Some("sub")));
    assert!(!policy.check(None, None));
    let open = MutationPolicy::default();
    assert!(open.check(Some("x.c"), None));
    assert!(open.check(None, Some("f")));
    assert!(open.check(None, None));
}

#[test]
fn empty_pattern_matches_everything() {
    let policy = MutationPolicyBuilder::default().allow_file("").build().ok().unwrap();
    assert!(policy.check_file("anything/at/all.c"));
    assert!(!policy.check_function("main"));
}

#[test]
fn invalid_pattern_is_rejected() {
    assert!(MutationPolicyBuilder::default().allow_function("(").build().is_err());
    let filter = FilterConfig::new(Some(vec!["[".into()]), None);
    let config = Config::from_sections(Some(filter), None, None);
    assert!(MutationPolicy::from_config(&config).is_err());
}
