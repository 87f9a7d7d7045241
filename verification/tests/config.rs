use wasmut::config::Config;
use wasmut::operator::OperatorRegistry;
use wasmut::policy::MutationPolicy;

#[test]
fn default_config_sections() {
    let config = Config::default();
    assert!(config.filter().allowed_files().is_none());
    assert!(config.filter().allowed_functions().is_none());
    assert!(config.report().path_rewrite().is_none());
    assert_eq!(config.operators().enabled_operators(), vec![String::new()]);
}

#[test]
fn default_config_builds_policy_and_registry() {
    let config = Config::default();
    let policy = MutationPolicy::from_config(&config).ok().unwrap();
    assert!(policy.check(None, None));
    let registry = OperatorRegistry::new(&config.operators().enabled_operators()).ok().unwrap();
    assert!(registry.disabled_operators().is_empty());
    assert_eq!(registry.enabled_operators().len(), registry.number_of_operators());
}
