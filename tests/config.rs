use guardrails::config::Config;
use guardrails::rules::Severity;

#[test]
fn default_config_all_rules_enabled() {
    let config = Config::default();
    assert!(config.enabled);
    assert!(config.rules.sensitive_file);
    assert!(config.rules.biome);
}

#[test]
fn default_severity_blocks_critical_and_high() {
    let config = Config::default();
    assert!(config.severity.block_on.contains(&Severity::Critical));
    assert!(config.severity.block_on.contains(&Severity::High));
    assert!(!config.severity.block_on.contains(&Severity::Medium));
}
