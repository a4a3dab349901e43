//! Which rules are enabled and which severities block.
use vstd::prelude::*;
use crate::rules::Severity;

verus! {

/// Settings: a master switch, the enabled rules, and the blocking severities.
#[derive(Debug, Clone)]
pub struct Config {
    pub enabled: bool,
    pub rules: RulesConfig,
    pub severity: SeverityConfig,
}

/// One switch per rule.
#[derive(Debug, Clone, Copy, PartialEq, Eq, Structural)]
pub struct RulesConfig {
    pub sensitive_file: bool,
    pub architecture: bool,
    pub naming: bool,
    pub transaction: bool,
    pub security: bool,
    pub crypto_weak: bool,
    pub generated_file: bool,
    pub test_location: bool,
    pub dom_access: bool,
    pub sync_io: bool,
    pub bundle_size: bool,
    pub test_assertion: bool,
    pub flaky_test: bool,
    pub sensitive_logging: bool,
    pub biome: bool,
}

/// The severities whose findings block.
#[derive(Debug, Clone)]
pub struct SeverityConfig {
    pub block_on: Vec<Severity>,
}

impl RulesConfig {
    pub open spec fn all_enabled(self) -> bool {
        &&& self.sensitive_file
        &&& self.architecture
        &&& self.naming
        &&& self.transaction
        &&& self.security
        &&& self.crypto_weak
        &&& self.generated_file
        &&& self.test_location
        &&& self.dom_access
        &&& self.sync_io
        &&& self.bundle_size
        &&& self.test_assertion
        &&& self.flaky_test
        &&& self.sensitive_logging
        &&& self.biome
    }
}

/// The value of a switch left out of the settings: on.
pub fn default_true() -> (r: bool)
    ensures
        r,
{
    true
}

/// The blocking severities when none are given: Critical and High.
pub fn default_block_on() -> (r: Vec<Severity>)
    ensures
        r@ == seq![Severity::Critical, Severity::High],
{
    let mut v: Vec<Severity> = Vec::new();
    v.push(Severity::Critical);
    v.push(Severity::High);
    assert(v@ =~= seq![Severity::Critical, Severity::High]);
    v
}

impl Default for RulesConfig {
    /// Every rule enabled.
    fn default() -> (r: Self)
        ensures
            r.all_enabled(),
    {
        RulesConfig {
            sensitive_file: true,
            architecture: true,
            naming: true,
            transaction: true,
            security: true,
            crypto_weak: true,
            generated_file: true,
            test_location: true,
            dom_access: true,
            sync_io: true,
            bundle_size: true,
            test_assertion: true,
            flaky_test: true,
            sensitive_logging: true,
            biome: true,
        }
    }
}

impl Default for SeverityConfig {
    /// Blocks on Critical and High.
    fn default() -> (r: Self)
        ensures
            r.block_on@ == seq![Severity::Critical, Severity::High],
    {
        SeverityConfig { block_on: default_block_on() }
    }
}

impl Default for Config {
    /// Enabled, with every rule on, blocking on Critical and High.
    fn default() -> (r: Self)
        ensures
            r.enabled,
            r.rules.all_enabled(),
            r.severity.block_on@ == seq![Severity::Critical, Severity::High],
    {
        Config { enabled: true, rules: RulesConfig::default(), severity: SeverityConfig::default() }
    }
}

} // verus!
