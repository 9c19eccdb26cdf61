//! What the operator is told at startup.

use vstd::prelude::*;

use crate::config::Config;

verus! {

/// A warning about the configuration.
#[derive(Debug, Clone, Copy, PartialEq, Eq, Structural)]
pub enum Notice {
    /// The deprecated fallback budget is set.
    LegacyFallbackBudget,
    /// A CA bundle is set, and no upstream connection uses TLS.
    UnusedCaBundle,
}

/// The warnings that a configuration calls for.
pub open spec fn notices_for(config: Config) -> Seq<Notice> {
    let legacy = if config.legacy_fallback_budget_set {
        seq![Notice::LegacyFallbackBudget]
    } else {
        Seq::empty()
    };
    let unused = if config.upstream_ca_bundle is Some && !config.upstream_tls {
        seq![Notice::UnusedCaBundle]
    } else {
        Seq::empty()
    };
    legacy + unused
}

/// The warnings to log at startup, each once.
pub fn notices(config: &Config) -> (found: Vec<Notice>)
    ensures
        found@ == notices_for(*config),
{
    let mut found: Vec<Notice> = Vec::new();
    if config.legacy_fallback_budget_set {
        found.push(Notice::LegacyFallbackBudget);
    }
    if config.upstream_ca_bundle.is_some() && !config.upstream_tls {
        found.push(Notice::UnusedCaBundle);
    }
    assert(found@ =~= notices_for(*config));
    found
}

/// The operator is warned of the deprecated fallback budget exactly when it is
/// set, and of the CA bundle exactly when it is set without upstream TLS; each
/// warning comes once, in this order.
pub proof fn warnings_follow_settings(config: Config)
    ensures
        notices_for(config).contains(Notice::LegacyFallbackBudget)
            <==> config.legacy_fallback_budget_set,
        notices_for(config).contains(Notice::UnusedCaBundle) <==> config.upstream_ca_bundle is Some
            && !config.upstream_tls,
        notices_for(config).no_duplicates(),
        notices_for(config).len() == 2 ==> notices_for(config)[0] == Notice::LegacyFallbackBudget,
{
    let found = notices_for(config);
    if config.legacy_fallback_budget_set {
        assert(found[0] == Notice::LegacyFallbackBudget);
        assert(found.contains(Notice::LegacyFallbackBudget));
    }
    if config.upstream_ca_bundle is Some && !config.upstream_tls {
        assert(found[found.len() - 1] == Notice::UnusedCaBundle);
        assert(found.contains(Notice::UnusedCaBundle));
    }
}

}
