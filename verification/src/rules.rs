//! The firewall rule configuration: the rule records as the configuration
//! document holds them, and the classification of a rule's action string.
//! The document itself is read and decoded outside the library, which hands
//! the plain records in.

use vstd::prelude::*;

verus! {

/// One firewall rule as configured.
#[allow(non_camel_case_types)]
#[derive(Debug)]
pub struct rules {
    pub name: String,
    pub action: String,
    pub direction: String,
    pub protocol: String,
    pub src_ip: Option<String>,
    pub dst_ip: Option<String>,
    pub dst_port: Option<u16>,
}

/// The whole rule configuration.
#[derive(Debug)]
pub struct FirewallConfig {
    pub rules: Vec<rules>,
}

/// What a rule's action string asks for.
#[derive(Clone, Copy, Debug, PartialEq, Eq, Structural)]
pub enum ActionKind {
    Allow,
    Deny,
    Log,
    Unknown,
}

/// The action a rule's action string names: `allow`, `deny` or `log`;
/// anything else is unknown.
pub open spec fn spec_action_kind(action: Seq<char>) -> ActionKind {
    if action == "allow"@ {
        ActionKind::Allow
    } else if action == "deny"@ {
        ActionKind::Deny
    } else if action == "log"@ {
        ActionKind::Log
    } else {
        ActionKind::Unknown
    }
}

/// Classify one rule's action.
pub fn action_kind(rule: &rules) -> (r: ActionKind)
    ensures
        r == spec_action_kind(rule.action@),
{
    if rule.action.eq(&String::from_str("allow")) {
        ActionKind::Allow
    } else if rule.action.eq(&String::from_str("deny")) {
        ActionKind::Deny
    } else if rule.action.eq(&String::from_str("log")) {
        ActionKind::Log
    } else {
        ActionKind::Unknown
    }
}

} // verus!
