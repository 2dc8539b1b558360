//! The transition guard: combines an object's override policy with the
//! type's default rule into one accept or deny decision.
use crate::policy::{FSMOverride, PolicyView, RuleType};
use vstd::prelude::*;

verus! {

/// What the guard says of a requested transition before the default rule is
/// asked.
#[derive(Clone, Copy, Debug, PartialEq, Eq, Structural)]
pub enum Verdict {
    /// Accepted; the default rule is not asked.
    Accept,
    /// Refused; the default rule is not asked.
    Deny,
    /// The default rule is asked once, and its answer stands.
    ConsultRule,
}

/// The view of an optional policy.
pub open spec fn policy_view(policy: Option<&FSMOverride>) -> Option<PolicyView> {
    match policy {
        Some(p) => Some(p@),
        None => None,
    }
}

/// What the policy leaves to the default rule: consult it if the policy
/// asks for that, else fall back to `otherwise`.
pub open spec fn gap(call_rules: bool, otherwise: Verdict) -> Verdict {
    if call_rules {
        Verdict::ConsultRule
    } else {
        otherwise
    }
}

/// The guard's decision table. Listed pairs are decided by the policy alone;
/// the default rule only fills the gaps, and decides alone where no policy
/// is present.
pub open spec fn verdict_for(policy: Option<PolicyView>, from: usize, to: usize) -> Verdict {
    match policy {
        None => Verdict::ConsultRule,
        Some(p) => match p.mode {
            RuleType::All => gap(p.call_rules, Verdict::Accept),
            RuleType::DenyAll => Verdict::Deny,
            RuleType::Whitelist => if p.edges.contains((from, to)) {
                Verdict::Accept
            } else {
                gap(p.call_rules, Verdict::Deny)
            },
            RuleType::Blacklist => if p.edges.contains((from, to)) {
                Verdict::Deny
            } else {
                gap(p.call_rules, Verdict::Accept)
            },
        },
    }
}

impl Verdict {
    /// The final answer, where `rule` is what the default rule answers.
    pub open spec fn outcome(self, rule: bool) -> bool {
        match self {
            Verdict::Accept => true,
            Verdict::Deny => false,
            Verdict::ConsultRule => rule,
        }
    }

    /// Whether the default rule has to be asked.
    pub fn needs_rule(&self) -> (r: bool)
        ensures
            r == (*self == Verdict::ConsultRule),
    {
        match self {
            Verdict::ConsultRule => true,
            _ => false,
        }
    }

    /// The final answer, given the default rule's answer `rule_allows`
    /// (which only counts for `ConsultRule`).
    pub fn settle(&self, rule_allows: bool) -> (r: bool)
        ensures
            r == self.outcome(rule_allows),
    {
        match self {
            Verdict::Accept => true,
            Verdict::Deny => false,
            Verdict::ConsultRule => rule_allows,
        }
    }
}

/// The guard's decision on `from -> to` under `policy`.
pub fn transition_verdict(policy: Option<&FSMOverride>, from: usize, to: usize) -> (v: Verdict)
    ensures
        v == verdict_for(policy_view(policy), from, to),
{
    match policy {
        None => Verdict::ConsultRule,
        Some(p) => {
            let listed = p.lists(from, to);
            match p.mode() {
                RuleType::All => if p.call_rules() {
                    Verdict::ConsultRule
                } else {
                    Verdict::Accept
                },
                RuleType::DenyAll => Verdict::Deny,
                RuleType::Whitelist => if listed {
                    Verdict::Accept
                } else if p.call_rules() {
                    Verdict::ConsultRule
                } else {
                    Verdict::Deny
                },
                RuleType::Blacklist => if listed {
                    Verdict::Deny
                } else if p.call_rules() {
                    Verdict::ConsultRule
                } else {
                    Verdict::Accept
                },
            }
        },
    }
}

} // verus!
