//! Properties of the guard and the sequencer, proved over the models that
//! the functions' contracts use.
use crate::guard::{verdict_for, Verdict};
use crate::policy::{PolicyView, RuleType};
use crate::sequence::{attach_script, request_plan, ruled_plan, transition_script, Effect, Signal};
use vstd::prelude::*;

verus! {

/// A request for the state the object already holds changes nothing and
/// fires nothing, whatever the policy, and the default rule is not asked.
pub proof fn lemma_same_state_is_noop(current: usize, policy: Option<PolicyView>)
    ensures
        request_plan(Some(current), current, policy) == Some(Seq::<Effect>::empty()),
{
}

/// A pair on a whitelist is accepted without asking the default rule.
pub proof fn lemma_whitelist_priority(p: PolicyView, from: usize, to: usize)
    requires
        p.mode == RuleType::Whitelist,
        p.edges.contains((from, to)),
        from != to,
    ensures
        verdict_for(Some(p), from, to) == Verdict::Accept,
        request_plan(Some(from), to, Some(p)) == Some(transition_script(from, to)),
{
}

/// A pair on a blacklist is refused without asking the default rule.
pub proof fn lemma_blacklist_priority(p: PolicyView, from: usize, to: usize)
    requires
        p.mode == RuleType::Blacklist,
        p.edges.contains((from, to)),
    ensures
        verdict_for(Some(p), from, to) == Verdict::Deny,
        request_plan(Some(from), to, Some(p)) == Some(Seq::<Effect>::empty()),
{
}

/// Without `call_rules`, a pair that is not listed is refused by a
/// whitelist and accepted by a blacklist, and the default rule is not
/// asked.
pub proof fn lemma_gap_without_rules(p: PolicyView, from: usize, to: usize)
    requires
        p.mode == RuleType::Whitelist || p.mode == RuleType::Blacklist,
        !p.edges.contains((from, to)),
        !p.call_rules,
        from != to,
    ensures
        p.mode == RuleType::Whitelist ==> verdict_for(Some(p), from, to) == Verdict::Deny
            && request_plan(Some(from), to, Some(p)) == Some(Seq::<Effect>::empty()),
        p.mode == RuleType::Blacklist ==> verdict_for(Some(p), from, to) == Verdict::Accept
            && request_plan(Some(from), to, Some(p)) == Some(transition_script(from, to)),
{
}

/// With `call_rules`, a pair that is not listed goes to the default rule,
/// and the rule's answer decides the outcome.
pub proof fn lemma_gap_with_rules(p: PolicyView, from: usize, to: usize, rule_allows: bool)
    requires
        p.mode == RuleType::Whitelist || p.mode == RuleType::Blacklist,
        !p.edges.contains((from, to)),
        p.call_rules,
        from != to,
    ensures
        verdict_for(Some(p), from, to) == Verdict::ConsultRule,
        verdict_for(Some(p), from, to).outcome(rule_allows) == rule_allows,
        request_plan(Some(from), to, Some(p)) is None,
        ruled_plan(from, to, rule_allows) == if rule_allows {
            transition_script(from, to)
        } else {
            Seq::<Effect>::empty()
        },
{
}

/// An accepted transition fires, in this order: the exit of the old state
/// (generic, then specialized), the transition (generic, then specialized),
/// then the new state is stored, then the entry into it (generic, then
/// specialized).
pub proof fn lemma_transition_order(from: usize, to: usize)
    ensures
        transition_script(from, to).len() == 7,
        transition_script(from, to)[0] == Effect::Emit(Signal::Exit(from)),
        transition_script(from, to)[1] == Effect::EmitVariant(Signal::Exit(from)),
        transition_script(from, to)[2] == Effect::Emit(Signal::Transition(from, to)),
        transition_script(from, to)[3] == Effect::EmitVariant(Signal::Transition(from, to)),
        transition_script(from, to)[4] == Effect::Store(to),
        transition_script(from, to)[5] == Effect::Emit(Signal::Enter(to)),
        transition_script(from, to)[6] == Effect::EmitVariant(Signal::Enter(to)),
{
}

/// A first state fires exactly one entry (generic, then specialized) and
/// no exit or transition.
pub proof fn lemma_attach_enters_once(state: usize)
    ensures
        attach_script(state) == seq![
            Effect::Emit(Signal::Enter(state)),
            Effect::EmitVariant(Signal::Enter(state)),
        ],
        forall|i: int|
            0 <= i < attach_script(state).len() ==> match #[trigger] attach_script(state)[i] {
                Effect::Emit(s) => s is Enter,
                Effect::EmitVariant(s) => s is Enter,
                Effect::Store(_) => false,
            },
{
    assert(attach_script(state) =~= seq![
        Effect::Emit(Signal::Enter(state)),
        Effect::EmitVariant(Signal::Enter(state)),
    ]);
}

/// A policy in `DenyAll` mode refuses every transition.
pub proof fn lemma_deny_all_refuses(p: PolicyView, from: usize, to: usize)
    requires
        p.mode == RuleType::DenyAll,
    ensures
        verdict_for(Some(p), from, to) == Verdict::Deny,
        request_plan(Some(from), to, Some(p)) == Some(Seq::<Effect>::empty()),
{
}

/// A policy in `All` mode without `call_rules` accepts every transition,
/// whatever the default rule says.
pub proof fn lemma_allow_all_accepts(p: PolicyView, from: usize, to: usize)
    requires
        p.mode == RuleType::All,
        !p.call_rules,
        from != to,
    ensures
        verdict_for(Some(p), from, to) == Verdict::Accept,
        request_plan(Some(from), to, Some(p)) == Some(transition_script(from, to)),
{
}

/// A policy in `All` mode with `call_rules` gives the default rule's answer.
pub proof fn lemma_allow_all_with_rules_follows_rule(
    p: PolicyView,
    from: usize,
    to: usize,
    rule_allows: bool,
)
    requires
        p.mode == RuleType::All,
        p.call_rules,
    ensures
        verdict_for(Some(p), from, to).outcome(rule_allows) == rule_allows,
        verdict_for(Some(p), from, to).outcome(rule_allows) == verdict_for(None, from, to).outcome(rule_allows),
{
}

} // verus!
