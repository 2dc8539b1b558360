use bevy_fsm::dispatch::{table_size, variant_slot};
use bevy_fsm::guard::{transition_verdict, Verdict};
use bevy_fsm::hierarchy::ObserverHierarchy;
use bevy_fsm::naming::{snake_case_with, to_snake_case, CharCase};
use bevy_fsm::plugin::{group_name, CoreObserver, FSMPlugin};
use bevy_fsm::policy::{FSMOverride, RuleType};
use bevy_fsm::sequence::{
    apply_state_request, finish_state_request, on_fsm_added, transition_effects, Effect,
    RequestStep, Signal,
};
use std::any::TypeId;

const A: usize = 0;
const B: usize = 1;
const C: usize = 2;

fn script(from: usize, to: usize) -> Vec<Effect> {
    vec![
        Effect::Emit(Signal::Exit(from)),
        Effect::EmitVariant(Signal::Exit(from)),
        Effect::Emit(Signal::Transition(from, to)),
        Effect::EmitVariant(Signal::Transition(from, to)),
        Effect::Store(to),
        Effect::Emit(Signal::Enter(to)),
        Effect::EmitVariant(Signal::Enter(to)),
    ]
}

fn done(step: RequestStep) -> Vec<Effect> {
    match step {
        RequestStep::Done(e) => e,
        RequestStep::AskRule => panic!("the default rule was asked"),
    }
}

fn asks_rule(step: &RequestStep) -> bool {
    matches!(step, RequestStep::AskRule)
}

/// Runs a request to the end with a default rule that counts its calls.
fn run(current: usize, next: usize, policy: Option<&FSMOverride>, rule: bool) -> (Vec<Effect>, usize) {
    let mut calls = 0;
    let effects = match apply_state_request(Some(current), next, policy) {
        RequestStep::Done(e) => e,
        RequestStep::AskRule => {
            calls += 1;
            finish_state_request(current, next, rule)
        }
    };
    (effects, calls)
}

#[test]
fn same_state_request_does_nothing() {
    let policies = vec![
        None,
        Some(FSMOverride::allow_all()),
        Some(FSMOverride::allow_all().with_rules()),
        Some(FSMOverride::deny_all()),
        Some(FSMOverride::whitelist(vec![(A, A)])),
        Some(FSMOverride::blacklist(vec![]).with_rules()),
    ];
    for p in policies.iter() {
        for s in [A, B, C] {
            let (effects, calls) = run(s, s, p.as_ref(), true);
            assert!(effects.is_empty());
            assert_eq!(calls, 0);
        }
    }
}

#[test]
fn whitelisted_pair_wins_over_rule() {
    let p = FSMOverride::whitelist(vec![(A, C)]).with_rules();
    let (effects, calls) = run(A, C, Some(&p), false);
    assert_eq!(effects, script(A, C));
    assert_eq!(calls, 0);
}

#[test]
fn blacklisted_pair_wins_over_rule() {
    let p = FSMOverride::blacklist(vec![(B, C)]).with_rules();
    let (effects, calls) = run(B, C, Some(&p), true);
    assert!(effects.is_empty());
    assert_eq!(calls, 0);
}

#[test]
fn unlisted_pair_without_rules_never_asks() {
    let w = FSMOverride::whitelist(vec![(A, C)]);
    let (effects, calls) = run(A, B, Some(&w), true);
    assert!(effects.is_empty());
    assert_eq!(calls, 0);
    let b = FSMOverride::blacklist(vec![(A, C)]);
    let (effects, calls) = run(A, B, Some(&b), false);
    assert_eq!(effects, script(A, B));
    assert_eq!(calls, 0);
}

#[test]
fn unlisted_pair_with_rules_asks_once() {
    for p in [
        FSMOverride::whitelist(vec![(A, C)]).with_rules(),
        FSMOverride::blacklist(vec![(A, C)]).with_rules(),
    ] {
        let (effects, calls) = run(A, B, Some(&p), true);
        assert_eq!(effects, script(A, B));
        assert_eq!(calls, 1);
        let (effects, calls) = run(A, B, Some(&p), false);
        assert!(effects.is_empty());
        assert_eq!(calls, 1);
    }
}

#[test]
fn accepted_transition_fires_in_order() {
    assert_eq!(transition_effects(B, C), script(B, C));
    let (effects, _) = run(A, B, None, true);
    assert_eq!(effects, script(A, B));
    let store = effects.iter().position(|e| *e == Effect::Store(B)).unwrap();
    let enter = effects.iter().position(|e| *e == Effect::Emit(Signal::Enter(B))).unwrap();
    let transition =
        effects.iter().position(|e| *e == Effect::Emit(Signal::Transition(A, B))).unwrap();
    assert!(transition < store && store < enter);
}

#[test]
fn first_state_fires_one_enter() {
    assert_eq!(
        on_fsm_added(Some(C)),
        vec![Effect::Emit(Signal::Enter(C)), Effect::EmitVariant(Signal::Enter(C))]
    );
    assert!(on_fsm_added(None).is_empty());
}

#[test]
fn deny_all_and_allow_all() {
    let deny = FSMOverride::deny_all();
    let allow = FSMOverride::allow_all();
    let allow_rules = FSMOverride::allow_all().with_rules();
    for from in [A, B, C] {
        for to in [A, B, C] {
            if from == to {
                continue;
            }
            assert_eq!(run(from, to, Some(&deny), true), (vec![], 0));
            assert_eq!(run(from, to, Some(&allow), false), (script(from, to), 0));
            let forbidden = from == A && to == C;
            let (effects, calls) = run(from, to, Some(&allow_rules), !forbidden);
            assert_eq!(calls, 1);
            assert_eq!(effects.is_empty(), forbidden);
        }
    }
}

#[test]
fn no_policy_uses_rule() {
    let step = apply_state_request(Some(A), C, None);
    assert!(asks_rule(&step));
    assert!(finish_state_request(A, C, false).is_empty());
}

#[test]
fn whitelist_accepts_listed() {
    let p = FSMOverride::whitelist(vec![(A, C)]);
    assert_eq!(done(apply_state_request(Some(A), C, Some(&p))), script(A, C));
}

#[test]
fn whitelist_refuses_unlisted() {
    let p = FSMOverride::whitelist(vec![(A, C)]);
    assert!(done(apply_state_request(Some(A), B, Some(&p))).is_empty());
}

#[test]
fn blacklist_with_rules_scenario() {
    let p = FSMOverride::blacklist(vec![(B, C)]).with_rules();
    let rule = |from: usize, to: usize| !(from == A && to == C);
    assert_eq!(run(A, C, Some(&p), rule(A, C)), (vec![], 1));
    assert_eq!(run(A, B, Some(&p), rule(A, B)), (script(A, B), 1));
    assert_eq!(run(B, C, Some(&p), rule(B, C)), (vec![], 0));
}

#[test]
fn request_without_state_does_nothing() {
    assert!(done(apply_state_request(None, B, None)).is_empty());
    assert!(finish_state_request(B, B, true).is_empty());
}

#[test]
fn policy_reading_by_mode() {
    let w = FSMOverride::whitelist(vec![(A, B)]);
    assert!(w.is_transition_allowed(A, B));
    assert!(!w.is_transition_allowed(B, A));
    let b = FSMOverride::blacklist(vec![(A, B)]);
    assert!(!b.is_transition_allowed(A, B));
    assert!(b.is_transition_allowed(B, A));
    assert!(FSMOverride::allow_all().is_transition_allowed(C, A));
    assert!(!FSMOverride::deny_all().is_transition_allowed(C, A));
    let d = FSMOverride::default();
    assert_eq!(d.mode(), RuleType::All);
    assert!(!d.call_rules());
    assert!(FSMOverride::deny_all().with_rules().call_rules());
    assert_eq!(FSMOverride::deny_all().mode(), RuleType::DenyAll);
}

#[test]
fn pairs_are_directional_and_extendable() {
    let w = FSMOverride::whitelist(vec![(A, B), (A, B)]);
    assert!(w.lists(A, B));
    assert!(!w.lists(B, A));
    let w = w.and_allow(vec![(B, A)]).with_rules();
    assert!(w.lists(B, A) && w.lists(A, B));
    assert!(w.call_rules());
    let b = FSMOverride::blacklist(vec![]).and_deny(vec![(C, B)]);
    assert!(b.lists(C, B));
    assert!(!b.lists(B, C));
    assert_eq!(b.mode(), RuleType::Blacklist);
    assert!(!FSMOverride::allow_all().lists(A, B));
}

#[test]
fn verdicts() {
    let w = FSMOverride::whitelist(vec![(A, B)]);
    assert_eq!(transition_verdict(Some(&w), A, B), Verdict::Accept);
    assert_eq!(transition_verdict(Some(&w), B, A), Verdict::Deny);
    assert_eq!(transition_verdict(None, B, A), Verdict::ConsultRule);
    assert!(Verdict::ConsultRule.needs_rule());
    assert!(!Verdict::Accept.needs_rule());
    assert!(Verdict::Accept.settle(false));
    assert!(!Verdict::Deny.settle(true));
    assert!(Verdict::ConsultRule.settle(true));
    assert!(!Verdict::ConsultRule.settle(false));
}

#[test]
fn snake_case_names() {
    assert_eq!(to_snake_case("LifeFSM"), "life_fsm");
    assert_eq!(to_snake_case("PluginTestState"), "plugin_test_state");
    assert_eq!(to_snake_case("HTTPServer"), "http_server");
    assert_eq!(to_snake_case("already_snake"), "already_snake");
    assert_eq!(to_snake_case(""), "");
    assert_eq!(to_snake_case("ÉtatMachine"), "état_machine");
}

#[test]
fn snake_case_from_given_cases() {
    let up = |c: char| CharCase { upper: true, lower: false, lowered: c.to_ascii_lowercase() };
    let low = |_c: char| CharCase { upper: false, lower: true, lowered: '?' };
    let chars = vec!['A', 'b', 'C', 'D', 'e'];
    let cases = vec![up('A'), low('b'), up('C'), up('D'), low('e')];
    assert_eq!(snake_case_with(&chars, &cases), "ab_c_de");
}

#[test]
fn group_names() {
    assert_eq!(group_name("game::states::LifeFSM"), "LifeFSM");
    assert_eq!(group_name("LifeFSM"), "LifeFSM");
    assert_eq!(group_name(""), "");
    assert_eq!(group_name("a::"), "");
    assert_eq!(group_name("a:::b"), ":b");
}

#[test]
fn dispatch_slots() {
    assert_eq!(table_size(3), Some(15));
    assert_eq!(table_size(0), Some(0));
    assert_eq!(table_size(usize::MAX), None);
    assert_eq!(variant_slot(Signal::Enter(2), 3), Some(2));
    assert_eq!(variant_slot(Signal::Exit(0), 3), Some(3));
    assert_eq!(variant_slot(Signal::Transition(1, 2), 3), Some(11));
    assert_eq!(variant_slot(Signal::Transition(2, 2), 3), Some(14));
    assert_eq!(variant_slot(Signal::Enter(3), 3), None);
    assert_eq!(variant_slot(Signal::Transition(0, 3), 3), None);
    let mut seen = Vec::new();
    for v in 0..3 {
        seen.push(variant_slot(Signal::Enter(v), 3).unwrap());
        seen.push(variant_slot(Signal::Exit(v), 3).unwrap());
        for w in 0..3 {
            seen.push(variant_slot(Signal::Transition(v, w), 3).unwrap());
        }
    }
    seen.sort();
    assert_eq!(seen, (0..15).collect::<Vec<usize>>());
}

struct First;
struct Second;

#[test]
fn hierarchy_groups_once_per_type() {
    let mut h = ObserverHierarchy::new(1u64);
    let first = TypeId::of::<First>();
    let second = TypeId::of::<Second>();
    assert_eq!(h.group(first), None);
    assert_eq!(h.insert_group(first, 2), 2);
    assert_eq!(h.insert_group(first, 3), 2);
    assert_eq!(h.insert_group(second, 4), 4);
    assert_eq!(h.group(first), Some(2));
    assert_eq!(h.group(second), Some(4));
    assert_eq!(h.root(), 1);
}

#[test]
fn plugin_observers() {
    assert_eq!(
        FSMPlugin::new().core_observers(),
        vec![CoreObserver::ApplyStateRequest, CoreObserver::OnFsmAdded]
    );
    let p = FSMPlugin::new().ignore_fsm_addition();
    assert!(p.ignores_fsm_addition());
    assert_eq!(p.core_observers(), vec![CoreObserver::ApplyStateRequest]);
}
