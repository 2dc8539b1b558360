//! The event sequencer: what happens, in order, when a state is first
//! attached to an object and when a transition request arrives.
//!
//! The functions here decide; the host performs each returned effect in
//! order, and asks the type's default rule when told to.
use crate::guard::{verdict_for, policy_view, transition_verdict, Verdict};
use crate::policy::{FSMOverride, PolicyView};
use vstd::prelude::*;

verus! {

/// A lifecycle notification.
#[derive(Clone, Copy, Debug, PartialEq, Eq, Structural)]
pub enum Signal {
    /// The object leaves the state.
    Exit(usize),
    /// The object moves from the first state to the second.
    Transition(usize, usize),
    /// The object enters the state.
    Enter(usize),
}

/// One step that the host carries out.
#[derive(Clone, Copy, Debug, PartialEq, Eq, Structural)]
pub enum Effect {
    /// Fire the generic event for the signal.
    Emit(Signal),
    /// Fire the event specialized to the signal's variant (or variant pair).
    EmitVariant(Signal),
    /// Store the state on the object.
    Store(usize),
}

/// The generic and the specialized event for one signal, in that order.
pub open spec fn announce(s: Signal) -> Seq<Effect> {
    seq![Effect::Emit(s), Effect::EmitVariant(s)]
}

/// An accepted transition: exit, transition, the new state stored, enter.
pub open spec fn transition_script(from: usize, to: usize) -> Seq<Effect> {
    announce(Signal::Exit(from)) + announce(Signal::Transition(from, to)) + seq![
        Effect::Store(to),
    ] + announce(Signal::Enter(to))
}

/// A first state given to an object: it is entered, and that is all.
pub open spec fn attach_script(state: usize) -> Seq<Effect> {
    announce(Signal::Enter(state))
}

/// What a request for `next` comes to, for an object whose state is
/// `current` (none where the object has lost it): `Some` of the effects, or
/// `None` where the default rule decides.
pub open spec fn request_plan(current: Option<usize>, next: usize, policy: Option<PolicyView>) -> Option<
    Seq<Effect>,
> {
    match current {
        None => Some(Seq::empty()),
        Some(c) => if c == next {
            Some(Seq::empty())
        } else {
            match verdict_for(policy, c, next) {
                Verdict::Accept => Some(transition_script(c, next)),
                Verdict::Deny => Some(Seq::empty()),
                Verdict::ConsultRule => None,
            }
        },
    }
}

/// What the default rule's answer comes to, once asked.
pub open spec fn ruled_plan(current: usize, next: usize, rule_allows: bool) -> Seq<Effect> {
    if current != next && rule_allows {
        transition_script(current, next)
    } else {
        Seq::empty()
    }
}

/// Where a request stands after the policy has been read.
pub enum RequestStep {
    /// Decided: carry out these effects in order (none where refused).
    Done(Vec<Effect>),
    /// Ask the default rule for `from -> to` once, then hand its answer to
    /// `finish_state_request`.
    AskRule,
}

/// Appends the generic and the specialized event for `s`.
fn push_announce(out: &mut Vec<Effect>, s: Signal)
    ensures
        final(out)@ == old(out)@ + announce(s),
{
    out.push(Effect::Emit(s));
    out.push(Effect::EmitVariant(s));
}

/// The effects of an accepted transition from `from` to `to`.
pub fn transition_effects(from: usize, to: usize) -> (r: Vec<Effect>)
    ensures
        r@ == transition_script(from, to),
{
    let mut out: Vec<Effect> = Vec::new();
    push_announce(&mut out, Signal::Exit(from));
    push_announce(&mut out, Signal::Transition(from, to));
    out.push(Effect::Store(to));
    push_announce(&mut out, Signal::Enter(to));
    proof {
        assert(out@ =~= transition_script(from, to));
    }
    out
}

/// The effects of an object receiving its first state; none where the
/// object no longer holds one.
pub fn on_fsm_added(state: Option<usize>) -> (r: Vec<Effect>)
    ensures
        r@ == match state {
            Some(s) => attach_script(s),
            None => Seq::empty(),
        },
{
    let mut out: Vec<Effect> = Vec::new();
    if let Some(s) = state {
        push_announce(&mut out, Signal::Enter(s));
        proof {
            assert(out@ =~= attach_script(s));
        }
    }
    out
}

/// Reads a request for `next` against the object's state and policy.
/// A request for the current state, or for an object without one, comes to
/// nothing before the policy is read.
pub fn apply_state_request(current: Option<usize>, next: usize, policy: Option<&FSMOverride>) -> (r:
    RequestStep)
    ensures
        match r {
            RequestStep::Done(effects) => request_plan(current, next, policy_view(policy))
                == Some(effects@),
            RequestStep::AskRule => request_plan(current, next, policy_view(policy)) is None,
        },
{
    match current {
        None => RequestStep::Done(Vec::new()),
        Some(c) => {
            if c == next {
                return RequestStep::Done(Vec::new());
            }
            match transition_verdict(policy, c, next) {
                Verdict::Accept => RequestStep::Done(transition_effects(c, next)),
                Verdict::Deny => RequestStep::Done(Vec::new()),
                Verdict::ConsultRule => RequestStep::AskRule,
            }
        },
    }
}

/// Completes a request that was left to the default rule, whose answer is
/// `rule_allows`.
pub fn finish_state_request(current: usize, next: usize, rule_allows: bool) -> (r: Vec<Effect>)
    ensures
        r@ == ruled_plan(current, next, rule_allows),
{
    if current != next && rule_allows {
        transition_effects(current, next)
    } else {
        Vec::new()
    }
}

} // verus!
