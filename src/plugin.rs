//! Setup for one state type: which core observers are installed, and the
//! name of the type's group in the listener hierarchy.
use crate::naming::chars_of;
use vstd::prelude::*;

verus! {

/// An observer that setup installs for a state type.
#[derive(Clone, Copy, Debug, PartialEq, Eq, Structural)]
pub enum CoreObserver {
    /// Handles transition requests.
    ApplyStateRequest,
    /// Fires the entry events when an object receives its first state.
    OnFsmAdded,
}

/// Setup options for one state type.
pub struct FSMPlugin {
    ignore_fsm_addition: bool,
}

impl FSMPlugin {
    /// Whether the observer for first states is left out.
    pub closed spec fn skips_addition(&self) -> bool {
        self.ignore_fsm_addition
    }

    /// Setup with both core observers.
    pub fn new() -> (r: Self)
        ensures
            !r.skips_addition(),
    {
        FSMPlugin { ignore_fsm_addition: false }
    }

    /// The same setup without the observer for first states.
    pub fn ignore_fsm_addition(self) -> (r: Self)
        ensures
            r.skips_addition(),
    {
        FSMPlugin { ignore_fsm_addition: true }
    }

    /// Whether the observer for first states is left out.
    pub fn ignores_fsm_addition(&self) -> (r: bool)
        ensures
            r == self.skips_addition(),
    {
        self.ignore_fsm_addition
    }

    /// The observers to install, in order: the request handler always, then
    /// the observer for first states unless it is left out.
    pub fn core_observers(&self) -> (r: Vec<CoreObserver>)
        ensures
            r@ == (if self.skips_addition() {
                seq![CoreObserver::ApplyStateRequest]
            } else {
                seq![CoreObserver::ApplyStateRequest, CoreObserver::OnFsmAdded]
            }),
    {
        let mut out: Vec<CoreObserver> = Vec::new();
        out.push(CoreObserver::ApplyStateRequest);
        if !self.ignore_fsm_addition {
            out.push(CoreObserver::OnFsmAdded);
        }
        proof {
            if self.skips_addition() {
                assert(out@ =~= seq![CoreObserver::ApplyStateRequest]);
            } else {
                assert(out@ =~= seq![CoreObserver::ApplyStateRequest, CoreObserver::OnFsmAdded]);
            }
        }
        out
    }
}

impl Default for FSMPlugin {
    /// Same as `new`.
    fn default() -> (r: Self)
        ensures
            !r.skips_addition(),
    {
        Self::new()
    }
}

/// Where the segment that begins at or after `start` and is scanned from
/// `i` ends up starting, splitting on `::` from left to right.
pub open spec fn segment_start(cs: Seq<char>, i: int, start: int) -> int
    decreases cs.len() - i,
{
    if i < 0 || i + 1 >= cs.len() {
        start
    } else if cs[i] == ':' && cs[i + 1] == ':' {
        segment_start(cs, i + 2, i + 2)
    } else {
        segment_start(cs, i + 1, start)
    }
}

/// The last `::`-separated segment of a path.
pub open spec fn last_segment(cs: Seq<char>) -> Seq<char> {
    cs.subrange(segment_start(cs, 0, 0), cs.len() as int)
}

/// The name of a state type's group: the last `::`-separated segment of
/// the type's path (`game::LifeFSM` gives `LifeFSM`).
pub fn group_name(type_path: &str) -> (r: String)
    ensures
        r@ == last_segment(type_path@),
{
    let cs = chars_of(type_path);
    let n = cs.len();
    let mut i: usize = 0;
    let mut start: usize = 0;
    while i < n && n - i > 1
        invariant
            n == cs.len(),
            cs@ == type_path@,
            start <= i <= n,
            segment_start(cs@, i as int, start as int) == segment_start(cs@, 0, 0),
        decreases n - i,
    {
        if cs[i] == ':' && cs[i + 1] == ':' {
            i = i + 2;
            start = i;
        } else {
            i = i + 1;
        }
    }
    let mut out = String::new();
    let mut k: usize = start;
    while k < n
        invariant
            n == cs.len(),
            start <= k <= n,
            out@ == cs@.subrange(start as int, k as int),
        decreases n - k,
    {
        out.push(cs[k]);
        proof {
            assert(out@ =~= cs@.subrange(start as int, k as int + 1));
        }
        k = k + 1;
    }
    out
}

} // verus!
