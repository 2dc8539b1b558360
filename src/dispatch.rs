//! The variant dispatch table: a distinct slot for the entry into and the
//! exit from each variant, and for each ordered pair of variants, so that a
//! listener can subscribe to one of them without looking at state values.
//!
//! For `n` variants the table has `2n + n * n` slots: entries first, then
//! exits, then transitions in row order of `(from, to)`.
use crate::sequence::Signal;
use vstd::prelude::*;

verus! {

/// The number of slots for `n` variants.
pub open spec fn table_len(n: int) -> int {
    2 * n + n * n
}

/// Whether every variant that `s` names is below `n`.
pub open spec fn signal_fits(s: Signal, n: int) -> bool {
    match s {
        Signal::Enter(v) => v < n,
        Signal::Exit(v) => v < n,
        Signal::Transition(a, b) => a < n && b < n,
    }
}

/// The slot of `s` in the table for `n` variants.
pub open spec fn slot_of(s: Signal, n: int) -> int {
    match s {
        Signal::Enter(v) => v as int,
        Signal::Exit(v) => n + v,
        Signal::Transition(a, b) => 2 * n + a * n + b,
    }
}

/// The number of slots for `variants` variants, where it fits in `usize`.
pub fn table_size(variants: usize) -> (r: Option<usize>)
    ensures
        r == (if table_len(variants as int) <= usize::MAX {
            Some(table_len(variants as int) as usize)
        } else {
            None
        }),
{
    let square = match variants.checked_mul(variants) {
        Some(q) => q,
        None => {
            proof {
                assert(variants * variants <= table_len(variants as int)) by (nonlinear_arith);
            }
            return None;
        },
    };
    let double = match variants.checked_mul(2) {
        Some(d) => d,
        None => return None,
    };
    double.checked_add(square)
}

/// The slot of `s` in the table for `variants` variants, where `s` names
/// only variants below `variants` and the table fits in `usize`.
pub fn variant_slot(s: Signal, variants: usize) -> (r: Option<usize>)
    ensures
        r == (if signal_fits(s, variants as int) && table_len(variants as int) <= usize::MAX {
            Some(slot_of(s, variants as int) as usize)
        } else {
            None
        }),
{
    let size = match table_size(variants) {
        Some(z) => z,
        None => return None,
    };
    match s {
        Signal::Enter(v) => if v < variants {
            Some(v)
        } else {
            None
        },
        Signal::Exit(v) => if v < variants {
            Some(variants + v)
        } else {
            None
        },
        Signal::Transition(a, b) => if a < variants && b < variants {
            proof {
                lemma_slot_in_table(s, variants as int);
                assert(a * variants <= 2 * variants + variants * variants) by (nonlinear_arith)
                    requires
                        a < variants,
                ;
            }
            Some(2 * variants + a * variants + b)
        } else {
            None
        },
    }
}

/// Every signal that fits has a slot inside the table.
pub proof fn lemma_slot_in_table(s: Signal, n: int)
    requires
        n >= 0,
        signal_fits(s, n),
    ensures
        0 <= slot_of(s, n) < table_len(n),
{
    if let Signal::Transition(a, b) = s {
        assert(a * n + b < n * n) by (nonlinear_arith)
            requires
                0 <= a < n,
                0 <= b < n,
        ;
        assert(a * n >= 0) by (nonlinear_arith)
            requires
                0 <= a,
                0 <= n,
        ;
    }
}

/// Distinct signals that fit have distinct slots: each variant, and each
/// ordered pair of variants, has an event identity of its own.
pub proof fn lemma_slots_distinct(s: Signal, t: Signal, n: int)
    requires
        n >= 0,
        signal_fits(s, n),
        signal_fits(t, n),
        s != t,
    ensures
        slot_of(s, n) != slot_of(t, n),
{
    lemma_slot_in_table(s, n);
    lemma_slot_in_table(t, n);
    if let Signal::Transition(a, b) = s {
        if let Signal::Transition(c, d) = t {
            if a == c {
                assert(b != d);
            } else {
                assert(a * n + b != c * n + d) by (nonlinear_arith)
                    requires
                        0 <= a < n,
                        0 <= b < n,
                        0 <= c < n,
                        0 <= d < n,
                        a != c,
                {
                    if a < c {
                        assert(a * n + n <= c * n);
                    } else {
                        assert(c * n + n <= a * n);
                    }
                }
            }
        } else {
            assert(a * n >= 0) by (nonlinear_arith)
                requires
                    0 <= a,
                    0 <= n,
            ;
        }
    } else if let Signal::Transition(c, d) = t {
        assert(c * n >= 0) by (nonlinear_arith)
            requires
                0 <= c,
                0 <= n,
        ;
    }
}

} // verus!
