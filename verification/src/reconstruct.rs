//! Expanding a solver assignment back onto the original variables.
//!
//! The solver's assignment on the simplified variable space is streamed into
//! the engine, the engine applies its transformation trace, and the client
//! reads one truth value per original variable back. This module computes the
//! two ends of that exchange: the signed codes that are streamed in, and the
//! total assignment built from the values read back.

use vstd::prelude::*;

use crate::init::clause_wf;
use crate::lit::Lit;
use crate::lit::MAX_VAR;
use crate::session::MaxPre;

verus! {

impl MaxPre {
    /// Encodes a (possibly partial) assignment as the signed codes streamed
    /// into the engine's assignment buffer, in order.
    pub fn assignment_tokens(&self, sol: &Vec<Lit>) -> (r: Vec<i32>)
        requires
            clause_wf(sol@),
        ensures
            r@.len() == sol@.len(),
            forall|i: int| 0 <= i < sol@.len() ==> (#[trigger] r@[i]) as int == sol@[i].code(),
    {
        let mut r: Vec<i32> = Vec::new();
        let mut j: usize = 0;
        while j < sol.len()
            invariant
                j <= sol@.len(),
                clause_wf(sol@),
                r@.len() == j,
                forall|i: int| 0 <= i < j ==> (#[trigger] r@[i]) as int == sol@[i].code(),
            decreases sol@.len() - j,
        {
            let l = sol[j];
            r.push(l.encode());
            j = j + 1;
        }
        r
    }

    /// Builds the total reconstructed assignment from the engine's per-variable
    /// truth values: `vals[i]` is the engine's reconstructed value for variable
    /// `i + 1`, positive when the variable is true. The output carries exactly
    /// one literal for every variable from `1` to the maximum original
    /// variable, in that order.
    pub fn reconstruct(&self, vals: &Vec<i32>) -> (r: Vec<Lit>)
        requires
            vals@.len() <= MAX_VAR,
        ensures
            r@.len() == vals@.len(),
            forall|i: int|
                0 <= i < vals@.len() ==> (#[trigger] r@[i]) == (Lit {
                    var: (i + 1) as u32,
                    pos: vals@[i] > 0,
                }),
    {
        let mut r: Vec<Lit> = Vec::new();
        let mut j: usize = 0;
        while j < vals.len()
            invariant
                j <= vals@.len(),
                vals@.len() <= MAX_VAR,
                r@.len() == j,
                forall|i: int|
                    0 <= i < j ==> (#[trigger] r@[i]) == (Lit {
                        var: (i + 1) as u32,
                        pos: vals@[i] > 0,
                    }),
            decreases vals@.len() - j,
        {
            let pos = vals[j] > 0;
            r.push(Lit { var: (j + 1) as u32, pos });
            j = j + 1;
        }
        r
    }
}

/// The assignment carries a literal for variable `v`.
pub open spec fn assigns(r: Seq<Lit>, v: int) -> bool {
    exists|i: int| 0 <= i < r.len() && (#[trigger] r[i].var) as int == v
}

/// Reconstruction totality: an assignment whose `i`-th literal speaks of
/// variable `i + 1` assigns every variable from `1` to its length exactly
/// once — no gaps and no duplicates.
pub proof fn lemma_reconstruction_total(r: Seq<Lit>)
    requires
        forall|i: int| 0 <= i < r.len() ==> (#[trigger] r[i].var) as int == i + 1,
    ensures
        forall|v: int| 1 <= v <= r.len() ==> #[trigger] assigns(r, v),
        forall|i: int, j: int|
            0 <= i < r.len() && 0 <= j < r.len() && i != j ==> r[i].var != r[j].var,
{
    assert forall|v: int| 1 <= v <= r.len() implies #[trigger] assigns(r, v) by {
        assert(0 <= v - 1 < r.len() && r[v - 1].var as int == v);
    }
}

} // verus!
