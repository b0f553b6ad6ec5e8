//! The session handle and the protocol around one preprocessing run.
//!
//! A session is built once from a weighted instance, fixing the number of
//! objectives; everything the engine must be told during construction is
//! returned as an [`InitCommands`] value. Afterwards the session interprets
//! the engine's answers: the flat clause/weight table becomes the simplified
//! hard and soft clause sets, raw label and fixed-literal arrays become
//! literals, and the reconstructed truth values become a total assignment.

use vstd::prelude::*;

use crate::init::clause_wf;
use crate::init::clauses_wf;
use crate::init::hard_tokens;
use crate::init::init_tokens;
use crate::init::lemma_hard_tokens_step;
use crate::init::lemma_obj_weight_sum_prefix;
use crate::init::lemma_obj_weight_sum_step;
use crate::init::lemma_objective_tokens_step;
use crate::init::lemma_soft_tokens_step;
use crate::init::lemma_total_weight_prefix;
use crate::init::lemma_total_weight_step;
use crate::init::obj_weight_sum;
use crate::init::objective_tokens;
use crate::init::objectives_wf;
use crate::init::push_clause_tokens;
use crate::init::soft_tokens;
use crate::init::total_weight;
use crate::init::zero_weights;
use crate::init::InitCommands;
use crate::init::InitToken;
use crate::init::SoftClause;
use crate::lit::codes_legal;
use crate::lit::decode_clause;
use crate::lit::decoded;
use crate::lit::decoded_clause;
use crate::lit::legal_code;
use crate::lit::Lit;
use crate::lit::MAX_VAR;

verus! {

/// The client side of one preprocessing session. The native engine holds the
/// instance itself; this handle holds what the protocol must remember — the
/// number of objectives, fixed at construction.
pub struct MaxPre {
    n_obj: usize,
}

impl MaxPre {
    /// The number of objectives the session was built with.
    pub closed spec fn n_objectives_spec(self) -> int {
        self.n_obj as int
    }

    /// Reads the number of objectives.
    pub fn n_objectives(&self) -> (r: usize)
        ensures
            r as int == self.n_objectives_spec(),
    {
        self.n_obj
    }

    /// Builds a session from hard clauses and an ordered list of weighted
    /// objectives. Returns the session handle and everything the engine must
    /// be told: the top weight — `1` plus the sum of all soft-clause weights —
    /// the inprocessing flag, and the full initialization token stream.
    pub fn new(hards: &Vec<Vec<Lit>>, softs: &Vec<Vec<SoftClause>>, inprocessing: bool) -> (r: (
        MaxPre,
        InitCommands,
    ))
        requires
            clauses_wf(hards@),
            objectives_wf(softs@),
            1 + total_weight(softs@) <= u64::MAX,
        ensures
            r.0.n_objectives_spec() == softs@.len(),
            r.1.top as int == 1 + total_weight(softs@),
            r.1.inprocessing == inprocessing,
            r.1.tokens@ == init_tokens(hards@, softs@),
    {
        let top = compute_top_weight(softs);
        let mut tokens: Vec<InitToken> = Vec::new();

        let mut i: usize = 0;
        while i < hards.len()
            invariant
                i <= hards@.len(),
                clauses_wf(hards@),
                tokens@ == hard_tokens(hards@.take(i as int)),
            decreases hards@.len() - i,
        {
            push_clause_tokens(&mut tokens, &hards[i]);
            proof {
                lemma_hard_tokens_step(hards@, i as int);
            }
            i = i + 1;
        }
        proof {
            assert(hards@.take(hards@.len() as int) =~= hards@);
        }

        let mut i: usize = 0;
        while i < softs.len()
            invariant
                i <= softs@.len(),
                objectives_wf(softs@),
                tokens@ == hard_tokens(hards@) + soft_tokens(softs@.take(i as int)),
            decreases softs@.len() - i,
        {
            let obj = &softs[i];
            let mut j: usize = 0;
            while j < obj.len()
                invariant
                    i < softs@.len(),
                    j <= obj@.len(),
                    obj@ == softs@[i as int]@,
                    objectives_wf(softs@),
                    tokens@ == hard_tokens(hards@) + soft_tokens(softs@.take(i as int))
                        + objective_tokens(i as int, obj@.take(j as int)),
                decreases obj@.len() - j,
            {
                let ghost before = tokens@;
                let mut k: usize = 0;
                while k < i
                    invariant
                        k <= i,
                        tokens@ == before + zero_weights(k as int),
                    decreases i - k,
                {
                    tokens.push(InitToken::Weight(0));
                    k = k + 1;
                }
                let sc = &obj[j];
                tokens.push(InitToken::Weight(sc.weight));
                push_clause_tokens(&mut tokens, &sc.lits);
                proof {
                    lemma_objective_tokens_step(i as int, obj@, j as int);
                    assert(tokens@ =~= hard_tokens(hards@) + soft_tokens(softs@.take(i as int))
                        + objective_tokens(i as int, obj@.take(j as int + 1)));
                }
                j = j + 1;
            }
            proof {
                assert(obj@.take(obj@.len() as int) =~= obj@);
                lemma_soft_tokens_step(softs@, i as int);
                assert(tokens@ =~= hard_tokens(hards@) + soft_tokens(softs@.take(i as int + 1)));
            }
            i = i + 1;
        }
        proof {
            assert(softs@.take(softs@.len() as int) =~= softs@);
        }

        (MaxPre { n_obj: softs.len() }, InitCommands { top, inprocessing, tokens })
    }

    /// Decodes the labels introduced by preprocessing, as read back from the
    /// engine: one literal per raw signed code, in engine order.
    pub fn prepro_labels(&self, raw: &Vec<i32>) -> (r: Vec<Lit>)
        requires
            codes_legal(raw@),
        ensures
            r@ == decoded_clause(raw@),
    {
        decode_clause(raw)
    }

    /// Decodes the literals the engine has proven to hold in every solution,
    /// as read back from the engine: one literal per raw signed code.
    pub fn prepro_fixed_lits(&self, raw: &Vec<i32>) -> (r: Vec<Lit>)
        requires
            codes_legal(raw@),
        ensures
            r@ == decoded_clause(raw@),
    {
        decode_clause(raw)
    }

    /// Interprets the engine's answer to a variable allocation: `0` signals
    /// rejection, any other value is the identifier of the new variable.
    pub fn add_var(&self, response: i32) -> (r: Result<u32, ()>)
        requires
            0 <= response <= MAX_VAR as i32,
        ensures
            r is Err <==> response == 0,
            response != 0 ==> r == Ok::<u32, ()>(response as u32),
    {
        if response == 0 {
            Err(())
        } else {
            Ok(response as u32)
        }
    }

    /// The signed codes that stream one clause into an active session: the
    /// clause's literals, then the `0` terminator. Whether the engine accepts
    /// the addition is its status answer to the terminator.
    pub fn add_clause(&self, clause: &Vec<Lit>) -> (r: Vec<i32>)
        requires
            clause_wf(clause@),
        ensures
            r@.len() == clause@.len() + 1,
            forall|i: int|
                0 <= i < clause@.len() ==> (#[trigger] r@[i]) as int == clause@[i].code(),
            r@[clause@.len() as int] == 0,
    {
        let mut r: Vec<i32> = Vec::new();
        let mut j: usize = 0;
        while j < clause.len()
            invariant
                j <= clause@.len(),
                clause_wf(clause@),
                r@.len() == j,
                forall|i: int| 0 <= i < j ==> (#[trigger] r@[i]) as int == clause@[i].code(),
            decreases clause@.len() - j,
        {
            let l = clause[j];
            r.push(l.encode());
            j = j + 1;
        }
        r.push(0);
        r
    }

    /// Interprets the engine's answer to a label registration: `0` signals
    /// rejection, any other value is the label's literal.
    pub fn add_label(&self, response: i32) -> (r: Result<Lit, ()>)
        requires
            response == 0 || legal_code(response as int),
        ensures
            r is Err <==> response == 0,
            response != 0 ==> r == Ok::<Lit, ()>(decoded(response as int)) && r->Ok_0.wf(),
    {
        match Lit::decode(response) {
            Some(l) => Ok(l),
            None => Err(()),
        }
    }
}

/// Computes the top weight: `1` plus the sum of all soft-clause weights over
/// all objectives.
fn compute_top_weight(softs: &Vec<Vec<SoftClause>>) -> (r: u64)
    requires
        1 + total_weight(softs@) <= u64::MAX,
    ensures
        r as int == 1 + total_weight(softs@),
{
    let mut top: u64 = 1;
    let mut i: usize = 0;
    while i < softs.len()
        invariant
            i <= softs@.len(),
            1 + total_weight(softs@) <= u64::MAX,
            top as int == 1 + total_weight(softs@.take(i as int)),
        decreases softs@.len() - i,
    {
        let obj = &softs[i];
        let mut j: usize = 0;
        while j < obj.len()
            invariant
                i < softs@.len(),
                j <= obj@.len(),
                obj@ == softs@[i as int]@,
                1 + total_weight(softs@) <= u64::MAX,
                top as int == 1 + total_weight(softs@.take(i as int)) + obj_weight_sum(
                    obj@.take(j as int),
                ),
            decreases obj@.len() - j,
        {
            proof {
                lemma_obj_weight_sum_step(obj@, j as int);
                lemma_obj_weight_sum_prefix(obj@, j as int + 1);
                lemma_total_weight_step(softs@, i as int);
                lemma_total_weight_prefix(softs@, i as int + 1);
            }
            let sc = &obj[j];
            top = top + sc.weight;
            j = j + 1;
        }
        proof {
            assert(obj@.take(obj@.len() as int) =~= obj@);
            lemma_total_weight_step(softs@, i as int);
        }
        i = i + 1;
    }
    proof {
        assert(softs@.take(softs@.len() as int) =~= softs@);
    }
    top
}

} // verus!
