//! The streaming construction phase of a session.
//!
//! A weighted instance is handed to the engine as one token stream: the
//! literals of every hard clause, each clause closed by the `0` terminator;
//! then, for every objective in order and every soft clause of it, one
//! zero-weight placeholder per earlier objective, the clause's weight under
//! its own objective, and the clause's literals with the terminator. The
//! stream is opened with the top weight, `1` plus the sum of all soft-clause
//! weights over all objectives.

use vstd::prelude::*;

use crate::lit::Lit;

verus! {

/// A soft clause: a clause together with its weight under one objective.
#[derive(Debug, PartialEq, Eq)]
pub struct SoftClause {
    pub lits: Vec<Lit>,
    pub weight: u64,
}

/// One token of the engine's initialization stream.
#[derive(Clone, Copy, PartialEq, Eq, Structural, Debug)]
pub enum InitToken {
    /// A clause literal in its signed encoding, or the `0` terminator.
    Lit(i32),
    /// One weight slot of a soft clause's per-objective weight vector.
    Weight(u64),
}

/// Everything the engine is told during construction: the top weight and the
/// inprocessing flag it is opened with, and the token stream that follows.
pub struct InitCommands {
    pub top: u64,
    pub inprocessing: bool,
    pub tokens: Vec<InitToken>,
}

/// Every literal of the clause is well-formed.
pub open spec fn clause_wf(cl: Seq<Lit>) -> bool {
    forall|i: int| 0 <= i < cl.len() ==> cl[i].wf()
}

/// Every clause of the set is well-formed.
pub open spec fn clauses_wf(cls: Seq<Vec<Lit>>) -> bool {
    forall|i: int| 0 <= i < cls.len() ==> clause_wf(#[trigger] cls[i]@)
}

/// Every clause of the objective is well-formed.
pub open spec fn objective_wf(obj: Seq<SoftClause>) -> bool {
    forall|i: int| 0 <= i < obj.len() ==> clause_wf(#[trigger] obj[i].lits@)
}

/// Every objective of the list is well-formed.
pub open spec fn objectives_wf(softs: Seq<Vec<SoftClause>>) -> bool {
    forall|i: int| 0 <= i < softs.len() ==> objective_wf(#[trigger] softs[i]@)
}

/// The sum of the weights of one objective's soft clauses.
pub open spec fn obj_weight_sum(obj: Seq<SoftClause>) -> int
    decreases obj.len(),
{
    if obj.len() == 0 {
        0
    } else {
        obj_weight_sum(obj.drop_last()) + obj.last().weight
    }
}

/// The sum of all weights across all objectives and all soft clauses.
pub open spec fn total_weight(softs: Seq<Vec<SoftClause>>) -> int
    decreases softs.len(),
{
    if softs.len() == 0 {
        0
    } else {
        total_weight(softs.drop_last()) + obj_weight_sum(softs.last()@)
    }
}

/// The token carrying one literal.
pub open spec fn lit_token(l: Lit) -> InitToken {
    InitToken::Lit(l.code() as i32)
}

/// The tokens of a clause's literals, in clause order.
pub open spec fn clause_lit_tokens(cl: Seq<Lit>) -> Seq<InitToken>
    decreases cl.len(),
{
    if cl.len() == 0 {
        Seq::empty()
    } else {
        clause_lit_tokens(cl.drop_last()).push(lit_token(cl.last()))
    }
}

/// `n` zero-weight placeholder tokens.
pub open spec fn zero_weights(n: int) -> Seq<InitToken>
    decreases n,
{
    if n <= 0 {
        Seq::empty()
    } else {
        zero_weights(n - 1).push(InitToken::Weight(0))
    }
}

/// The stream of one clause: its literals in their signed encoding, then the
/// `0` terminator.
pub open spec fn clause_tokens(cl: Seq<Lit>) -> Seq<InitToken> {
    clause_lit_tokens(cl) + seq![InitToken::Lit(0)]
}

/// The stream of the hard-clause set.
pub open spec fn hard_tokens(cls: Seq<Vec<Lit>>) -> Seq<InitToken>
    decreases cls.len(),
{
    if cls.len() == 0 {
        Seq::empty()
    } else {
        hard_tokens(cls.drop_last()) + clause_tokens(cls.last()@)
    }
}

/// The stream of one soft clause of objective `obj_idx`: one zero-weight
/// placeholder per earlier objective, the real weight, then the clause.
pub open spec fn soft_clause_tokens(obj_idx: int, cl: Seq<Lit>, weight: u64) -> Seq<InitToken> {
    zero_weights(obj_idx) + seq![InitToken::Weight(weight)] + clause_tokens(cl)
}

/// The stream of one whole objective.
pub open spec fn objective_tokens(obj_idx: int, obj: Seq<SoftClause>) -> Seq<InitToken>
    decreases obj.len(),
{
    if obj.len() == 0 {
        Seq::empty()
    } else {
        objective_tokens(obj_idx, obj.drop_last())
            + soft_clause_tokens(obj_idx, obj.last().lits@, obj.last().weight)
    }
}

/// The stream of all objectives, in order.
pub open spec fn soft_tokens(softs: Seq<Vec<SoftClause>>) -> Seq<InitToken>
    decreases softs.len(),
{
    if softs.len() == 0 {
        Seq::empty()
    } else {
        soft_tokens(softs.drop_last()) + objective_tokens(softs.len() - 1, softs.last()@)
    }
}

/// The whole initialization stream: hard clauses first, then the objectives.
pub open spec fn init_tokens(hards: Seq<Vec<Lit>>, softs: Seq<Vec<SoftClause>>) -> Seq<
    InitToken,
> {
    hard_tokens(hards) + soft_tokens(softs)
}

/// An objective's weight sum is never negative.
pub proof fn lemma_obj_weight_sum_nonneg(obj: Seq<SoftClause>)
    ensures
        obj_weight_sum(obj) >= 0,
    decreases obj.len(),
{
    if obj.len() > 0 {
        lemma_obj_weight_sum_nonneg(obj.drop_last());
    }
}

/// Extending an objective prefix by one clause adds that clause's weight.
pub proof fn lemma_obj_weight_sum_step(obj: Seq<SoftClause>, j: int)
    requires
        0 <= j < obj.len(),
    ensures
        obj_weight_sum(obj.take(j + 1)) == obj_weight_sum(obj.take(j)) + obj[j].weight,
{
    assert(obj.take(j + 1).drop_last() =~= obj.take(j));
}

/// A prefix of an objective weighs no more than the whole objective.
pub proof fn lemma_obj_weight_sum_prefix(obj: Seq<SoftClause>, j: int)
    requires
        0 <= j <= obj.len(),
    ensures
        obj_weight_sum(obj.take(j)) <= obj_weight_sum(obj),
    decreases obj.len() - j,
{
    if j < obj.len() {
        lemma_obj_weight_sum_step(obj, j);
        lemma_obj_weight_sum_prefix(obj, j + 1);
    } else {
        assert(obj.take(j) =~= obj);
    }
}

/// Extending an objective-list prefix by one objective adds its weight sum.
pub proof fn lemma_total_weight_step(softs: Seq<Vec<SoftClause>>, i: int)
    requires
        0 <= i < softs.len(),
    ensures
        total_weight(softs.take(i + 1)) == total_weight(softs.take(i)) + obj_weight_sum(
            softs[i]@,
        ),
{
    assert(softs.take(i + 1).drop_last() =~= softs.take(i));
}

/// A prefix of the objective list weighs no more than the whole list.
pub proof fn lemma_total_weight_prefix(softs: Seq<Vec<SoftClause>>, i: int)
    requires
        0 <= i <= softs.len(),
    ensures
        total_weight(softs.take(i)) <= total_weight(softs),
    decreases softs.len() - i,
{
    if i < softs.len() {
        lemma_total_weight_step(softs, i);
        lemma_obj_weight_sum_nonneg(softs[i]@);
        lemma_total_weight_prefix(softs, i + 1);
    } else {
        assert(softs.take(i) =~= softs);
    }
}

/// Extending a hard-clause prefix by one clause appends that clause's stream.
pub proof fn lemma_hard_tokens_step(cls: Seq<Vec<Lit>>, i: int)
    requires
        0 <= i < cls.len(),
    ensures
        hard_tokens(cls.take(i + 1)) == hard_tokens(cls.take(i)) + clause_tokens(cls[i]@),
{
    assert(cls.take(i + 1).drop_last() =~= cls.take(i));
}

/// Extending an objective prefix by one soft clause appends its stream.
pub proof fn lemma_objective_tokens_step(obj_idx: int, obj: Seq<SoftClause>, j: int)
    requires
        0 <= j < obj.len(),
    ensures
        objective_tokens(obj_idx, obj.take(j + 1)) == objective_tokens(obj_idx, obj.take(j))
            + soft_clause_tokens(obj_idx, obj[j].lits@, obj[j].weight),
{
    assert(obj.take(j + 1).drop_last() =~= obj.take(j));
}

/// Extending an objective-list prefix by one objective appends its stream.
pub proof fn lemma_soft_tokens_step(softs: Seq<Vec<SoftClause>>, i: int)
    requires
        0 <= i < softs.len(),
    ensures
        soft_tokens(softs.take(i + 1)) == soft_tokens(softs.take(i)) + objective_tokens(
            i,
            softs[i]@,
        ),
{
    assert(softs.take(i + 1).drop_last() =~= softs.take(i));
}

/// Extending a clause prefix by one literal appends that literal's token.
pub proof fn lemma_clause_lit_tokens_step(cl: Seq<Lit>, j: int)
    requires
        0 <= j < cl.len(),
    ensures
        clause_lit_tokens(cl.take(j + 1)) == clause_lit_tokens(cl.take(j)).push(lit_token(cl[j])),
{
    assert(cl.take(j + 1).drop_last() =~= cl.take(j));
}

/// Appends one clause's stream: its encoded literals, then the terminator.
pub(crate) fn push_clause_tokens(tokens: &mut Vec<InitToken>, cl: &Vec<Lit>)
    requires
        clause_wf(cl@),
    ensures
        final(tokens)@ == old(tokens)@ + clause_tokens(cl@),
{
    let ghost base = tokens@;
    let mut j: usize = 0;
    while j < cl.len()
        invariant
            0 <= j <= cl.len(),
            clause_wf(cl@),
            tokens@ == base + clause_lit_tokens(cl@.take(j as int)),
        decreases cl.len() - j,
    {
        let l = cl[j];
        tokens.push(InitToken::Lit(l.encode()));
        proof {
            lemma_clause_lit_tokens_step(cl@, j as int);
        }
        j = j + 1;
    }
    tokens.push(InitToken::Lit(0));
    proof {
        assert(cl@.take(cl@.len() as int) =~= cl@);
        assert(tokens@ =~= base + clause_tokens(cl@));
    }
}

} // verus!
