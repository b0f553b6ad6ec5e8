//! Reading the simplified instance back from the engine's flat table.
//!
//! After preprocessing the engine exposes one flat table: per simplified
//! clause, the clause's literals in their signed encoding and one weight per
//! objective. A clause is hard exactly when its weight under every objective
//! equals the top weight; under every objective where its weight differs it
//! is a soft clause of that objective with that weight. Objective lists are
//! kept only up to the last objective that received a soft clause.

use vstd::prelude::*;

use crate::init::SoftClause;
use crate::lit::codes_legal;
use crate::lit::decode_clause;
use crate::lit::decoded_clause;
use crate::lit::Lit;
use crate::session::MaxPre;

verus! {

/// One row of the engine's flat post-processing table: a clause's literals in
/// their signed encoding, and its weight under each objective.
#[derive(Debug)]
pub struct PreproClause {
    pub lits: Vec<i32>,
    pub weights: Vec<u64>,
}

/// A row is well-formed for a session with `n_obj` objectives: every literal
/// code is legal and the weight vector has one entry per objective.
pub open spec fn row_wf(row: PreproClause, n_obj: int) -> bool {
    &&& codes_legal(row.lits@)
    &&& row.weights@.len() == n_obj
}

/// Every row of the table is well-formed.
pub open spec fn table_wf(rows: Seq<PreproClause>, n_obj: int) -> bool {
    forall|i: int| 0 <= i < rows.len() ==> row_wf(#[trigger] rows[i], n_obj)
}

/// A weight vector marks a hard clause: every entry equals the top weight.
pub open spec fn weights_all_top(ws: Seq<u64>, top: u64) -> bool {
    forall|o: int| 0 <= o < ws.len() ==> ws[o] == top
}

/// The hard clauses of the table, in table order: the decoded clauses of the
/// rows whose weight under every objective is the top weight.
pub open spec fn extract_hards(rows: Seq<PreproClause>, top: u64) -> Seq<Seq<Lit>>
    decreases rows.len(),
{
    if rows.len() == 0 {
        Seq::empty()
    } else {
        let pre = extract_hards(rows.drop_last(), top);
        if weights_all_top(rows.last().weights@, top) {
            pre.push(decoded_clause(rows.last().lits@))
        } else {
            pre
        }
    }
}

/// The soft clauses of objective `o`, in table order: each row whose weight
/// under `o` differs from the top weight, paired with that weight.
pub open spec fn extract_softs_at(rows: Seq<PreproClause>, top: u64, o: int) -> Seq<
    (Seq<Lit>, u64),
>
    decreases rows.len(),
{
    if rows.len() == 0 {
        Seq::empty()
    } else {
        let pre = extract_softs_at(rows.drop_last(), top, o);
        let row = rows.last();
        if 0 <= o < row.weights@.len() && row.weights@[o] != top {
            pre.push((decoded_clause(row.lits@), row.weights@[o]))
        } else {
            pre
        }
    }
}

/// How many objective lists the extractor keeps: the lists are resized lazily,
/// so trailing objectives without a soft clause are not represented.
pub open spec fn soft_list_len(rows: Seq<PreproClause>, top: u64, n_obj: int) -> int
    decreases n_obj,
{
    if n_obj <= 0 {
        0
    } else if extract_softs_at(rows, top, n_obj - 1).len() > 0 {
        n_obj
    } else {
        soft_list_len(rows, top, n_obj - 1)
    }
}

/// An executable objective list carries exactly the clauses and weights of a
/// specification-level soft-clause list.
pub open spec fn softs_list_matches(list: Seq<SoftClause>, spec_list: Seq<(Seq<Lit>, u64)>) -> bool {
    &&& list.len() == spec_list.len()
    &&& forall|j: int|
        0 <= j < list.len() ==> (#[trigger] list[j].lits@) == spec_list[j].0 && list[j].weight
            == spec_list[j].1
}

/// The extraction contract: `hards` and `softs` are exactly the simplified
/// instance that the flat table describes under the given top weight.
pub open spec fn is_extraction(
    hards: Seq<Vec<Lit>>,
    softs: Seq<Vec<SoftClause>>,
    rows: Seq<PreproClause>,
    top: u64,
    n_obj: int,
) -> bool {
    &&& hards.len() == extract_hards(rows, top).len()
    &&& forall|i: int|
        0 <= i < hards.len() ==> (#[trigger] hards[i]@) == extract_hards(rows, top)[i]
    &&& softs.len() == soft_list_len(rows, top, n_obj)
    &&& forall|o: int|
        0 <= o < softs.len() ==> softs_list_matches(
            (#[trigger] softs[o])@,
            extract_softs_at(rows, top, o),
        )
}

/// Extending a table prefix by one row appends its clause to the hard set
/// exactly when all its weights are the top weight.
pub proof fn lemma_extract_hards_step(rows: Seq<PreproClause>, top: u64, i: int)
    requires
        0 <= i < rows.len(),
    ensures
        extract_hards(rows.take(i + 1), top) == if weights_all_top(rows[i].weights@, top) {
            extract_hards(rows.take(i), top).push(decoded_clause(rows[i].lits@))
        } else {
            extract_hards(rows.take(i), top)
        },
{
    assert(rows.take(i + 1).drop_last() =~= rows.take(i));
}

/// Extending a table prefix by one row appends to objective `o` exactly when
/// the row's weight under `o` differs from the top weight.
pub proof fn lemma_extract_softs_at_step(rows: Seq<PreproClause>, top: u64, o: int, i: int)
    requires
        0 <= i < rows.len(),
    ensures
        extract_softs_at(rows.take(i + 1), top, o) == if 0 <= o < rows[i].weights@.len()
            && rows[i].weights@[o] != top {
            extract_softs_at(rows.take(i), top, o).push(
                (decoded_clause(rows[i].lits@), rows[i].weights@[o]),
            )
        } else {
            extract_softs_at(rows.take(i), top, o)
        },
{
    assert(rows.take(i + 1).drop_last() =~= rows.take(i));
}

/// Classification consistency: a weight vector marks its clause as hard
/// exactly when it marks it as soft under no objective; no clause is both
/// hard and soft under some objective.
pub proof fn lemma_classification_consistent(ws: Seq<u64>, top: u64)
    ensures
        weights_all_top(ws, top) <==> !(exists|o: int| 0 <= o < ws.len() && ws[o] != top),
{
    if !weights_all_top(ws, top) {
        let o = choose|o: int| 0 <= o < ws.len() && ws[o] != top;
        assert(0 <= o < ws.len() && ws[o] != top);
    }
}

/// A row whose weights all equal the top weight appears in the extracted
/// hard set as its decoded clause.
pub proof fn lemma_hard_membership(rows: Seq<PreproClause>, top: u64, i: int)
    requires
        0 <= i < rows.len(),
        weights_all_top(rows[i].weights@, top),
    ensures
        extract_hards(rows, top).contains(decoded_clause(rows[i].lits@)),
    decreases rows.len(),
{
    let x = decoded_clause(rows[i].lits@);
    if i == rows.len() - 1 {
        let s = extract_hards(rows, top);
        assert(s[s.len() - 1] == x);
    } else {
        assert(rows.drop_last()[i] == rows[i]);
        lemma_hard_membership(rows.drop_last(), top, i);
        let pre = extract_hards(rows.drop_last(), top);
        let k = choose|k: int| 0 <= k < pre.len() && pre[k] == x;
        assert(extract_hards(rows, top)[k] == x);
    }
}

/// A row whose weight under objective `o` differs from the top weight appears
/// in that objective's extracted soft list, with that weight.
pub proof fn lemma_soft_membership(rows: Seq<PreproClause>, top: u64, o: int, i: int)
    requires
        0 <= i < rows.len(),
        0 <= o < rows[i].weights@.len(),
        rows[i].weights@[o] != top,
    ensures
        extract_softs_at(rows, top, o).contains(
            (decoded_clause(rows[i].lits@), rows[i].weights@[o]),
        ),
    decreases rows.len(),
{
    let x = (decoded_clause(rows[i].lits@), rows[i].weights@[o]);
    if i == rows.len() - 1 {
        let s = extract_softs_at(rows, top, o);
        assert(s[s.len() - 1] == x);
    } else {
        assert(rows.drop_last()[i] == rows[i]);
        lemma_soft_membership(rows.drop_last(), top, o, i);
        let pre = extract_softs_at(rows.drop_last(), top, o);
        let k = choose|k: int| 0 <= k < pre.len() && pre[k] == x;
        assert(extract_softs_at(rows, top, o)[k] == x);
    }
}

/// Two executable objective lists carry the same clauses and weights.
pub open spec fn soft_lists_equal(a: Seq<SoftClause>, b: Seq<SoftClause>) -> bool {
    &&& a.len() == b.len()
    &&& forall|j: int|
        0 <= j < a.len() ==> (#[trigger] a[j].lits@) == b[j].lits@ && a[j].weight == b[j].weight
}

/// Idempotence: extraction is a function of the flat table and the top weight
/// alone — any two extractions of the same table yield the same hard clauses
/// and the same soft-clause lists.
pub proof fn lemma_extraction_idempotent(
    h1: Seq<Vec<Lit>>,
    s1: Seq<Vec<SoftClause>>,
    h2: Seq<Vec<Lit>>,
    s2: Seq<Vec<SoftClause>>,
    rows: Seq<PreproClause>,
    top: u64,
    n_obj: int,
)
    requires
        is_extraction(h1, s1, rows, top, n_obj),
        is_extraction(h2, s2, rows, top, n_obj),
    ensures
        h1.len() == h2.len(),
        forall|i: int| 0 <= i < h1.len() ==> (#[trigger] h1[i]@) == h2[i]@,
        s1.len() == s2.len(),
        forall|o: int| 0 <= o < s1.len() ==> soft_lists_equal((#[trigger] s1[o])@, s2[o]@),
{
    assert forall|o: int| 0 <= o < s1.len() implies soft_lists_equal(
        (#[trigger] s1[o])@,
        s2[o]@,
    ) by {
        assert(softs_list_matches(s1[o]@, extract_softs_at(rows, top, o)));
        assert(softs_list_matches(s2[o]@, extract_softs_at(rows, top, o)));
    }
}

/// Tests whether every weight of the vector equals the top weight.
fn weights_all_top_exec(ws: &Vec<u64>, top: u64) -> (r: bool)
    ensures
        r == weights_all_top(ws@, top),
{
    let mut o: usize = 0;
    while o < ws.len()
        invariant
            o <= ws@.len(),
            forall|x: int| 0 <= x < o ==> ws@[x] == top,
        decreases ws@.len() - o,
    {
        if ws[o] != top {
            proof {
                assert(ws@[o as int] != top);
            }
            return false;
        }
        o = o + 1;
    }
    true
}

impl MaxPre {
    /// Reconstructs the simplified instance from the engine's flat table and
    /// its current top weight: the hard clauses, and per objective the soft
    /// clauses with their weights, objective lists trimmed after the last
    /// objective that received a soft clause.
    pub fn prepro_instance(&self, top: u64, table: &Vec<PreproClause>) -> (r: (
        Vec<Vec<Lit>>,
        Vec<Vec<SoftClause>>,
    ))
        requires
            table_wf(table@, self.n_objectives_spec()),
        ensures
            is_extraction(r.0@, r.1@, table@, top, self.n_objectives_spec()),
    {
        let n_obj = self.n_objectives();
        let mut hards: Vec<Vec<Lit>> = Vec::new();
        let mut i: usize = 0;
        while i < table.len()
            invariant
                i <= table@.len(),
                table_wf(table@, self.n_objectives_spec()),
                hards@.len() == extract_hards(table@.take(i as int), top).len(),
                forall|x: int|
                    0 <= x < hards@.len() ==> (#[trigger] hards@[x]@) == extract_hards(
                        table@.take(i as int),
                        top,
                    )[x],
            decreases table@.len() - i,
        {
            let row = &table[i];
            proof {
                assert(row_wf(table@[i as int], self.n_objectives_spec()));
                lemma_extract_hards_step(table@, top, i as int);
            }
            if weights_all_top_exec(&row.weights, top) {
                let cl = decode_clause(&row.lits);
                hards.push(cl);
            }
            i = i + 1;
        }
        proof {
            assert(table@.take(table@.len() as int) =~= table@);
        }

        let mut softs: Vec<Vec<SoftClause>> = Vec::new();
        let mut o: usize = 0;
        while o < n_obj
            invariant
                o <= n_obj,
                n_obj as int == self.n_objectives_spec(),
                table_wf(table@, self.n_objectives_spec()),
                softs@.len() == o,
                forall|x: int|
                    0 <= x < o ==> softs_list_matches(
                        (#[trigger] softs@[x])@,
                        extract_softs_at(table@, top, x),
                    ),
            decreases n_obj - o,
        {
            let mut list: Vec<SoftClause> = Vec::new();
            let mut i: usize = 0;
            while i < table.len()
                invariant
                    i <= table@.len(),
                    o < n_obj,
                    n_obj as int == self.n_objectives_spec(),
                    table_wf(table@, self.n_objectives_spec()),
                    softs_list_matches(list@, extract_softs_at(table@.take(i as int), top, o as int)),
                decreases table@.len() - i,
            {
                let row = &table[i];
                proof {
                    assert(row_wf(table@[i as int], self.n_objectives_spec()));
                    lemma_extract_softs_at_step(table@, top, o as int, i as int);
                }
                let w = row.weights[o];
                if w != top {
                    let cl = decode_clause(&row.lits);
                    list.push(SoftClause { lits: cl, weight: w });
                }
                i = i + 1;
            }
            proof {
                assert(table@.take(table@.len() as int) =~= table@);
            }
            softs.push(list);
            o = o + 1;
        }

        // Trim trailing objectives without a soft clause: the lists are only
        // resized up to the last objective a soft clause was recorded for.
        let ghost n = self.n_objectives_spec();
        proof {
            assert(softs@.len() == n);
        }
        while softs.len() > 0 && softs[softs.len() - 1].len() == 0
            invariant
                softs@.len() <= n,
                table_wf(table@, n),
                forall|x: int|
                    0 <= x < softs@.len() ==> softs_list_matches(
                        (#[trigger] softs@[x])@,
                        extract_softs_at(table@, top, x),
                    ),
                soft_list_len(table@, top, n) == soft_list_len(table@, top, softs@.len() as int),
            decreases softs@.len(),
        {
            proof {
                let m = softs@.len() as int;
                assert(softs_list_matches(softs@[m - 1]@, extract_softs_at(table@, top, m - 1)));
                assert(extract_softs_at(table@, top, m - 1).len() == 0);
            }
            softs.pop();
        }
        proof {
            let m = softs@.len() as int;
            if m > 0 {
                assert(softs_list_matches(softs@[m - 1]@, extract_softs_at(table@, top, m - 1)));
                assert(extract_softs_at(table@, top, m - 1).len() > 0);
            }
            assert(softs@.len() == soft_list_len(table@, top, n));
        }

        (hards, softs)
    }
}

} // verus!
