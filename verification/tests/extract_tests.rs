//! Tests of the instance extractor: hard/soft classification from the flat
//! clause/weight table.

use maxpre::Lit;
use maxpre::MaxPre;
use maxpre::PreproClause;
use maxpre::SoftClause;

fn lit(code: i32) -> Lit {
    Lit::decode(code).unwrap()
}

fn session(n_obj: usize) -> MaxPre {
    let hards: Vec<Vec<Lit>> = vec![];
    let mut softs: Vec<Vec<SoftClause>> = Vec::new();
    for _ in 0..n_obj {
        // One dummy soft clause of weight 0 per objective fixes the count.
        softs.push(vec![SoftClause { lits: vec![lit(1)], weight: 0 }]);
    }
    MaxPre::new(&hards, &softs, false).0
}

#[test]
fn single_hard_clause_no_objectives() {
    // With no objectives every clause's weight vector is trivially all-top.
    let pre = session(0);
    let table = vec![PreproClause { lits: vec![1, 2], weights: vec![] }];
    let (hards, softs) = pre.prepro_instance(1, &table);
    assert_eq!(hards, vec![vec![lit(1), lit(2)]]);
    assert!(softs.is_empty());
}

#[test]
fn soft_clauses_classified_under_objective() {
    // Weights 3 and 2 under top weight 6: both rows are soft, none hard.
    let pre = session(1);
    let table = vec![
        PreproClause { lits: vec![1], weights: vec![3] },
        PreproClause { lits: vec![-1], weights: vec![2] },
    ];
    let (hards, softs) = pre.prepro_instance(6, &table);
    assert!(hards.is_empty());
    assert_eq!(softs.len(), 1);
    assert_eq!(
        softs[0],
        vec![
            SoftClause { lits: vec![lit(1)], weight: 3 },
            SoftClause { lits: vec![lit(-1)], weight: 2 },
        ]
    );
}

#[test]
fn hard_iff_top_under_every_objective() {
    let pre = session(2);
    let table = vec![
        // Hard: top weight under both objectives.
        PreproClause { lits: vec![1, 2], weights: vec![10, 10] },
        // Soft under the first objective only.
        PreproClause { lits: vec![3], weights: vec![4, 10] },
        // Soft under both objectives at once.
        PreproClause { lits: vec![-4], weights: vec![5, 6] },
    ];
    let (hards, softs) = pre.prepro_instance(10, &table);
    assert_eq!(hards, vec![vec![lit(1), lit(2)]]);
    assert_eq!(softs.len(), 2);
    assert_eq!(
        softs[0],
        vec![
            SoftClause { lits: vec![lit(3)], weight: 4 },
            SoftClause { lits: vec![lit(-4)], weight: 5 },
        ]
    );
    assert_eq!(softs[1], vec![SoftClause { lits: vec![lit(-4)], weight: 6 }]);
}

#[test]
fn trailing_empty_objectives_are_trimmed() {
    // The second objective receives no soft clause, so only the first list
    // is kept.
    let pre = session(2);
    let table = vec![PreproClause { lits: vec![1], weights: vec![3, 9] }];
    let (hards, softs) = pre.prepro_instance(9, &table);
    assert!(hards.is_empty());
    assert_eq!(softs.len(), 1);
    assert_eq!(softs[0], vec![SoftClause { lits: vec![lit(1)], weight: 3 }]);
}

#[test]
fn earlier_empty_objectives_are_kept() {
    // A soft clause under the second objective alone keeps an empty first
    // list in place.
    let pre = session(2);
    let table = vec![PreproClause { lits: vec![1], weights: vec![9, 3] }];
    let (hards, softs) = pre.prepro_instance(9, &table);
    assert!(hards.is_empty());
    assert_eq!(softs.len(), 2);
    assert!(softs[0].is_empty());
    assert_eq!(softs[1], vec![SoftClause { lits: vec![lit(1)], weight: 3 }]);
}

#[test]
fn extraction_is_idempotent() {
    // Two extractions of the same table without an intervening change agree.
    let pre = session(2);
    let table = vec![
        PreproClause { lits: vec![1, 2], weights: vec![10, 10] },
        PreproClause { lits: vec![3], weights: vec![4, 10] },
        PreproClause { lits: vec![-4], weights: vec![5, 6] },
    ];
    let (hards_a, softs_a) = pre.prepro_instance(10, &table);
    let (hards_b, softs_b) = pre.prepro_instance(10, &table);
    assert_eq!(hards_a, hards_b);
    assert_eq!(softs_a, softs_b);
}

#[test]
fn empty_table_yields_empty_instance() {
    let pre = session(1);
    let table: Vec<PreproClause> = vec![];
    let (hards, softs) = pre.prepro_instance(5, &table);
    assert!(hards.is_empty());
    assert!(softs.is_empty());
}
