//! Tests of session construction: the top weight and the init token stream.

use maxpre::InitToken;
use maxpre::Lit;
use maxpre::MaxPre;
use maxpre::SoftClause;

fn lit(code: i32) -> Lit {
    Lit::decode(code).unwrap()
}

#[test]
fn construct() {
    let hards = vec![vec![lit(1), lit(3)]];
    let softs: Vec<Vec<SoftClause>> = vec![];
    MaxPre::new(&hards, &softs, true);
}

#[test]
fn top_weight_no_softs_is_one() {
    let hards = vec![vec![lit(1), lit(2)]];
    let softs: Vec<Vec<SoftClause>> = vec![];
    let (pre, cmds) = MaxPre::new(&hards, &softs, false);
    assert_eq!(cmds.top, 1);
    assert!(!cmds.inprocessing);
    assert_eq!(pre.n_objectives(), 0);
}

#[test]
fn top_weight_is_one_plus_weight_sum() {
    // One objective with weights 3 and 2: top weight 6.
    let hards: Vec<Vec<Lit>> = vec![];
    let softs = vec![vec![
        SoftClause { lits: vec![lit(1)], weight: 3 },
        SoftClause { lits: vec![lit(-1)], weight: 2 },
    ]];
    let (pre, cmds) = MaxPre::new(&hards, &softs, false);
    assert_eq!(cmds.top, 6);
    assert_eq!(pre.n_objectives(), 1);
}

#[test]
fn top_weight_sums_across_objectives() {
    let hards: Vec<Vec<Lit>> = vec![];
    let softs = vec![
        vec![SoftClause { lits: vec![lit(1)], weight: 4 }],
        vec![
            SoftClause { lits: vec![lit(2)], weight: 5 },
            SoftClause { lits: vec![lit(-2)], weight: 6 },
        ],
    ];
    let (pre, cmds) = MaxPre::new(&hards, &softs, true);
    assert_eq!(cmds.top, 16);
    assert_eq!(pre.n_objectives(), 2);
}

#[test]
fn hard_clause_stream_is_zero_terminated() {
    let hards = vec![vec![lit(1), lit(2)], vec![lit(-3)]];
    let softs: Vec<Vec<SoftClause>> = vec![];
    let (_, cmds) = MaxPre::new(&hards, &softs, false);
    assert_eq!(
        cmds.tokens,
        vec![
            InitToken::Lit(1),
            InitToken::Lit(2),
            InitToken::Lit(0),
            InitToken::Lit(-3),
            InitToken::Lit(0),
        ]
    );
}

#[test]
fn soft_clause_stream_carries_weight_then_clause() {
    let hards: Vec<Vec<Lit>> = vec![];
    let softs = vec![vec![
        SoftClause { lits: vec![lit(1)], weight: 3 },
        SoftClause { lits: vec![lit(-1)], weight: 2 },
    ]];
    let (_, cmds) = MaxPre::new(&hards, &softs, false);
    assert_eq!(
        cmds.tokens,
        vec![
            InitToken::Weight(3),
            InitToken::Lit(1),
            InitToken::Lit(0),
            InitToken::Weight(2),
            InitToken::Lit(-1),
            InitToken::Lit(0),
        ]
    );
}

#[test]
fn later_objectives_get_zero_weight_placeholders() {
    // A clause of the second objective is preceded by one zero-weight slot,
    // keeping the per-clause weight vector rectangular.
    let hards = vec![vec![lit(4)]];
    let softs = vec![
        vec![SoftClause { lits: vec![lit(1)], weight: 7 }],
        vec![SoftClause { lits: vec![lit(2)], weight: 9 }],
    ];
    let (_, cmds) = MaxPre::new(&hards, &softs, false);
    assert_eq!(
        cmds.tokens,
        vec![
            InitToken::Lit(4),
            InitToken::Lit(0),
            InitToken::Weight(7),
            InitToken::Lit(1),
            InitToken::Lit(0),
            InitToken::Weight(0),
            InitToken::Weight(9),
            InitToken::Lit(2),
            InitToken::Lit(0),
        ]
    );
}
