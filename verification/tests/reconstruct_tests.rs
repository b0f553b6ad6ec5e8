//! Tests of assignment reconstruction: streaming the solver assignment in
//! and building the total assignment from the engine's truth values.

use maxpre::Lit;
use maxpre::MaxPre;
use maxpre::SoftClause;

fn lit(code: i32) -> Lit {
    Lit::decode(code).unwrap()
}

fn session() -> MaxPre {
    let hards = vec![vec![lit(1)]];
    let softs: Vec<Vec<SoftClause>> = vec![];
    MaxPre::new(&hards, &softs, false).0
}

#[test]
fn assignment_tokens_encode_each_literal() {
    let pre = session();
    let sol = vec![lit(1), lit(-3), lit(2)];
    assert_eq!(pre.assignment_tokens(&sol), vec![1, -3, 2]);
}

#[test]
fn assignment_tokens_empty_input() {
    let pre = session();
    let sol: Vec<Lit> = vec![];
    assert!(pre.assignment_tokens(&sol).is_empty());
}

#[test]
fn reconstruct_single_true_variable() {
    // Variable 1 true with maximum original variable 1: output is `{1}`.
    let pre = session();
    let out = pre.reconstruct(&vec![1]);
    assert_eq!(out, vec![lit(1)]);
}

#[test]
fn reconstruct_single_false_variable() {
    let pre = session();
    let out = pre.reconstruct(&vec![-1]);
    assert_eq!(out, vec![lit(-1)]);
}

#[test]
fn reconstruct_is_deterministic() {
    // The same engine values give the same total assignment, call after call.
    let pre = session();
    let vals = vec![-2, 5, -1];
    assert_eq!(pre.reconstruct(&vals), pre.reconstruct(&vals));
}

#[test]
fn reconstruct_output_is_total() {
    // One literal per variable from 1 up, in order, no gaps, no duplicates.
    let pre = session();
    let vals = vec![3, -4, 1, -9];
    let out = pre.reconstruct(&vals);
    assert_eq!(out.len(), 4);
    for (i, l) in out.iter().enumerate() {
        assert_eq!(l.var as usize, i + 1);
    }
    assert_eq!(out, vec![lit(1), lit(-2), lit(3), lit(-4)]);
}
