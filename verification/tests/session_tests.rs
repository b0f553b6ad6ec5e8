//! Tests of the incremental-mutation protocol and the label read-backs.

use maxpre::Lit;
use maxpre::MaxPre;
use maxpre::SoftClause;

fn lit(code: i32) -> Lit {
    Lit::decode(code).unwrap()
}

fn session() -> MaxPre {
    let hards = vec![vec![lit(1)]];
    let softs: Vec<Vec<SoftClause>> = vec![];
    MaxPre::new(&hards, &softs, false).0
}

#[test]
fn add_var_zero_response_is_rejection() {
    let pre = session();
    assert_eq!(pre.add_var(0), Err(()));
}

#[test]
fn add_var_returns_new_variable() {
    let pre = session();
    assert_eq!(pre.add_var(5), Ok(5));
}

#[test]
fn add_clause_streams_literals_then_terminator() {
    let pre = session();
    let clause = vec![lit(2), lit(-3)];
    assert_eq!(pre.add_clause(&clause), vec![2, -3, 0]);
}

#[test]
fn add_clause_empty_clause_is_just_terminator() {
    let pre = session();
    let clause: Vec<Lit> = vec![];
    assert_eq!(pre.add_clause(&clause), vec![0]);
}

#[test]
fn add_label_zero_response_is_rejection() {
    let pre = session();
    assert_eq!(pre.add_label(0), Err(()));
}

#[test]
fn add_label_returns_label_literal() {
    let pre = session();
    assert_eq!(pre.add_label(-7), Ok(lit(-7)));
}

#[test]
fn prepro_labels_decodes_raw_codes() {
    let pre = session();
    let raw = vec![4, -5];
    assert_eq!(pre.prepro_labels(&raw), vec![lit(4), lit(-5)]);
}

#[test]
fn prepro_fixed_lits_decodes_raw_codes() {
    let pre = session();
    let raw = vec![-1, 6];
    assert_eq!(pre.prepro_fixed_lits(&raw), vec![lit(-1), lit(6)]);
}
