//! Literals and their signed wire encoding.
//!
//! A literal is a variable (a positive identifier) together with a polarity.
//! On the wire a literal is a non-zero signed integer whose sign carries the
//! polarity and whose magnitude carries the variable. `0` is reserved as the
//! clause terminator and never stands for a literal.

use vstd::prelude::*;

verus! {

/// The largest variable identifier that fits the signed wire encoding.
pub const MAX_VAR: u32 = 0x7fff_ffff;

/// A literal: a variable with a polarity.
#[derive(Clone, Copy, PartialEq, Eq, Structural, Debug)]
pub struct Lit {
    /// The variable; well-formed literals have `1 <= var <= MAX_VAR`.
    pub var: u32,
    /// The polarity: `true` for the positive literal, `false` for the negation.
    pub pos: bool,
}

/// A signed integer stands for a literal exactly when it is non-zero and its
/// magnitude is a legal variable identifier.
pub open spec fn legal_code(code: int) -> bool {
    code != 0 && -(MAX_VAR as int) <= code <= MAX_VAR as int
}

/// The literal a legal signed code stands for.
pub open spec fn decoded(code: int) -> Lit {
    if code > 0 {
        Lit { var: code as u32, pos: true }
    } else {
        Lit { var: (-code) as u32, pos: false }
    }
}

impl Lit {
    /// Well-formed: the variable is positive and fits the signed encoding.
    pub open spec fn wf(self) -> bool {
        1 <= self.var <= MAX_VAR
    }

    /// The canonical signed encoding of this literal.
    pub open spec fn code(self) -> int {
        if self.pos {
            self.var as int
        } else {
            -(self.var as int)
        }
    }

    /// Builds the literal for a variable and a polarity.
    pub fn new(var: u32, pos: bool) -> (r: Lit)
        requires
            1 <= var <= MAX_VAR,
        ensures
            r == (Lit { var, pos }),
            r.wf(),
    {
        Lit { var, pos }
    }

    /// Encodes the literal as a signed integer; the result is never `0`.
    pub fn encode(self) -> (r: i32)
        requires
            self.wf(),
        ensures
            r as int == self.code(),
            r != 0,
    {
        if self.pos {
            self.var as i32
        } else {
            -(self.var as i32)
        }
    }

    /// Decodes a signed integer into the literal it stands for. `0` is the
    /// clause terminator and is rejected, as is a magnitude beyond `MAX_VAR`.
    pub fn decode(code: i32) -> (r: Option<Lit>)
        ensures
            r == if legal_code(code as int) {
                Some(decoded(code as int))
            } else {
                None::<Lit>
            },
            r is Some ==> r->Some_0.wf() && r->Some_0.code() == code as int,
    {
        if code == 0 || code == i32::MIN {
            None
        } else if code > 0 {
            Some(Lit { var: code as u32, pos: true })
        } else {
            Some(Lit { var: (-code) as u32, pos: false })
        }
    }
}

/// Every signed code of the sequence stands for a literal.
pub open spec fn codes_legal(lits: Seq<i32>) -> bool {
    forall|i: int| 0 <= i < lits.len() ==> legal_code(#[trigger] lits[i] as int)
}

/// The clause a sequence of legal signed codes stands for.
pub open spec fn decoded_clause(lits: Seq<i32>) -> Seq<Lit>
    decreases lits.len(),
{
    if lits.len() == 0 {
        Seq::empty()
    } else {
        decoded_clause(lits.drop_last()).push(decoded(lits.last() as int))
    }
}

/// Extending a code prefix by one code appends that code's literal.
pub proof fn lemma_decoded_clause_step(lits: Seq<i32>, j: int)
    requires
        0 <= j < lits.len(),
    ensures
        decoded_clause(lits.take(j + 1)) == decoded_clause(lits.take(j)).push(
            decoded(lits[j] as int),
        ),
{
    assert(lits.take(j + 1).drop_last() =~= lits.take(j));
}

/// A decoded clause has one literal per code, each the decoding of its code.
pub proof fn lemma_decoded_clause_index(lits: Seq<i32>)
    ensures
        decoded_clause(lits).len() == lits.len(),
        forall|i: int| 0 <= i < lits.len() ==> decoded_clause(lits)[i] == decoded(
            #[trigger] lits[i] as int,
        ),
    decreases lits.len(),
{
    if lits.len() > 0 {
        lemma_decoded_clause_index(lits.drop_last());
        assert forall|i: int| 0 <= i < lits.len() implies decoded_clause(lits)[i] == decoded(
            #[trigger] lits[i] as int,
        ) by {
            if i < lits.len() - 1 {
                assert(lits.drop_last()[i] == lits[i]);
                assert(decoded_clause(lits.drop_last())[i] == decoded(lits.drop_last()[i] as int));
            }
        }
    }
}

/// Decodes a whole clause of legal signed codes.
pub fn decode_clause(lits: &Vec<i32>) -> (r: Vec<Lit>)
    requires
        codes_legal(lits@),
    ensures
        r@ == decoded_clause(lits@),
{
    let mut r: Vec<Lit> = Vec::new();
    let mut j: usize = 0;
    while j < lits.len()
        invariant
            j <= lits@.len(),
            codes_legal(lits@),
            r@ == decoded_clause(lits@.take(j as int)),
        decreases lits@.len() - j,
    {
        let code = lits[j];
        // A legal code is never 0, so decode always succeeds here.
        match Lit::decode(code) {
            Some(l) => r.push(l),
            None => {
                proof {
                    assert(legal_code(lits@[j as int] as int));
                }
                unreached()
            },
        }
        proof {
            lemma_decoded_clause_step(lits@, j as int);
        }
        j = j + 1;
    }
    proof {
        assert(lits@.take(lits@.len() as int) =~= lits@);
    }
    r
}

/// Round trip, one direction: a well-formed literal's encoding is legal and
/// decodes back to the same literal.
pub proof fn lemma_encode_decode(l: Lit)
    requires
        l.wf(),
    ensures
        legal_code(l.code()),
        decoded(l.code()) == l,
{
}

/// Round trip, other direction: a legal code decodes to a well-formed literal
/// whose encoding is the code itself.
pub proof fn lemma_decode_encode(code: int)
    requires
        legal_code(code),
    ensures
        decoded(code).wf(),
        decoded(code).code() == code,
{
}

} // verus!
