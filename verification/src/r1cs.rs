//! A rank-1 constraint system: linear combinations of variables, quadratic
//! constraints of the form A·x * B·x = C·x over the scalar field, and the
//! satisfaction check. The system carries the variable assignment when it
//! is built for proving, and only the topology when it is built for setup.

use vstd::prelude::*;
use crate::field::{Fe, fr_order, fe_add, fe_mul, fe_from_u64, lemma_fe_val_injective};
use crate::ZkError;
use vstd::arithmetic::div_mod::lemma_add_mod_noop;

verus! {

/// A slot in the constraint system: the constant one, a private witness
/// variable, or a public input variable.
#[derive(Clone, Copy, Debug, PartialEq, Eq, Structural)]
pub enum Var {
    One,
    Witness(usize),
    Input(usize),
}

/// A weighted sum of variables. A variable may appear more than once;
/// the occurrences add up.
pub struct LinComb {
    pub terms: Vec<(Fe, Var)>,
}

/// One rank-1 constraint: A·x * B·x = C·x.
pub struct Constraint {
    pub a: LinComb,
    pub b: LinComb,
    pub c: LinComb,
}

/// Whether the system is being built for key generation (topology only)
/// or for proving (topology and values).
#[derive(Clone, Copy, Debug, PartialEq, Eq, Structural)]
pub enum SynthesisMode {
    Setup,
    Prove,
}

/// The constraint system: the declared variable counts, the constraints,
/// and, in proving mode, the values assigned to the variables.
pub struct ConstraintSystem {
    pub mode: SynthesisMode,
    pub num_witness: usize,
    pub num_input: usize,
    pub witness_assignment: Vec<Fe>,
    pub instance_assignment: Vec<Fe>,
    pub constraints: Vec<Constraint>,
}

/// The value a variable takes under a witness and an input assignment.
pub open spec fn var_value(v: Var, w: Seq<Fe>, x: Seq<Fe>) -> nat {
    match v {
        Var::One => 1,
        Var::Witness(i) => w[i as int].val(),
        Var::Input(i) => x[i as int].val(),
    }
}

/// The plain (unreduced) sum a linear combination denotes.
pub open spec fn lc_sum(terms: Seq<(Fe, Var)>, w: Seq<Fe>, x: Seq<Fe>) -> int
    decreases terms.len(),
{
    if terms.len() == 0 {
        0
    } else {
        lc_sum(terms.drop_last(), w, x)
            + terms.last().0.val() * var_value(terms.last().1, w, x)
    }
}

/// The field value of a linear combination: its sum reduced by the order.
pub open spec fn lc_value(terms: Seq<(Fe, Var)>, w: Seq<Fe>, x: Seq<Fe>) -> int {
    lc_sum(terms, w, x) % (fr_order() as int)
}

/// A constraint holds when the product of the A and B values equals the
/// C value in the field.
pub open spec fn constraint_satisfied(k: Constraint, w: Seq<Fe>, x: Seq<Fe>) -> bool {
    (lc_value(k.a.terms@, w, x) * lc_value(k.b.terms@, w, x)) % (fr_order() as int)
        == lc_value(k.c.terms@, w, x)
}

/// Every constraint of the system holds under the given assignment.
pub open spec fn cs_satisfied_with(cs: ConstraintSystem, w: Seq<Fe>, x: Seq<Fe>) -> bool {
    forall|i: int| 0 <= i < cs.constraints@.len()
        ==> constraint_satisfied(#[trigger] cs.constraints@[i], w, x)
}

/// Every constraint of the system holds under its own stored assignment.
pub open spec fn cs_satisfied(cs: ConstraintSystem) -> bool {
    cs_satisfied_with(cs, cs.witness_assignment@, cs.instance_assignment@)
}

/// All variables of the combination are declared in the system.
pub open spec fn lc_wf(terms: Seq<(Fe, Var)>, num_witness: nat, num_input: nat) -> bool {
    forall|i: int| 0 <= i < terms.len() ==> match (#[trigger] terms[i]).1 {
        Var::One => true,
        Var::Witness(j) => j < num_witness,
        Var::Input(j) => j < num_input,
    }
}

impl ConstraintSystem {
    /// No variables or constraints declared yet.
    pub open spec fn is_fresh(self) -> bool {
        &&& self.num_witness == 0
        &&& self.num_input == 0
        &&& self.witness_assignment@.len() == 0
        &&& self.instance_assignment@.len() == 0
        &&& self.constraints@.len() == 0
    }

    /// The counts match the stored assignments (which are only kept in
    /// proving mode) and every constraint speaks of declared variables.
    pub open spec fn wf(self) -> bool {
        &&& self.witness_assignment@.len()
            == if self.mode is Prove { self.num_witness as int } else { 0 }
        &&& self.instance_assignment@.len()
            == if self.mode is Prove { self.num_input as int } else { 0 }
        &&& forall|i: int| 0 <= i < self.constraints@.len() ==> {
            let k = #[trigger] self.constraints@[i];
            &&& lc_wf(k.a.terms@, self.num_witness as nat, self.num_input as nat)
            &&& lc_wf(k.b.terms@, self.num_witness as nat, self.num_input as nat)
            &&& lc_wf(k.c.terms@, self.num_witness as nat, self.num_input as nat)
        }
    }

    /// An empty system in the given mode.
    pub fn new(mode: SynthesisMode) -> (r: ConstraintSystem)
        ensures
            r.is_fresh(),
            r.wf(),
            r.mode == mode,
    {
        ConstraintSystem {
            mode,
            num_witness: 0,
            num_input: 0,
            witness_assignment: Vec::new(),
            instance_assignment: Vec::new(),
            constraints: Vec::new(),
        }
    }

    /// Declare the next witness variable. In setup mode the value is not
    /// consulted; in proving mode a missing value is a hard failure and
    /// leaves the system unchanged.
    pub fn new_witness_variable(&mut self, value: Option<Fe>) -> (r: Result<Var, ZkError>)
        requires
            old(self).num_witness < usize::MAX,
        ensures
            final(self).mode == old(self).mode,
            final(self).num_input == old(self).num_input,
            final(self).instance_assignment@ == old(self).instance_assignment@,
            final(self).constraints@ == old(self).constraints@,
            old(self).mode is Prove && value is None ==> crate::res_is_err(r,
                ZkError::AssignmentMissing) && *final(self) == *old(self),
            old(self).mode is Setup || value is Some ==> {
                &&& crate::res_is_ok(r, Var::Witness(old(self).num_witness))
                &&& final(self).num_witness == old(self).num_witness + 1
                &&& final(self).witness_assignment@
                    == if old(self).mode is Prove {
                        old(self).witness_assignment@.push(value->0)
                    } else {
                        old(self).witness_assignment@
                    }
            },
    {
        let idx = self.num_witness;
        match self.mode {
            SynthesisMode::Setup => {
                self.num_witness = idx + 1;
                Ok(Var::Witness(idx))
            },
            SynthesisMode::Prove => {
                match value {
                    Some(f) => {
                        self.num_witness = idx + 1;
                        self.witness_assignment.push(f);
                        Ok(Var::Witness(idx))
                    },
                    None => Err(ZkError::AssignmentMissing),
                }
            },
        }
    }

    /// Declare the next public input variable, as `new_witness_variable`
    /// declares a witness.
    pub fn new_input_variable(&mut self, value: Option<Fe>) -> (r: Result<Var, ZkError>)
        requires
            old(self).num_input < usize::MAX,
        ensures
            final(self).mode == old(self).mode,
            final(self).num_witness == old(self).num_witness,
            final(self).witness_assignment@ == old(self).witness_assignment@,
            final(self).constraints@ == old(self).constraints@,
            old(self).mode is Prove && value is None ==> crate::res_is_err(r,
                ZkError::AssignmentMissing) && *final(self) == *old(self),
            old(self).mode is Setup || value is Some ==> {
                &&& crate::res_is_ok(r, Var::Input(old(self).num_input))
                &&& final(self).num_input == old(self).num_input + 1
                &&& final(self).instance_assignment@
                    == if old(self).mode is Prove {
                        old(self).instance_assignment@.push(value->0)
                    } else {
                        old(self).instance_assignment@
                    }
            },
    {
        let idx = self.num_input;
        match self.mode {
            SynthesisMode::Setup => {
                self.num_input = idx + 1;
                Ok(Var::Input(idx))
            },
            SynthesisMode::Prove => {
                match value {
                    Some(f) => {
                        self.num_input = idx + 1;
                        self.instance_assignment.push(f);
                        Ok(Var::Input(idx))
                    },
                    None => Err(ZkError::AssignmentMissing),
                }
            },
        }
    }

    /// Record the constraint A·x * B·x = C·x. Every variable mentioned
    /// must already be declared.
    pub fn enforce_constraint(&mut self, a: LinComb, b: LinComb, c: LinComb)
        requires
            old(self).constraints@.len() < usize::MAX,
            lc_wf(a.terms@, old(self).num_witness as nat, old(self).num_input as nat),
            lc_wf(b.terms@, old(self).num_witness as nat, old(self).num_input as nat),
            lc_wf(c.terms@, old(self).num_witness as nat, old(self).num_input as nat),
        ensures
            final(self).mode == old(self).mode,
            final(self).num_witness == old(self).num_witness,
            final(self).num_input == old(self).num_input,
            final(self).witness_assignment@ == old(self).witness_assignment@,
            final(self).instance_assignment@ == old(self).instance_assignment@,
            final(self).constraints@.len() == old(self).constraints@.len() + 1,
            forall|i: int| 0 <= i < old(self).constraints@.len()
                ==> final(self).constraints@[i] == old(self).constraints@[i],
            final(self).constraints@.last().a.terms@ == a.terms@,
            final(self).constraints@.last().b.terms@ == b.terms@,
            final(self).constraints@.last().c.terms@ == c.terms@,
    {
        self.constraints.push(Constraint { a, b, c });
    }

    /// Whether the stored assignment satisfies every constraint.
    pub fn is_satisfied(&self) -> (r: bool)
        requires
            self.wf(),
            self.mode is Prove,
        ensures
            r == cs_satisfied(*self),
    {
        let n = self.constraints.len();
        let mut i: usize = 0;
        while i < n
            invariant
                n == self.constraints@.len(),
                0 <= i <= n,
                self.wf(),
                self.mode is Prove,
                forall|j: int| 0 <= j < i ==> constraint_satisfied(
                    #[trigger] self.constraints@[j],
                    self.witness_assignment@,
                    self.instance_assignment@,
                ),
            decreases n - i,
        {
            let k = &self.constraints[i];
            let av = eval_lc(&k.a, &self.witness_assignment, &self.instance_assignment);
            let bv = eval_lc(&k.b, &self.witness_assignment, &self.instance_assignment);
            let cv = eval_lc(&k.c, &self.witness_assignment, &self.instance_assignment);
            let lhs = fe_mul(&av, &bv);
            proof {
                if lhs.val() == cv.val() {
                    lemma_fe_val_injective(lhs, cv);
                }
            }
            if lhs != cv {
                return false;
            }
            i = i + 1;
        }
        true
    }
}

/// The field value of one linear combination under explicit assignments.
fn eval_lc(lc: &LinComb, w: &Vec<Fe>, x: &Vec<Fe>) -> (r: Fe)
    requires
        lc_wf(lc.terms@, w@.len() as nat, x@.len() as nat),
    ensures
        r.val() == lc_value(lc.terms@, w@, x@),
{
    let n = lc.terms.len();
    let mut acc = fe_from_u64(0);
    let mut i: usize = 0;
    assert(lc.terms@.take(0) =~= Seq::<(Fe, Var)>::empty());
    while i < n
        invariant
            n == lc.terms@.len(),
            0 <= i <= n,
            lc_wf(lc.terms@, w@.len() as nat, x@.len() as nat),
            acc.val() == lc_sum(lc.terms@.take(i as int), w@, x@) % (fr_order() as int),
        decreases n - i,
    {
        let coeff = lc.terms[i].0;
        let vfe = match lc.terms[i].1 {
            Var::One => fe_from_u64(1),
            Var::Witness(j) => w[j],
            Var::Input(j) => x[j],
        };
        let term = fe_mul(&coeff, &vfe);
        let next = fe_add(&acc, &term);
        proof {
            let m = fr_order() as int;
            let pre = lc.terms@.take(i as int);
            let post = lc.terms@.take(i + 1 as int);
            assert(post.drop_last() =~= pre);
            assert(post.last() == lc.terms@[i as int]);
            let tv: int = (coeff.val() * var_value(lc.terms@[i as int].1, w@, x@)) as int;
            assert(vfe.val() == var_value(lc.terms@[i as int].1, w@, x@));
            assert(lc_sum(post, w@, x@) == lc_sum(pre, w@, x@) + tv);
            lemma_add_mod_noop(lc_sum(pre, w@, x@), tv, m);
            assert(next.val() == ((acc.val() + term.val()) as int) % m);
            assert(term.val() == tv % m);
            assert(acc.val() == lc_sum(pre, w@, x@) % m);
            assert(((lc_sum(pre, w@, x@) % m) + (tv % m)) % m == (lc_sum(pre, w@, x@) + tv) % m);
        }
        acc = next;
        i = i + 1;
    }
    assert(lc.terms@.take(n as int) =~= lc.terms@);
    acc
}

} // verus!
