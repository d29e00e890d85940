//! The circuit for the relation a + b = c: two private witnesses, one
//! public input, and the single constraint (a + b) * 1 = c. The same
//! declaration order serves key generation (no values) and proving
//! (all values bound).

use vstd::prelude::*;
use crate::field::{Fe, fr_order, fe_from_u64, lemma_fe_val_injective};
use crate::r1cs::{
    ConstraintSystem, LinComb, SynthesisMode, Var, cs_satisfied, cs_satisfied_with,
    constraint_satisfied, lc_sum, lc_value, var_value,
};
use crate::ZkError;
use vstd::arithmetic::div_mod::{lemma_small_mod, lemma_mod_twice};

verus! {

/// The relation a + b = c. A value of `None` stands for a variable that
/// is declared but not yet bound, as during key generation.
#[derive(Clone, Copy, Debug)]
pub struct Circuit {
    pub a: Option<Fe>,
    pub b: Option<Fe>,
    pub c: Option<Fe>,
}

/// The exact shape this circuit gives a constraint system: witnesses a
/// and b, input c, and the one constraint (1·a + 1·b) * (1·one) = 1·c.
pub open spec fn is_sum_topology(cs: ConstraintSystem) -> bool {
    &&& cs.num_witness == 2
    &&& cs.num_input == 1
    &&& cs.constraints@.len() == 1
    &&& cs.constraints@[0].a.terms@.len() == 2
    &&& cs.constraints@[0].a.terms@[0].0.val() == 1
    &&& cs.constraints@[0].a.terms@[0].1 == Var::Witness(0usize)
    &&& cs.constraints@[0].a.terms@[1].0.val() == 1
    &&& cs.constraints@[0].a.terms@[1].1 == Var::Witness(1usize)
    &&& cs.constraints@[0].b.terms@.len() == 1
    &&& cs.constraints@[0].b.terms@[0].0.val() == 1
    &&& cs.constraints@[0].b.terms@[0].1 == Var::One
    &&& cs.constraints@[0].c.terms@.len() == 1
    &&& cs.constraints@[0].c.terms@[0].0.val() == 1
    &&& cs.constraints@[0].c.terms@[0].1 == Var::Input(0usize)
}

impl Circuit {
    /// Declare witness a, witness b and input c, in that order, and
    /// enforce (a + b) * 1 = c. In setup mode this always succeeds; in
    /// proving mode it fails exactly when one of the three values is
    /// missing, stopping at the first gap: the declarations made before
    /// it remain recorded, no later variable is declared, and no
    /// constraint is enforced.
    pub fn generate_constraints(self, cs: &mut ConstraintSystem) -> (r: Result<(), ZkError>)
        requires
            old(cs).is_fresh(),
        ensures
            final(cs).mode == old(cs).mode,
            old(cs).mode is Setup ==> r is Ok,
            old(cs).mode is Prove ==> (r is Ok <==> self.a is Some && self.b is Some
                && self.c is Some),
            r is Err ==> crate::res_is_err(r, ZkError::AssignmentMissing),
            r is Err ==> final(cs).constraints@.len() == 0 && final(cs).num_input == 0
                && final(cs).instance_assignment@.len() == 0,
            r is Err && self.a is None ==> *final(cs) == *old(cs),
            r is Err && self.a is Some && self.b is None ==> final(cs).num_witness == 1
                && final(cs).witness_assignment@ == seq![self.a->0],
            r is Err && self.a is Some && self.b is Some ==> final(cs).num_witness == 2
                && final(cs).witness_assignment@ == seq![self.a->0, self.b->0]
                && self.c is None,
            r is Ok ==> is_sum_topology(*final(cs)) && final(cs).wf(),
            r is Ok && old(cs).mode is Prove ==> final(cs).witness_assignment@
                == seq![self.a->0, self.b->0] && final(cs).instance_assignment@
                == seq![self.c->0],
            r is Ok && old(cs).mode is Setup ==> final(cs).witness_assignment@.len() == 0
                && final(cs).instance_assignment@.len() == 0,
    {
        let a = match cs.new_witness_variable(self.a) {
            Ok(v) => v,
            Err(e) => { return Err(e); },
        };
        let b = match cs.new_witness_variable(self.b) {
            Ok(v) => v,
            Err(e) => {
                proof {
                    assert(final(cs).witness_assignment@ =~= seq![self.a->0]);
                }
                return Err(e);
            },
        };
        let c = match cs.new_input_variable(self.c) {
            Ok(v) => v,
            Err(e) => {
                proof {
                    assert(final(cs).witness_assignment@ =~= seq![self.a->0, self.b->0]);
                }
                return Err(e);
            },
        };
        let one = fe_from_u64(1);
        let mut ta: Vec<(Fe, Var)> = Vec::new();
        ta.push((one, a));
        ta.push((one, b));
        let mut tb: Vec<(Fe, Var)> = Vec::new();
        tb.push((one, Var::One));
        let mut tc: Vec<(Fe, Var)> = Vec::new();
        tc.push((one, c));
        cs.enforce_constraint(LinComb { terms: ta }, LinComb { terms: tb },
            LinComb { terms: tc });
        proof {
            assert(final(cs).witness_assignment@ =~= if old(cs).mode is Prove {
                seq![self.a->0, self.b->0]
            } else {
                Seq::<Fe>::empty()
            });
            assert(final(cs).instance_assignment@ =~= if old(cs).mode is Prove {
                seq![self.c->0]
            } else {
                Seq::<Fe>::empty()
            });
        }
        Ok(())
    }
}

/// The encoding theorem: a system with this circuit's topology is
/// satisfied by witnesses (a, b) and input c exactly when a + b = c in
/// the scalar field.
pub proof fn lemma_sum_circuit_satisfaction(cs: ConstraintSystem, aw: Fe, bw: Fe, cw: Fe)
    requires
        is_sum_topology(cs),
        cw.inv(),
    ensures
        cs_satisfied_with(cs, seq![aw, bw], seq![cw])
            <==> (aw.val() + bw.val()) % fr_order() == cw.val(),
{
    let m = fr_order() as int;
    let w = seq![aw, bw];
    let x = seq![cw];
    let k = cs.constraints@[0];

    let ta = k.a.terms@;
    let ta1 = ta.drop_last();
    let sa = lc_sum(ta, w, x);
    assert(ta.last() == ta[1]);
    assert(var_value(ta[1].1, w, x) == bw.val());
    assert(sa == lc_sum(ta1, w, x) + ta[1].0.val() * var_value(ta[1].1, w, x));
    assert(ta1.last() == ta[0]);
    assert(ta1.drop_last() =~= Seq::<(Fe, Var)>::empty());
    assert(lc_sum(ta1.drop_last(), w, x) == 0);
    assert(lc_sum(ta1, w, x) == lc_sum(ta1.drop_last(), w, x)
        + ta[0].0.val() * var_value(ta[0].1, w, x));
    assert(var_value(ta[0].1, w, x) == aw.val());
    assert(sa == aw.val() + bw.val());

    let tb = k.b.terms@;
    let sb = lc_sum(tb, w, x);
    assert(tb.last() == tb[0]);
    assert(tb.drop_last() =~= Seq::<(Fe, Var)>::empty());
    assert(lc_sum(tb.drop_last(), w, x) == 0);
    assert(sb == lc_sum(tb.drop_last(), w, x) + tb[0].0.val() * var_value(tb[0].1, w, x));
    assert(var_value(tb[0].1, w, x) == 1);
    assert(sb == 1);
    lemma_small_mod(1nat, fr_order());
    assert(lc_value(tb, w, x) == 1);

    let tc = k.c.terms@;
    let sc = lc_sum(tc, w, x);
    assert(tc.last() == tc[0]);
    assert(tc.drop_last() =~= Seq::<(Fe, Var)>::empty());
    assert(lc_sum(tc.drop_last(), w, x) == 0);
    assert(sc == lc_sum(tc.drop_last(), w, x) + tc[0].0.val() * var_value(tc[0].1, w, x));
    assert(var_value(tc[0].1, w, x) == cw.val());
    assert(sc == cw.val());
    lemma_small_mod(cw.val(), fr_order());
    assert(lc_value(tc, w, x) == cw.val());

    lemma_mod_twice(sa, m);
    assert(constraint_satisfied(k, w, x) <==> (aw.val() + bw.val()) % fr_order() == cw.val());

    if constraint_satisfied(k, w, x) {
        assert(forall|i: int| 0 <= i < cs.constraints@.len()
            ==> #[trigger] cs.constraints@[i] == k);
    } else {
        assert(!cs_satisfied_with(cs, w, x));
    }
}

/// A satisfying public input is unique: when a + b = c in the field,
/// a system with this circuit's topology rejects, under the same
/// witnesses, every canonical public input other than c.
pub proof fn lemma_sum_input_unique(cs: ConstraintSystem, aw: Fe, bw: Fe, cw: Fe, other: Fe)
    requires
        is_sum_topology(cs),
        cw.inv(),
        other.inv(),
        (aw.val() + bw.val()) % fr_order() == cw.val(),
        other != cw,
    ensures
        !cs_satisfied_with(cs, seq![aw, bw], seq![other]),
{
    lemma_sum_circuit_satisfaction(cs, aw, bw, other);
    if (aw.val() + bw.val()) % fr_order() == other.val() {
        lemma_fe_val_injective(cw, other);
    }
}

/// The theorem restated over a system that carries its own assignment,
/// as proving-mode constraint generation leaves it.
pub proof fn lemma_sum_circuit_satisfaction_stored(cs: ConstraintSystem, aw: Fe, bw: Fe, cw: Fe)
    requires
        is_sum_topology(cs),
        cs.witness_assignment@ == seq![aw, bw],
        cs.instance_assignment@ == seq![cw],
        cw.inv(),
    ensures
        cs_satisfied(cs) <==> (aw.val() + bw.val()) % fr_order() == cw.val(),
{
    lemma_sum_circuit_satisfaction(cs, aw, bw, cw);
}

} // verus!
