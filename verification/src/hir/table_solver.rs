//! A small solver: it follows references and raw pointers, takes a trait
//! reference as its own canonical form, and answers from a table which
//! constructors implement which traits.

use vstd::prelude::*;
use crate::hir::ids::Trait;
use crate::hir::solver::{Canonical, CanonicalView, Theory, TraitSolver};
use crate::hir::ty::{TraitRef, TraitRefView, Ty, TyView, TypeCtor};

verus! {

/// The type that a reference or a raw pointer points to.
pub open spec fn builtin_deref(ty: TyView) -> Option<TyView> {
    match ty {
        TyView::Ref(_, target) => Some(*target),
        TyView::RawPtr(_, target) => Some(*target),
        _ => None,
    }
}

/// The type itself, and after it the types that it points to, one after
/// the other.
pub open spec fn builtin_chain(ty: TyView) -> Seq<TyView>
    decreases ty,
{
    match builtin_deref(ty) {
        Some(inner) => seq![ty] + builtin_chain(inner),
        None => seq![ty],
    }
}

/// A trait reference as its own canonical form; every argument but the
/// first counts as a variable.
pub open spec fn plain_canonical(trait_ref: TraitRefView) -> CanonicalView {
    CanonicalView {
        value: trait_ref,
        num_vars: if trait_ref.substs.len() >= 1 {
            (trait_ref.substs.len() - 1) as nat
        } else {
            0
        },
    }
}

/// Whether `table` lists the trait of `query` for the constructor of its
/// first argument.
pub open spec fn listed(table: Seq<(Trait, TypeCtor)>, query: CanonicalView) -> bool {
    &&& query.value.substs.len() >= 1
    &&& query.value.substs[0] is Apply
    &&& table.contains((query.value.trait_, query.value.substs[0]->ctor))
}

/// The solver: the table, and the queries put to it so far.
#[derive(Debug, PartialEq, Eq)]
pub struct TableSolver {
    pub implemented: Vec<(Trait, TypeCtor)>,
    pub asked: Vec<Canonical>,
}

impl TableSolver {
    /// The solver with this table that has not been asked yet.
    pub fn new(implemented: Vec<(Trait, TypeCtor)>) -> (solver: TableSolver)
        ensures
            solver.implemented@ == implemented@,
            solver.probes() == Seq::<CanonicalView>::empty(),
    {
        let solver = TableSolver { implemented, asked: Vec::new() };
        assert(solver.probes() =~= Seq::empty());
        solver
    }

    /// How many queries the solver has answered.
    pub fn asked_count(&self) -> (count: usize)
        ensures
            count == self.probes().len(),
    {
        self.asked.len()
    }
}

impl TraitSolver for TableSolver {
    open spec fn theory(&self) -> Theory {
        Theory {
            deref_chain: |ty: TyView| builtin_chain(ty),
            canonical: |trait_ref: TraitRefView| plain_canonical(trait_ref),
            holds: |query: CanonicalView| listed(self.implemented@, query),
        }
    }

    open spec fn probes(&self) -> Seq<CanonicalView> {
        Seq::new(self.asked@.len(), |i: int| self.asked@[i]@)
    }

    fn autoderef(&self, ty: &Ty) -> (chain: Vec<Ty>) {
        let mut chain: Vec<Ty> = Vec::new();
        let mut current: &Ty = ty;
        let ghost mut done: Seq<TyView> = Seq::empty();
        loop
            invariant_except_break
                done + builtin_chain(current@) == builtin_chain(ty@),
            invariant
                done.len() == chain@.len(),
                forall|i: int| 0 <= i < chain@.len() ==> (#[trigger] chain@[i])@ == done[i],
            ensures
                chain@.len() == builtin_chain(ty@).len(),
                forall|i: int|
                    0 <= i < chain@.len() ==> (#[trigger] chain@[i])@ == builtin_chain(ty@)[i],
            decreases builtin_chain(current@).len(),
        {
            chain.push(current.clone());
            proof {
                done = done.push(current@);
            }
            let next: Option<&Ty> = match current {
                Ty::Ref(_, target) => Some(&**target),
                Ty::RawPtr(_, target) => Some(&**target),
                _ => None,
            };
            match next {
                Some(inner) => {
                    current = inner;
                },
                None => {
                    break ;
                },
            }
        }
        chain
    }

    fn canonicalize(&self, trait_ref: TraitRef) -> (canonical: Canonical) {
        let count = trait_ref.substs.args.len();
        let num_vars = if count >= 1 {
            count - 1
        } else {
            0
        };
        Canonical { value: trait_ref, num_vars }
    }

    fn implements(&mut self, trait_ref: &Canonical) -> (holds: bool) {
        let asked = Canonical {
            value: TraitRef {
                trait_: trait_ref.value.trait_,
                substs: trait_ref.value.substs.clone(),
            },
            num_vars: trait_ref.num_vars,
        };
        self.asked.push(asked);
        if trait_ref.value.substs.args.len() == 0 {
            return false;
        }
        let ctor = match &trait_ref.value.substs.args[0] {
            Ty::Apply(a_ty) => a_ty.ctor,
            _ => {
                return false;
            },
        };
        table_lists(&self.implemented, trait_ref.value.trait_, ctor)
    }
}

/// Whether `table` lists the trait `tr` for the constructor `ctor`.
fn table_lists(table: &Vec<(Trait, TypeCtor)>, tr: Trait, ctor: TypeCtor) -> (yes: bool)
    ensures
        yes == table@.contains((tr, ctor)),
{
    let mut i: usize = 0;
    while i < table.len()
        invariant
            i <= table@.len(),
            forall|j: int| 0 <= j < i ==> table@[j] != (tr, ctor),
        decreases table@.len() - i,
    {
        let (listed_tr, listed_ctor) = table[i];
        if listed_tr == tr && listed_ctor == ctor {
            return true;
        }
        i += 1;
    }
    false
}

} // verus!
