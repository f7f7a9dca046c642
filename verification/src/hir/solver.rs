//! What method lookup asks of type inference: the dereferenced forms of a
//! type, the canonical form of a trait reference, and whether a canonical
//! trait reference holds.

use vstd::prelude::*;
use crate::hir::ids::Trait;
use crate::hir::ty::{TraitRef, TraitRefView, Ty, TyView};

verus! {

/// A trait reference whose inference variables are numbered in a normal
/// order, so that two references of one structure are one query.
#[derive(Debug, PartialEq, Eq, Hash)]
pub struct Canonical {
    pub value: TraitRef,
    pub num_vars: usize,
}

/// What a canonical trait reference is, whatever memory holds it.
pub ghost struct CanonicalView {
    pub value: TraitRefView,
    pub num_vars: nat,
}

impl View for Canonical {
    type V = CanonicalView;

    open spec fn view(&self) -> CanonicalView {
        CanonicalView { value: self.value@, num_vars: self.num_vars as nat }
    }
}

/// The answers of type inference, as functions of the question alone.
pub ghost struct Theory {
    /// The forms of a type under successive dereference, in order.
    pub deref_chain: spec_fn(TyView) -> Seq<TyView>,
    /// The canonical form of a trait reference.
    pub canonical: spec_fn(TraitRefView) -> CanonicalView,
    /// Whether some implementation makes a canonical trait reference hold.
    pub holds: spec_fn(CanonicalView) -> bool,
}

/// The type inference that lookups consult. Its answers are those of its
/// theory, which no query changes; it keeps count of the satisfiability
/// queries put to it.
pub trait TraitSolver {
    /// The answers that this solver gives.
    spec fn theory(&self) -> Theory;

    /// The satisfiability queries answered so far, oldest first.
    spec fn probes(&self) -> Seq<CanonicalView>;

    /// The forms of `ty` under successive dereference, in order.
    fn autoderef(&self, ty: &Ty) -> (chain: Vec<Ty>)
        ensures
            chain@.len() == (self.theory().deref_chain)(ty@).len(),
            forall|i: int|
                0 <= i < chain@.len() ==> (#[trigger] chain@[i])@ == (self.theory().deref_chain)(
                    ty@,
                )[i],
    ;

    /// The canonical form of `trait_ref`.
    fn canonicalize(&self, trait_ref: TraitRef) -> (canonical: Canonical)
        ensures
            canonical@ == (self.theory().canonical)(trait_ref@),
    ;

    /// Whether some implementation makes `trait_ref` hold. The query is
    /// recorded.
    fn implements(&mut self, trait_ref: &Canonical) -> (holds: bool)
        ensures
            holds == (old(self).theory().holds)(trait_ref@),
            final(self).theory() == old(self).theory(),
            final(self).probes() == old(self).probes().push(trait_ref@),
    ;
}

/// The traits that are visible at the place of a lookup, in the order in
/// which the scope lists them.
#[derive(Debug, PartialEq, Eq)]
pub struct Resolver {
    pub traits: Vec<Trait>,
}

impl Resolver {
    /// The traits in scope, in scope order.
    pub fn traits_in_scope(&self) -> (traits: &Vec<Trait>)
        ensures
            traits@ == self.traits@,
    {
        &self.traits
    }
}

} // verus!
