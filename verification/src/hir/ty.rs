//! The shapes of semantic types that method lookup distinguishes.

use vstd::prelude::*;
use crate::hir::ids::{AdtDef, Trait};

verus! {

/// Whether a pointer or reference allows mutation.
#[derive(Clone, Copy, Debug, PartialEq, Eq, Hash, Structural)]
pub enum Mutability {
    Shared,
    Mut,
}

/// The head of an applied type: a primitive, a built-in constructor or a
/// nominal type. References and raw pointers have no head of their own:
/// they are shapes of `Ty`.
#[derive(Clone, Copy, Debug, PartialEq, Eq, Hash, Structural)]
pub enum TypeCtor {
    Bool,
    Char,
    Int,
    Float,
    Str,
    Slice,
    Array,
    Never,
    Tuple,
    Adt(AdtDef),
}

/// The number of an inference variable.
#[derive(Clone, Copy, Debug, PartialEq, Eq, Hash, Structural)]
pub struct TypeVarId {
    pub index: u32,
}

/// A type that inference has not resolved yet.
#[derive(Clone, Copy, Debug, PartialEq, Eq, Hash, Structural)]
pub enum InferTy {
    TypeVar(TypeVarId),
}

/// A list of type arguments.
#[derive(Debug, PartialEq, Eq, Hash)]
pub struct Substs {
    pub args: Vec<Ty>,
}

/// A type constructor applied to its arguments.
#[derive(Debug, PartialEq, Eq, Hash)]
pub struct ApplicationTy {
    pub ctor: TypeCtor,
    pub parameters: Substs,
}

/// A semantic type.
#[derive(Debug, PartialEq, Eq, Hash)]
pub enum Ty {
    /// A constructor with its arguments.
    Apply(ApplicationTy),
    /// A reference to a type.
    Ref(Mutability, Box<Ty>),
    /// A raw pointer to a type.
    RawPtr(Mutability, Box<Ty>),
    /// An inference placeholder.
    Infer(InferTy),
    /// A type that could not be determined.
    Unknown,
}

/// What a type is, whatever memory holds it.
pub ghost enum TyView {
    Apply { ctor: TypeCtor, parameters: Seq<TyView> },
    Ref(Mutability, Box<TyView>),
    RawPtr(Mutability, Box<TyView>),
    Infer(InferTy),
    Unknown,
}

/// What the type `ty` is.
pub open spec fn ty_view(ty: Ty) -> TyView
    decreases ty,
{
    match ty {
        Ty::Apply(a_ty) => TyView::Apply {
            ctor: a_ty.ctor,
            parameters: substs_view(a_ty.parameters),
        },
        Ty::Ref(mutability, target) => TyView::Ref(mutability, Box::new(ty_view(*target))),
        Ty::RawPtr(mutability, target) => TyView::RawPtr(mutability, Box::new(ty_view(*target))),
        Ty::Infer(infer_ty) => TyView::Infer(infer_ty),
        Ty::Unknown => TyView::Unknown,
    }
}

/// What the arguments of `substs` are, in order.
pub open spec fn substs_view(substs: Substs) -> Seq<TyView>
    decreases substs,
{
    Seq::new(
        substs.args@.len(),
        |i: int|
            if 0 <= i < substs.args@.len() {
                ty_view(substs.args@[i])
            } else {
                TyView::Unknown
            },
    )
}

impl View for Substs {
    type V = Seq<TyView>;

    open spec fn view(&self) -> Seq<TyView> {
        substs_view(*self)
    }
}

impl View for Ty {
    type V = TyView;

    open spec fn view(&self) -> TyView {
        ty_view(*self)
    }
}

impl Clone for Substs {
    fn clone(&self) -> (copy: Substs)
        ensures
            copy@ == self@,
        decreases self,
    {
        let mut args: Vec<Ty> = Vec::new();
        let mut i: usize = 0;
        while i < self.args.len()
            invariant
                i <= self.args.len(),
                args.len() == i,
                forall|j: int| 0 <= j < i ==> args@[j]@ == self.args@[j]@,
            decreases self.args.len() - i,
        {
            proof {
                vstd::std_specs::vec::axiom_vec_index_decreases(self.args, i as int);
            }
            let arg = self.args[i].clone();
            args.push(arg);
            i += 1;
        }
        let copy = Substs { args };
        copy
    }
}

impl Clone for Ty {
    fn clone(&self) -> (copy: Ty)
        ensures
            copy@ == self@,
        decreases self,
    {
        match self {
            Ty::Apply(a_ty) => Ty::Apply(
                ApplicationTy { ctor: a_ty.ctor, parameters: a_ty.parameters.clone() },
            ),
            Ty::Ref(mutability, target) => {
                let target: &Ty = &**target;
                Ty::Ref(*mutability, Box::new(target.clone()))
            },
            Ty::RawPtr(mutability, target) => {
                let target: &Ty = &**target;
                Ty::RawPtr(*mutability, Box::new(target.clone()))
            },
            Ty::Infer(infer_ty) => Ty::Infer(*infer_ty),
            Ty::Unknown => Ty::Unknown,
        }
    }
}

/// A trait applied to its arguments; the first argument is the `Self` type.
#[derive(Debug, PartialEq, Eq, Hash)]
pub struct TraitRef {
    pub trait_: Trait,
    pub substs: Substs,
}

/// What a trait reference is, whatever memory holds it.
pub ghost struct TraitRefView {
    pub trait_: Trait,
    pub substs: Seq<TyView>,
}

impl View for TraitRef {
    type V = TraitRefView;

    open spec fn view(&self) -> TraitRefView {
        TraitRefView { trait_: self.trait_, substs: self.substs@ }
    }
}

} // verus!
