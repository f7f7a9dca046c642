//! Finding the methods that a type provides: the index of a crate's impl
//! blocks, and the search that walks the dereferenced forms of a receiver.

use vstd::prelude::*;
use std::sync::Arc;
use rustc_hash::FxHashMap;
use crate::hir::db::HirDatabase;
use crate::hir::events::{
    accepts, all_rejected, first_offer_at, item_rejected, items_stop_at, lemma_filter_map_prefix,
    candidates_for, lemma_flat_map_step, lemma_offer_accepted, lemma_offer_rejected,
    lemma_offered_add, lemma_offered_offers, lemma_offered_probe,
    lemma_offers_prefix, lemma_offers_ran, lemma_probes_of_add, lemma_probes_of_offers,
    lemma_probes_of_probe, lemma_ran_to_end, lemma_ran_within, lemma_run_within, name_view,
    no_offer, offered, offers, probes_of, ran, rejects, stand_for, stops_at, SearchEvent,
};
use crate::hir::solver::{Resolver, TraitSolver};
use crate::hir::fx::{fx_get, fx_insert, fx_remove};
use crate::hir::ids::{Crate, CrateModuleId, Function, ImplBlock, ImplId, Module, Name, Trait};
use crate::hir::program::{ImplData, ImplItem, Program, TraitItem};
use crate::hir::ty::{InferTy, Substs, TraitRef, Ty, TyView, TypeCtor, TypeVarId};

verus! {

/// The key under which impl blocks are indexed: the head of an applied type,
/// whatever its arguments. A type that cannot be the direct target of an
/// inherent impl has none: there is an `impl S`, but no `impl &S` and no
/// `impl *const S`.
#[derive(Debug, Copy, Clone, PartialEq, Eq, Hash, Structural)]
pub enum TyFingerprint {
    Apply(TypeCtor),
}

impl TyFingerprint {
    /// The fingerprint of a type: its constructor if it is an applied type,
    /// and none for every other shape, references and raw pointers among
    /// them.
    pub open spec fn spec_for_impl(ty: TyView) -> Option<TyFingerprint> {
        match ty {
            TyView::Apply { ctor, parameters } => Some(TyFingerprint::Apply(ctor)),
            _ => None,
        }
    }

    /// The fingerprint under which an impl for `ty` is indexed. Only applied
    /// types can be the target of an impl.
    pub fn for_impl(ty: &Ty) -> (fingerprint: Option<TyFingerprint>)
        ensures
            fingerprint == Self::spec_for_impl(ty@),
    {
        match ty {
            Ty::Apply(a_ty) => Some(TyFingerprint::Apply(a_ty.ctor)),
            _ => None,
        }
    }

    /// The number that stands for the fingerprint in the index.
    pub open spec fn spec_key(self) -> u64 {
        match self {
            TyFingerprint::Apply(ctor) => match ctor {
                TypeCtor::Bool => 0,
                TypeCtor::Char => 1,
                TypeCtor::Int => 2,
                TypeCtor::Float => 3,
                TypeCtor::Str => 4,
                TypeCtor::Slice => 5,
                TypeCtor::Array => 6,
                TypeCtor::Never => 7,
                TypeCtor::Tuple => 8,
                TypeCtor::Adt(def) => (9 + def.id) as u64,
            },
        }
    }

    /// The number that stands for the fingerprint in the index.
    pub fn key(&self) -> (key: u64)
        ensures
            key == self.spec_key(),
    {
        match self {
            TyFingerprint::Apply(ctor) => match ctor {
                TypeCtor::Bool => 0,
                TypeCtor::Char => 1,
                TypeCtor::Int => 2,
                TypeCtor::Float => 3,
                TypeCtor::Str => 4,
                TypeCtor::Slice => 5,
                TypeCtor::Array => 6,
                TypeCtor::Never => 7,
                TypeCtor::Tuple => 8,
                TypeCtor::Adt(def) => 9 + def.id as u64,
            },
        }
    }

    /// Two fingerprints with one key are one fingerprint.
    pub proof fn key_is_injective(self, other: TyFingerprint)
        ensures
            self.spec_key() == other.spec_key() <==> self == other,
    {
    }
}

/// Where an impl block goes in the index.
pub ghost enum IndexKey {
    /// Under the trait that it implements.
    ByTrait(Trait),
    /// Under the fingerprint of its target type.
    Inherent(TyFingerprint),
    /// Nowhere: it implements no trait, and its target has no fingerprint.
    Unindexed,
}

/// Where `data` goes in the index: a trait impl under its trait, whatever its
/// target; an inherent impl under the fingerprint of its target, if it has
/// one.
pub open spec fn index_key(data: ImplData) -> IndexKey {
    match data.target_trait {
        Some(trait_ref) => IndexKey::ByTrait(trait_ref.trait_),
        None => match TyFingerprint::spec_for_impl(data.target_ty@) {
            Some(fingerprint) => IndexKey::Inherent(fingerprint),
            None => IndexKey::Unindexed,
        },
    }
}

impl Program {
    /// The impl blocks declared directly in `module`, in source order.
    pub open spec fn module_impls(&self, module: Module) -> Seq<ImplBlock> {
        if self.has_module(module) {
            Seq::new(
                self.module_data(module).impls@.len(),
                |i: int| ImplBlock { module, impl_id: ImplId { index: i as u32 } },
            )
        } else {
            Seq::empty()
        }
    }

    /// The `c`-th child of `module`.
    pub open spec fn child(&self, module: Module, c: int) -> Module {
        Module { krate: module.krate, module_id: self.module_data(module).children@[c] }
    }

    /// How many modules of its crate were allocated after `module`, and one
    /// for itself. In a well-formed program a child lies below its parent.
    pub open spec fn height(&self, module: Module) -> nat {
        if self.has_module(module) {
            (self.crates@[module.krate.crate_id as int].modules@.len()
                - module.module_id.index) as nat
        } else {
            0
        }
    }

    /// The impl blocks of `module` and of all modules below it, in pre-order:
    /// the module's own blocks first, then those of each child in turn.
    pub open spec fn preorder_impls(&self, module: Module) -> Seq<ImplBlock>
        decreases self.height(module), self.module_data(module).children@.len() + 1,
    {
        if self.has_module(module) {
            self.module_impls(module) + self.preorder_children(
                module,
                self.module_data(module).children@.len(),
            )
        } else {
            Seq::empty()
        }
    }

    /// The impl blocks of the first `n` children of `module` and of all
    /// modules below them, in pre-order.
    pub open spec fn preorder_children(&self, module: Module, n: nat) -> Seq<ImplBlock>
        decreases self.height(module), n,
    {
        if n == 0 || !self.has_module(module) || n > self.module_data(module).children@.len() {
            Seq::empty()
        } else {
            let child = self.child(module, n - 1);
            self.preorder_children(module, (n - 1) as nat) + (if self.height(child)
                < self.height(module) {
                self.preorder_impls(child)
            } else {
                Seq::empty()
            })
        }
    }

    /// The impl blocks of `krate`, in the pre-order of its module tree.
    pub open spec fn crate_impls(&self, krate: Crate) -> Seq<ImplBlock> {
        match self.spec_root_module(krate) {
            Some(root) => self.preorder_impls(root),
            None => Seq::empty(),
        }
    }

    /// Those of `blocks` that go under `key`, in the same order.
    pub open spec fn keyed(&self, blocks: Seq<ImplBlock>, key: IndexKey) -> Seq<ImplBlock> {
        blocks.filter(|block: ImplBlock| index_key(self.impl_data(block)) == key)
    }
}

/// The entries stored under `key`, none if the map has no such key.
pub open spec fn stored(
    map: Map<u64, Vec<(CrateModuleId, ImplId)>>,
    key: u64,
) -> Seq<(CrateModuleId, ImplId)> {
    if map.contains_key(key) {
        map[key]@
    } else {
        Seq::empty()
    }
}

/// The impl blocks of `krate` that `entries` stand for.
pub open spec fn blocks_of(krate: Crate, entries: Seq<(CrateModuleId, ImplId)>) -> Seq<ImplBlock> {
    entries.map_values(
        |entry: (CrateModuleId, ImplId)|
            ImplBlock { module: Module { krate, module_id: entry.0 }, impl_id: entry.1 },
    )
}

/// Puts `entry` behind the entries stored under `key`.
fn append_entry(
    map: &mut FxHashMap<u64, Vec<(CrateModuleId, ImplId)>>,
    key: u64,
    entry: (CrateModuleId, ImplId),
)
    ensures
        forall|k: u64|
            #[trigger] stored(final(map)@, k) == (if k == key {
                stored(old(map)@, k).push(entry)
            } else {
                stored(old(map)@, k)
            }),
{
    let mut entries = match fx_remove(map, key) {
        Some(entries) => entries,
        None => Vec::new(),
    };
    entries.push(entry);
    fx_insert(map, key, entries);
}

/// The index of the impl blocks of one crate: the inherent impls by the
/// fingerprint of their target type, the trait impls by their trait. Each
/// list is in the pre-order of the crate's module tree.
#[derive(Debug, PartialEq, Eq)]
pub struct CrateImplBlocks {
    /// The crate that the module ids belong to.
    krate: Crate,
    impls: FxHashMap<u64, Vec<(CrateModuleId, ImplId)>>,
    impls_by_trait: FxHashMap<u64, Vec<(CrateModuleId, ImplId)>>,
}

impl CrateImplBlocks {
    /// The crate that is indexed.
    pub closed spec fn krate(&self) -> Crate {
        self.krate
    }

    /// The inherent impl blocks listed under `fingerprint`, in order.
    pub closed spec fn inherent(&self, fingerprint: TyFingerprint) -> Seq<ImplBlock> {
        blocks_of(self.krate, stored(self.impls@, fingerprint.spec_key()))
    }

    /// The impl blocks listed under the trait `tr`, in order.
    pub closed spec fn for_trait(&self, tr: Trait) -> Seq<ImplBlock> {
        blocks_of(self.krate, stored(self.impls_by_trait@, tr.id as u64))
    }

    /// The impl blocks listed under `key`.
    pub open spec fn at(&self, key: IndexKey) -> Seq<ImplBlock> {
        match key {
            IndexKey::ByTrait(tr) => self.for_trait(tr),
            IndexKey::Inherent(fingerprint) => self.inherent(fingerprint),
            IndexKey::Unindexed => Seq::empty(),
        }
    }

    /// The index is that of `krate` in `program`: under each key it lists
    /// the impl blocks of the crate that go under that key, in the pre-order
    /// of the module tree.
    pub open spec fn indexes(&self, program: Program, krate: Crate) -> bool {
        &&& self.krate() == krate
        &&& forall|key: IndexKey|
            key != IndexKey::Unindexed ==> #[trigger] self.at(key) == program.keyed(
                program.crate_impls(krate),
                key,
            )
    }

    /// The impl blocks that may be for `ty`: the inherent impls of every
    /// type with the same constructor, in index order.
    pub fn lookup_impl_blocks(&self, ty: &Ty) -> (blocks: Vec<ImplBlock>)
        ensures
            blocks@ == (match TyFingerprint::spec_for_impl(ty@) {
                Some(fingerprint) => self.inherent(fingerprint),
                None => Seq::empty(),
            }),
    {
        match TyFingerprint::for_impl(ty) {
            Some(fingerprint) => self.blocks_under(&self.impls, fingerprint.key()),
            None => Vec::new(),
        }
    }

    /// The impl blocks of the trait `tr`, whatever their target type, in
    /// index order.
    pub fn lookup_impl_blocks_for_trait(&self, tr: &Trait) -> (blocks: Vec<ImplBlock>)
        ensures
            blocks@ == self.for_trait(*tr),
    {
        self.blocks_under(&self.impls_by_trait, tr.id as u64)
    }

    /// The entries of `map` under `key`, as impl blocks of the indexed crate.
    fn blocks_under(
        &self,
        map: &FxHashMap<u64, Vec<(CrateModuleId, ImplId)>>,
        key: u64,
    ) -> (blocks: Vec<ImplBlock>)
        ensures
            blocks@ == blocks_of(self.krate, stored(map@, key)),
    {
        let mut blocks: Vec<ImplBlock> = Vec::new();
        if let Some(entries) = fx_get(map, key) {
            let mut i: usize = 0;
            while i < entries.len()
                invariant
                    i <= entries@.len(),
                    blocks@ == blocks_of(self.krate, entries@.take(i as int)),
                decreases entries@.len() - i,
            {
                let (module_id, impl_id) = entries[i];
                let module = Module { krate: self.krate, module_id };
                blocks.push(ImplBlock::from_id(module, impl_id));
                i += 1;
            }
        }
        blocks
    }

    /// Builds the index of `krate`: walks its module tree in pre-order from
    /// the root and files each impl block under its key. An inherent impl
    /// whose target has no fingerprint is left out.
    pub fn impls_in_crate_query(db: &Program, krate: Crate) -> (index: Arc<CrateImplBlocks>)
        requires
            db.wf(),
        ensures
            index.indexes(*db, krate),
    {
        let mut crate_impl_blocks = CrateImplBlocks {
            krate,
            impls: FxHashMap::default(),
            impls_by_trait: FxHashMap::default(),
        };
        let ghost empty = crate_impl_blocks;
        proof {
            assert forall|key: IndexKey| #[trigger] empty.at(key) =~= Seq::empty() by {}
        }
        if let Some(module) = db.root_module(krate) {
            crate_impl_blocks.collect_recursive(db, &module);
            proof {
                assert forall|key: IndexKey| key != IndexKey::Unindexed implies (
                #[trigger] crate_impl_blocks.at(key)) == db.keyed(db.crate_impls(krate), key) by {}
            }
        } else {
            proof {
                reveal(Seq::filter);
            }
        }
        Arc::new(crate_impl_blocks)
    }

    /// Adds the impl blocks of `module` and of the modules below it.
    fn collect_recursive(&mut self, db: &Program, module: &Module)
        requires
            db.wf(),
            db.has_module(*module),
            module.krate == old(self).krate(),
        ensures
            final(self).krate() == old(self).krate(),
            forall|key: IndexKey|
                key != IndexKey::Unindexed ==> #[trigger] final(self).at(key) == old(self).at(key)
                    + db.keyed(db.preorder_impls(*module), key),
        decreases db.height(*module),
    {
        let ghost own = db.module_impls(*module);
        let data = &db.crates[module.krate.crate_id as usize].modules[module.module_id.index as usize];
        proof {
            assert(db.crates@[module.krate.crate_id as int].module_wf(module.module_id.index as int));
            reveal(Seq::filter);
            assert forall|key: IndexKey| key != IndexKey::Unindexed implies #[trigger] self.at(key)
                == old(self).at(key) + db.keyed(own.take(0), key) by {}
        }
        let mut i: usize = 0;
        while i < data.impls.len()
            invariant
                i <= data.impls@.len(),
                data.impls@.len() <= u32::MAX,
                db.has_module(*module),
                *data == db.module_data(*module),
                own == db.module_impls(*module),
                module.krate == self.krate,
                self.krate == old(self).krate,
                forall|key: IndexKey|
                    key != IndexKey::Unindexed ==> #[trigger] self.at(key) == old(self).at(key)
                        + db.keyed(own.take(i as int), key),
            decreases data.impls@.len() - i,
        {
            let impl_id = ImplId { index: i as u32 };
            let impl_data = &data.impls[i];
            let ghost before = *self;
            let ghost block = ImplBlock { module: *module, impl_id };
            let ghost block_key = index_key(*impl_data);
            match &impl_data.target_trait {
                Some(trait_ref) => {
                    append_entry(
                        &mut self.impls_by_trait,
                        trait_ref.trait_.id as u64,
                        (module.module_id, impl_id),
                    );
                },
                None => {
                    if let Some(fingerprint) = TyFingerprint::for_impl(&impl_data.target_ty) {
                        append_entry(&mut self.impls, fingerprint.key(), (module.module_id, impl_id));
                    }
                },
            }
            proof {
                assert(own.take(i + 1) =~= own.take(i as int).push(block));
                assert forall|key: IndexKey| key != IndexKey::Unindexed implies #[trigger] self.at(
                    key,
                ) == old(self).at(key) + db.keyed(own.take(i + 1), key) by {
                    let pred = |b: ImplBlock| index_key(db.impl_data(b)) == key;
                    own.take(i as int).lemma_filter_push(block, pred);
                    if block_key == key {
                        assert(self.at(key) == before.at(key).push(block));
                    }
                }
            }
            i += 1;
        }
        proof {
            assert(own.take(i as int) =~= own);
        }
        let mut c: usize = 0;
        while c < data.children.len()
            invariant
                c <= data.children@.len(),
                db.wf(),
                db.has_module(*module),
                *data == db.module_data(*module),
                own == db.module_impls(*module),
                module.krate == self.krate,
                self.krate == old(self).krate,
                db.crates@[module.krate.crate_id as int].module_wf(module.module_id.index as int),
                forall|key: IndexKey|
                    key != IndexKey::Unindexed ==> #[trigger] self.at(key) == old(self).at(key)
                        + db.keyed(own + db.preorder_children(*module, c as nat), key),
            decreases data.children@.len() - c,
        {
            let child = Module { krate: module.krate, module_id: data.children[c] };
            self.collect_recursive(db, &child);
            proof {
                let sofar = own + db.preorder_children(*module, c as nat);
                let below = db.preorder_impls(child);
                assert forall|key: IndexKey| key != IndexKey::Unindexed implies #[trigger] self.at(
                    key,
                ) == old(self).at(key) + db.keyed(
                    own + db.preorder_children(*module, (c + 1) as nat),
                    key,
                ) by {
                    let pred = |b: ImplBlock| index_key(db.impl_data(b)) == key;
                    Seq::filter_distributes_over_add(sofar, below, pred);
                }
            }
            c += 1;
        }
    }
}

/// The crate that owns `ty`: that of its definition for a nominal type, none
/// for every other type.
pub fn def_crate(db: &HirDatabase, ty: &Ty) -> (krate: Option<Crate>)
    ensures
        krate == db@.spec_def_crate(ty@),
        krate matches Some(krate) ==> krate.crate_id < db@.crates@.len(),
{
    match ty {
        Ty::Apply(a_ty) => match a_ty.ctor {
            TypeCtor::Adt(def_id) => {
                let program = db.program();
                program.adt_krate(def_id)
            },
            _ => None,
        },
        _ => None,
    }
}

/// Whether `f` is a known function that takes a receiver and has the name
/// asked for, if one was asked for.
fn is_candidate(program: &Program, f: Function, name: Option<&Name>) -> (ok: bool)
    ensures
        ok == program.is_candidate(f, name_view(name)),
{
    match program.signature(f) {
        Some(sig) => {
            let named = match name {
                Some(name) => sig.name.same_as(name),
                None => true,
            };
            named && sig.has_self_param
        },
        None => false,
    }
}

/// Offers the candidates among the items of `block` for `ty`, in source
/// order, until the callback accepts one.
fn iterate_block_methods<T, F: Fn(&Ty, Function) -> Option<T>>(
    ty: &Ty,
    program: &Program,
    block: ImplBlock,
    name: Option<&Name>,
    callback: &F,
) -> (result: Option<T>)
    requires
        forall|t: &Ty, f: Function| call_requires(*callback, (t, f)),
    ensures
        exists|k: int| #[trigger]
            stops_at(
                offers(ty@, program.impl_methods(block, name_view(name))),
                *callback,
                result,
                k,
            ),
{
    let ghost methods = program.impl_methods(block, name_view(name));
    let ghost pick = program.impl_candidates(name_view(name));
    let data = match program.impl_block(block) {
        Some(data) => data,
        None => {
            proof {
                assert(stops_at(offers(ty@, methods), *callback, None::<T>, 0));
            }
            return None;
        },
    };
    let mut i: usize = 0;
    while i < data.items.len()
        invariant
            i <= data.items@.len(),
            forall|t: &Ty, f: Function| call_requires(*callback, (t, f)),
            pick == program.impl_candidates(name_view(name)),
            methods == data.items@.filter_map(pick),
            methods == program.impl_methods(block, name_view(name)),
            all_rejected(*callback, offers(ty@, data.items@.take(i as int).filter_map(pick))),
        decreases data.items@.len() - i,
    {
        let ghost done = data.items@.take(i as int).filter_map(pick);
        proof {
            data.items@.lemma_filter_map_take_succ(pick, i as int);
            lemma_filter_map_prefix(data.items@, pick, i + 1);
        }
        match data.items[i] {
            ImplItem::Method(f) => {
                if is_candidate(program, f, name) {
                    match callback(ty, f) {
                        Some(value) => {
                            proof {
                                assert(accepts(*callback, SearchEvent::Offer(ty@, f), value));
                                lemma_offer_accepted(ty@, methods, *callback, done, f, value);
                            }
                            return Some(value);
                        },
                        None => {
                            proof {
                                lemma_offer_rejected(ty@, *callback, done, f);
                            }
                        },
                    }
                }
            },
            _ => {
                proof {
                    assert(data.items@.take(i + 1).filter_map(pick) =~= done);
                }
            },
        }
        i += 1;
    }
    proof {
        assert(data.items@.take(i as int) =~= data.items@);
        assert(stops_at(offers(ty@, methods), *callback, None::<T>, methods.len() as int));
    }
    None
}

/// The arguments of a probe of the trait `tr` for `self_ty`: the type itself
/// in the first place, then a placeholder for each other generic parameter
/// of the trait, numbered from zero. The placeholders serve the one query
/// that the probe is for.
pub fn fresh_substs_for_trait(db: &HirDatabase, tr: Trait, self_ty: Ty) -> (substs: Substs)
    ensures
        substs@ == db@.probe_substs(tr, self_ty@),
{
    let mut args: Vec<Ty> = Vec::new();
    let params = match db.program().trait_data(tr) {
        Some(data) => data.generic_params,
        None => 0,
    };
    let ghost self_view = self_ty@;
    args.push(self_ty);
    let mut i: u32 = 0;
    while i + 1 < params
        invariant
            i <= db@.fresh_vars(tr),
            db@.fresh_vars(tr) == (if params >= 1 {
                params - 1
            } else {
                0
            }),
            args@.len() == i + 1,
            args@[0]@ == self_view,
            forall|j: int|
                1 <= j <= i ==> (#[trigger] args@[j])@ == TyView::Infer(
                    InferTy::TypeVar(TypeVarId { index: (j - 1) as u32 }),
                ),
        decreases params - i,
    {
        args.push(Ty::Infer(InferTy::TypeVar(TypeVarId { index: i })));
        i += 1;
    }
    let substs = Substs { args };
    substs
}

/// Offers the candidates of the trait `tr` for `ty`, in declaration order,
/// until the callback accepts one. Before the first candidate is offered
/// the solver is asked, once, whether the type implements the trait; if it
/// does not, no candidate is offered.
fn iterate_trait_methods<T, S: TraitSolver, F: Fn(&Ty, Function) -> Option<T>>(
    ty: &Ty,
    db: &HirDatabase,
    solver: &mut S,
    tr: Trait,
    name: Option<&Name>,
    callback: &F,
) -> (result: Option<T>)
    requires
        forall|t: &Ty, f: Function| call_requires(*callback, (t, f)),
    ensures
        final(solver).theory() == old(solver).theory(),
        ran(
            db@.trait_events(old(solver).theory(), ty@, tr, name_view(name)),
            *callback,
            result,
            old(solver).probes(),
            final(solver).probes(),
        ),
{
    let program = db.program();
    let ghost theory = solver.theory();
    let ghost asked = solver.probes();
    let ghost methods = program.trait_methods(tr, name_view(name));
    let ghost pick = program.trait_candidates(name_view(name));
    let ghost query = program.probe(theory, ty@, tr);
    let ghost events = program.trait_events(theory, ty@, tr, name_view(name));
    let data = match program.trait_data(tr) {
        Some(data) => data,
        None => {
            proof {
                lemma_ran_to_end::<T, F>(events, *callback, asked, asked);
            }
            return None;
        },
    };
    // Whether the type implements the trait is found out at the first
    // candidate. If it does not, the rest of the trait is skipped.
    let mut known_implemented = false;
    let mut i: usize = 0;
    while i < data.items.len()
        invariant
            i <= data.items@.len(),
            forall|t: &Ty, f: Function| call_requires(*callback, (t, f)),
            *program == db@,
            pick == program.trait_candidates(name_view(name)),
            methods == data.items@.filter_map(pick),
            methods == program.trait_methods(tr, name_view(name)),
            query == program.probe(theory, ty@, tr),
            events == program.trait_events(theory, ty@, tr, name_view(name)),
            theory == old(solver).theory(),
            asked == old(solver).probes(),
            solver.theory() == theory,
            !known_implemented ==> data.items@.take(i as int).filter_map(pick).len() == 0
                && solver.probes() == asked,
            known_implemented ==> methods.len() > 0 && (theory.holds)(query) && solver.probes()
                == asked.push(query) && all_rejected(
                *callback,
                offers(ty@, data.items@.take(i as int).filter_map(pick)),
            ),
        decreases data.items@.len() - i,
    {
        let ghost done = data.items@.take(i as int).filter_map(pick);
        proof {
            data.items@.lemma_filter_map_take_succ(pick, i as int);
            lemma_filter_map_prefix(data.items@, pick, i + 1);
        }
        match data.items[i] {
            TraitItem::Function(m) => {
                if is_candidate(program, m, name) {
                    proof {
                        assert(data.items@.take(i + 1).filter_map(pick) =~= done.push(m));
                        lemma_probes_of_probe(query);
                    }
                    if !known_implemented {
                        let trait_ref = TraitRef {
                            trait_: tr,
                            substs: fresh_substs_for_trait(db, tr, ty.clone()),
                        };
                        let canonical = solver.canonicalize(trait_ref);
                        if !solver.implements(&canonical) {
                            proof {
                                assert(asked.push(query) =~= asked + probes_of(events));
                                lemma_ran_to_end::<T, F>(
                                    events,
                                    *callback,
                                    asked,
                                    solver.probes(),
                                );
                            }
                            return None;
                        }
                    }
                    known_implemented = true;
                    match callback(ty, m) {
                        Some(value) => {
                            proof {
                                let head = seq![SearchEvent::Probe(query)];
                                lemma_offer_accepted(ty@, methods, *callback, done, m, value);
                                lemma_offers_ran(
                                    ty@,
                                    methods,
                                    *callback,
                                    Some(value),
                                    done.len() as int,
                                    asked.push(query),
                                );
                                assert(asked.push(query) =~= asked + probes_of(head));
                                lemma_ran_within(
                                    events,
                                    *callback,
                                    head,
                                    offers(ty@, methods),
                                    Some(value),
                                    asked,
                                    asked.push(query),
                                    asked.push(query),
                                );
                            }
                            return Some(value);
                        },
                        None => {
                            proof {
                                lemma_offer_rejected(ty@, *callback, done, m);
                            }
                        },
                    }
                }
            },
            _ => {},
        }
        i += 1;
    }
    proof {
        assert(data.items@.take(i as int) =~= data.items@);
        if known_implemented {
            let head = seq![SearchEvent::Probe(query)];
            lemma_probes_of_probe(query);
            assert(asked.push(query) =~= asked + probes_of(head));
            lemma_offers_ran(
                ty@,
                methods,
                *callback,
                None::<T>,
                methods.len() as int,
                asked.push(query),
            );
            lemma_ran_within(
                events,
                *callback,
                head,
                offers(ty@, methods),
                None::<T>,
                asked,
                asked.push(query),
                asked.push(query),
            );
            lemma_ran_to_end::<T, F>(events, *callback, asked, solver.probes());
        } else {
            lemma_ran_to_end::<T, F>(events, *callback, asked, asked);
        }
    }
    None
}

impl Ty {
    /// Looks up the method called `name` on a receiver of this type: the
    /// first candidate of the search. Returns the dereferenced form of the
    /// receiver that the method was found for, and the method.
    pub fn lookup_method<S: TraitSolver>(
        self,
        db: &HirDatabase,
        solver: &mut S,
        name: &Name,
        resolver: &Resolver,
    ) -> (found: Option<(Ty, Function)>)
        ensures
            final(solver).theory() == old(solver).theory(),
            ({
                let events = db@.search_events(
                    old(solver).theory(),
                    self@,
                    resolver.traits@,
                    Some(name@),
                );
                match found {
                    Some((ty, f)) => exists|k: int|
                        #![trigger events[k]]
                        first_offer_at(events, k) && events[k] == SearchEvent::Offer(ty@, f)
                            && final(solver).probes() == old(solver).probes() + probes_of(
                            events.take(k),
                        ),
                    None => no_offer(events) && final(solver).probes() == old(solver).probes()
                        + probes_of(events),
                }
            }),
    {
        let ghost events = db@.search_events(
            solver.theory(),
            self@,
            resolver.traits@,
            Some(name@),
        );
        let ghost asked = solver.probes();
        let first = |ty: &Ty, f: Function| -> (found: Option<(Ty, Function)>)
            ensures
                found matches Some(pair) && pair.0@ == ty@ && pair.1 == f,
            { Some((ty.clone(), f)) };
        let found = self.iterate_method_candidates(db, solver, resolver, Some(name), first);
        proof {
            let k = choose|k: int| #[trigger]
                stops_at(events, first, found, k) && solver.probes() == asked + probes_of(
                    events.take(k),
                );
            assert forall|j: int| 0 <= j < k implies #[trigger] events[j] is Probe by {
                assert(rejects(first, events.take(k)[j]));
            }
            if found is None {
                assert(events.take(k) =~= events);
            }
        }
        found
    }

    /// Offers the method candidates for a receiver of this type to
    /// `callback`, in the order of precedence, until it accepts one by
    /// answering with a value; that value is the result. The search takes
    /// the dereferenced forms of the receiver in order, and at each form the
    /// inherent methods before the methods of the traits in scope. With a
    /// name, only methods of that name are candidates.
    pub fn iterate_method_candidates<T, S: TraitSolver, F: Fn(&Ty, Function) -> Option<T>>(
        self,
        db: &HirDatabase,
        solver: &mut S,
        resolver: &Resolver,
        name: Option<&Name>,
        callback: F,
    ) -> (result: Option<T>)
        requires
            forall|t: &Ty, f: Function| call_requires(callback, (t, f)),
        ensures
            final(solver).theory() == old(solver).theory(),
            ran(
                db@.search_events(old(solver).theory(), self@, resolver.traits@, name_view(name)),
                callback,
                result,
                old(solver).probes(),
                final(solver).probes(),
            ),
    {
        // A method found at an earlier form of the receiver shadows those
        // of later forms. No reference is taken again afterwards: a method
        // found by name is taken to fit.
        let ghost theory = solver.theory();
        let ghost asked = solver.probes();
        let ghost views = (theory.deref_chain)(self@);
        let ghost by_step = db@.events_by_step(theory, resolver.traits@, name_view(name));
        let ghost events = db@.search_events(theory, self@, resolver.traits@, name_view(name));
        let chain = solver.autoderef(&self);
        let mut c: usize = 0;
        while c < chain.len()
            invariant
                c <= chain@.len(),
                forall|t: &Ty, f: Function| call_requires(callback, (t, f)),
                chain@.len() == views.len(),
                forall|i: int| 0 <= i < chain@.len() ==> (#[trigger] chain@[i])@ == views[i],
                by_step == db@.events_by_step(theory, resolver.traits@, name_view(name)),
                events == views.flat_map(by_step),
                events == db@.search_events(theory, self@, resolver.traits@, name_view(name)),
                theory == old(solver).theory(),
                asked == old(solver).probes(),
                solver.theory() == theory,
                all_rejected(callback, views.take(c as int).flat_map(by_step)),
                solver.probes() == asked + probes_of(views.take(c as int).flat_map(by_step)),
            decreases chain@.len() - c,
        {
            let derefed_ty = &chain[c];
            let ghost done = views.take(c as int).flat_map(by_step);
            let ghost inherent = offers(
                derefed_ty@,
                db@.inherent_methods(derefed_ty@, name_view(name)),
            );
            let ghost by_traits = db@.scope_events(
                theory,
                derefed_ty@,
                resolver.traits@,
                name_view(name),
            );
            proof {
                lemma_flat_map_step(views, by_step, c as int);
            }
            let found = derefed_ty.iterate_inherent_methods(db, name, &callback);
            proof {
                let k = choose|k: int| #[trigger] stops_at(inherent, callback, found, k);
                lemma_offers_ran(
                    derefed_ty@,
                    db@.inherent_methods(derefed_ty@, name_view(name)),
                    callback,
                    found,
                    k,
                    solver.probes(),
                );
                lemma_ran_within(
                    events,
                    callback,
                    done,
                    inherent,
                    found,
                    asked,
                    solver.probes(),
                    solver.probes(),
                );
            }
            if let Some(result) = found {
                return Some(result);
            }
            let ghost middle = solver.probes();
            let found = derefed_ty.iterate_trait_method_candidates(
                db,
                solver,
                resolver,
                name,
                &callback,
            );
            proof {
                assert((done + inherent) + by_traits =~= done + (inherent + by_traits));
                lemma_ran_within(
                    events,
                    callback,
                    done + inherent,
                    by_traits,
                    found,
                    asked,
                    middle,
                    solver.probes(),
                );
            }
            if let Some(result) = found {
                return Some(result);
            }
            c += 1;
        }
        proof {
            assert(views.take(c as int) =~= views);
            lemma_ran_to_end::<T, F>(events, callback, asked, solver.probes());
        }
        None
    }

    /// Offers the methods of the traits in scope for this type, trait by
    /// trait in scope order, until the callback accepts one. A trait that
    /// the type does not implement offers nothing, and whether the type
    /// implements a trait is asked at most once.
    pub fn iterate_trait_method_candidates<T, S: TraitSolver, F: Fn(&Ty, Function) -> Option<T>>(
        &self,
        db: &HirDatabase,
        solver: &mut S,
        resolver: &Resolver,
        name: Option<&Name>,
        callback: &F,
    ) -> (result: Option<T>)
        requires
            forall|t: &Ty, f: Function| call_requires(*callback, (t, f)),
        ensures
            final(solver).theory() == old(solver).theory(),
            ran(
                db@.scope_events(old(solver).theory(), self@, resolver.traits@, name_view(name)),
                *callback,
                result,
                old(solver).probes(),
                final(solver).probes(),
            ),
    {
        let ghost theory = solver.theory();
        let ghost asked = solver.probes();
        let ghost by_trait = db@.events_by_trait(theory, self@, name_view(name));
        let ghost events = db@.scope_events(theory, self@, resolver.traits@, name_view(name));
        let traits = resolver.traits_in_scope();
        let mut t: usize = 0;
        while t < traits.len()
            invariant
                t <= traits@.len(),
                forall|ty: &Ty, f: Function| call_requires(*callback, (ty, f)),
                traits@ == resolver.traits@,
                by_trait == db@.events_by_trait(theory, self@, name_view(name)),
                events == traits@.flat_map(by_trait),
                events == db@.scope_events(theory, self@, resolver.traits@, name_view(name)),
                theory == old(solver).theory(),
                asked == old(solver).probes(),
                solver.theory() == theory,
                all_rejected(*callback, traits@.take(t as int).flat_map(by_trait)),
                solver.probes() == asked + probes_of(traits@.take(t as int).flat_map(by_trait)),
            decreases traits@.len() - t,
        {
            let ghost done = traits@.take(t as int).flat_map(by_trait);
            let ghost middle = solver.probes();
            let found = iterate_trait_methods(self, db, solver, traits[t], name, callback);
            proof {
                lemma_flat_map_step(traits@, by_trait, t as int);
                lemma_ran_within(
                    events,
                    *callback,
                    done,
                    by_trait(traits@[t as int]),
                    found,
                    asked,
                    middle,
                    solver.probes(),
                );
            }
            if let Some(result) = found {
                return Some(result);
            }
            t += 1;
        }
        proof {
            assert(traits@.take(t as int) =~= traits@);
            lemma_ran_to_end::<T, F>(events, *callback, asked, solver.probes());
        }
        None
    }

    /// Offers the inherent methods that may be for this type until the
    /// callback accepts one: the candidates of each impl block that the
    /// index of the type's crate lists under the type's fingerprint. A type
    /// that no crate owns, or that has no fingerprint, has none.
    pub fn iterate_inherent_methods<T, F: Fn(&Ty, Function) -> Option<T>>(
        &self,
        db: &HirDatabase,
        name: Option<&Name>,
        callback: &F,
    ) -> (result: Option<T>)
        requires
            forall|t: &Ty, f: Function| call_requires(*callback, (t, f)),
        ensures
            exists|k: int| #[trigger]
                stops_at(
                    offers(self@, db@.inherent_methods(self@, name_view(name))),
                    *callback,
                    result,
                    k,
                ),
    {
        let ghost by_block = db@.methods_by_block(name_view(name));
        let ghost methods = db@.inherent_methods(self@, name_view(name));
        let krate = match def_crate(db, self) {
            Some(krate) => krate,
            None => {
                proof {
                    assert(stops_at(offers(self@, methods), *callback, None::<T>, 0));
                }
                return None;
            },
        };
        let impls = match db.impls_in_crate(krate) {
            Some(impls) => impls,
            None => {
                return None;
            },
        };
        let program = db.program();
        let blocks = impls.lookup_impl_blocks(self);
        proof {
            let fingerprint = TyFingerprint::spec_for_impl(self@)->0;
            assert(impls.at(IndexKey::Inherent(fingerprint)) == blocks@);
        }
        let mut b: usize = 0;
        while b < blocks.len()
            invariant
                b <= blocks@.len(),
                forall|t: &Ty, f: Function| call_requires(*callback, (t, f)),
                *program == db@,
                by_block == db@.methods_by_block(name_view(name)),
                methods == blocks@.flat_map(by_block),
                methods == db@.inherent_methods(self@, name_view(name)),
                all_rejected(*callback, offers(self@, blocks@.take(b as int).flat_map(by_block))),
            decreases blocks@.len() - b,
        {
            let ghost done = blocks@.take(b as int).flat_map(by_block);
            let ghost part = by_block(blocks@[b as int]);
            let found = iterate_block_methods(self, program, blocks[b], name, callback);
            proof {
                let k = choose|k: int| #[trigger]
                    stops_at(offers(self@, part), *callback, found, k);
                lemma_flat_map_step(blocks@, by_block, b as int);
                lemma_offers_prefix(self@, done + part, methods);
                lemma_run_within(
                    offers(self@, methods),
                    *callback,
                    offers(self@, done),
                    offers(self@, part),
                    found,
                    k,
                );
            }
            if let Some(result) = found {
                return Some(result);
            }
            b += 1;
        }
        proof {
            assert(blocks@.take(b as int) =~= blocks@);
            assert(stops_at(offers(self@, methods), *callback, None::<T>, methods.len() as int));
        }
        None
    }

    /// Offers every item of the inherent impl blocks that may be for this
    /// type to `callback`, whatever its kind or name, block by block in
    /// index order, until the callback accepts one by answering with a
    /// value; that value is the result.
    pub fn iterate_impl_items<T, F: Fn(ImplItem) -> Option<T>>(
        self,
        db: &HirDatabase,
        callback: F,
    ) -> (result: Option<T>)
        requires
            forall|item: ImplItem| call_requires(callback, (item,)),
        ensures
            exists|k: int| #[trigger]
                items_stop_at(db@.inherent_items(self@), callback, result, k),
    {
        let ghost by_block = db@.items_by_block();
        let ghost items = db@.inherent_items(self@);
        let krate = match def_crate(db, &self) {
            Some(krate) => krate,
            None => {
                proof {
                    assert(items_stop_at(items, callback, None::<T>, 0));
                }
                return None;
            },
        };
        let impls = match db.impls_in_crate(krate) {
            Some(impls) => impls,
            None => {
                return None;
            },
        };
        let program = db.program();
        let blocks = impls.lookup_impl_blocks(&self);
        proof {
            let fingerprint = TyFingerprint::spec_for_impl(self@)->0;
            assert(impls.at(IndexKey::Inherent(fingerprint)) == blocks@);
        }
        let mut b: usize = 0;
        while b < blocks.len()
            invariant
                b <= blocks@.len(),
                forall|item: ImplItem| call_requires(callback, (item,)),
                *program == db@,
                by_block == db@.items_by_block(),
                items == blocks@.flat_map(by_block),
                items == db@.inherent_items(self@),
                forall|j: int|
                    0 <= j < blocks@.take(b as int).flat_map(by_block).len() ==> item_rejected(
                        callback,
                        #[trigger] blocks@.take(b as int).flat_map(by_block)[j],
                    ),
            decreases blocks@.len() - b,
        {
            let ghost done = blocks@.take(b as int).flat_map(by_block);
            let ghost part = by_block(blocks@[b as int]);
            proof {
                lemma_flat_map_step(blocks@, by_block, b as int);
            }
            if let Some(data) = program.impl_block(blocks[b]) {
                let mut i: usize = 0;
                while i < data.items.len()
                    invariant
                        i <= data.items@.len(),
                        forall|item: ImplItem| call_requires(callback, (item,)),
                        part == data.items@,
                        items == db@.inherent_items(self@),
                        (done + part).is_prefix_of(items),
                        forall|j: int| 0 <= j < done.len() ==> item_rejected(callback, #[trigger] done[j]),
                        forall|j: int| 0 <= j < i ==> item_rejected(callback, #[trigger] part[j]),
                    decreases data.items@.len() - i,
                {
                    let item = data.items[i];
                    if let Some(result) = callback(item) {
                        proof {
                            let k = done.len() + i;
                            assert(items[k] == (done + part)[k]);
                            assert forall|j: int| 0 <= j < k implies item_rejected(
                                callback,
                                #[trigger] items[j],
                            ) by {
                                assert(items[j] == (done + part)[j]);
                            }
                            assert(items_stop_at(items, callback, Some(result), k));
                        }
                        return Some(result);
                    }
                    i += 1;
                }
            }
            proof {
                assert forall|j: int| 0 <= j < (done + part).len() implies item_rejected(
                    callback,
                    #[trigger] (done + part)[j],
                ) by {}
            }
            b += 1;
        }
        proof {
            assert(blocks@.take(b as int) =~= blocks@);
            assert(items_stop_at(items, callback, None::<T>, items.len() as int));
        }
        None
    }
}

/// The candidates among the items of `block`, in source order.
fn block_methods(program: &Program, block: ImplBlock, name: Option<&Name>) -> (methods: Vec<
    Function,
>)
    ensures
        methods@ == program.impl_methods(block, name_view(name)),
{
    let ghost pick = program.impl_candidates(name_view(name));
    let mut methods: Vec<Function> = Vec::new();
    let data = match program.impl_block(block) {
        Some(data) => data,
        None => {
            return methods;
        },
    };
    let mut i: usize = 0;
    while i < data.items.len()
        invariant
            i <= data.items@.len(),
            pick == program.impl_candidates(name_view(name)),
            methods@ == data.items@.take(i as int).filter_map(pick),
        decreases data.items@.len() - i,
    {
        proof {
            data.items@.lemma_filter_map_take_succ(pick, i as int);
        }
        if let ImplItem::Method(f) = data.items[i] {
            if is_candidate(program, f, name) {
                methods.push(f);
            }
        }
        i += 1;
    }
    proof {
        assert(data.items@.take(i as int) =~= data.items@);
    }
    methods
}

/// The candidates among the items of the trait `tr`, in declaration order.
fn trait_methods(program: &Program, tr: Trait, name: Option<&Name>) -> (methods: Vec<Function>)
    ensures
        methods@ == program.trait_methods(tr, name_view(name)),
{
    let ghost pick = program.trait_candidates(name_view(name));
    let mut methods: Vec<Function> = Vec::new();
    let data = match program.trait_data(tr) {
        Some(data) => data,
        None => {
            return methods;
        },
    };
    let mut i: usize = 0;
    while i < data.items.len()
        invariant
            i <= data.items@.len(),
            pick == program.trait_candidates(name_view(name)),
            methods@ == data.items@.take(i as int).filter_map(pick),
        decreases data.items@.len() - i,
    {
        proof {
            data.items@.lemma_filter_map_take_succ(pick, i as int);
        }
        if let TraitItem::Function(f) = data.items[i] {
            if is_candidate(program, f, name) {
                methods.push(f);
            }
        }
        i += 1;
    }
    proof {
        assert(data.items@.take(i as int) =~= data.items@);
    }
    methods
}

/// The inherent candidates for `ty`, block by block in index order.
fn inherent_methods(ty: &Ty, db: &HirDatabase, name: Option<&Name>) -> (methods: Vec<Function>)
    ensures
        methods@ == db@.inherent_methods(ty@, name_view(name)),
{
    let ghost by_block = db@.methods_by_block(name_view(name));
    let mut methods: Vec<Function> = Vec::new();
    let krate = match def_crate(db, ty) {
        Some(krate) => krate,
        None => {
            return methods;
        },
    };
    let impls = match db.impls_in_crate(krate) {
        Some(impls) => impls,
        None => {
            return methods;
        },
    };
    let program = db.program();
    let blocks = impls.lookup_impl_blocks(ty);
    proof {
        let fingerprint = TyFingerprint::spec_for_impl(ty@)->0;
        assert(impls.at(IndexKey::Inherent(fingerprint)) == blocks@);
    }
    let mut b: usize = 0;
    while b < blocks.len()
        invariant
            b <= blocks@.len(),
            *program == db@,
            by_block == db@.methods_by_block(name_view(name)),
            blocks@ == db@.inherent_blocks(ty@),
            methods@ == blocks@.take(b as int).flat_map(by_block),
        decreases blocks@.len() - b,
    {
        let mut found = block_methods(program, blocks[b], name);
        proof {
            lemma_flat_map_step(blocks@, by_block, b as int);
        }
        methods.append(&mut found);
        b += 1;
    }
    proof {
        assert(blocks@.take(b as int) =~= blocks@);
    }
    methods
}

/// Puts each of `methods` behind `candidates`, as a candidate for `ty`.
fn push_candidates(candidates: &mut Vec<(Ty, Function)>, ty: &Ty, methods: &Vec<Function>)
    ensures
        forall|found: Seq<(TyView, Function)>|
            stand_for(old(candidates)@, found) ==> #[trigger] stand_for(
                final(candidates)@,
                found + candidates_for(ty@, methods@),
            ),
{
    let mut i: usize = 0;
    while i < methods.len()
        invariant
            i <= methods@.len(),
            forall|found: Seq<(TyView, Function)>|
                stand_for(old(candidates)@, found) ==> #[trigger] stand_for(
                    candidates@,
                    found + candidates_for(ty@, methods@.take(i as int)),
                ),
        decreases methods@.len() - i,
    {
        let ghost before = candidates@;
        let copy = ty.clone();
        candidates.push((copy, methods[i]));
        proof {
            assert forall|found: Seq<(TyView, Function)>|
                stand_for(old(candidates)@, found) implies #[trigger] stand_for(
                candidates@,
                found + candidates_for(ty@, methods@.take(i + 1)),
            ) by {
                let sofar = found + candidates_for(ty@, methods@.take(i as int));
                assert(stand_for(before, sofar));
            }
        }
        i += 1;
    }
    proof {
        assert(methods@.take(i as int) =~= methods@);
    }
}

impl Ty {
    /// All method candidates for a receiver of this type, in the order of
    /// precedence: what a search offers if no candidate is accepted. Each
    /// candidate comes with the dereferenced form of the receiver that it
    /// was found for. The solver is asked every query of the search.
    pub fn method_candidates<S: TraitSolver>(
        self,
        db: &HirDatabase,
        solver: &mut S,
        resolver: &Resolver,
        name: Option<&Name>,
    ) -> (candidates: Vec<(Ty, Function)>)
        ensures
            final(solver).theory() == old(solver).theory(),
            final(solver).probes() == old(solver).probes() + probes_of(
                db@.search_events(old(solver).theory(), self@, resolver.traits@, name_view(name)),
            ),
            stand_for(
                candidates@,
                offered(
                    db@.search_events(
                        old(solver).theory(),
                        self@,
                        resolver.traits@,
                        name_view(name),
                    ),
                ),
            ),
    {
        let ghost theory = solver.theory();
        let ghost asked = solver.probes();
        let ghost views = (theory.deref_chain)(self@);
        let ghost by_step = db@.events_by_step(theory, resolver.traits@, name_view(name));
        let mut candidates: Vec<(Ty, Function)> = Vec::new();
        let chain = solver.autoderef(&self);
        let traits = resolver.traits_in_scope();
        let program = db.program();
        let mut c: usize = 0;
        while c < chain.len()
            invariant
                c <= chain@.len(),
                chain@.len() == views.len(),
                forall|i: int| 0 <= i < chain@.len() ==> (#[trigger] chain@[i])@ == views[i],
                views == (theory.deref_chain)(self@),
                by_step == db@.events_by_step(theory, resolver.traits@, name_view(name)),
                traits@ == resolver.traits@,
                *program == db@,
                theory == old(solver).theory(),
                asked == old(solver).probes(),
                solver.theory() == theory,
                solver.probes() == asked + probes_of(views.take(c as int).flat_map(by_step)),
                stand_for(candidates@, offered(views.take(c as int).flat_map(by_step))),
            decreases chain@.len() - c,
        {
            let derefed_ty = &chain[c];
            let ghost done = views.take(c as int).flat_map(by_step);
            let ghost by_trait = db@.events_by_trait(theory, derefed_ty@, name_view(name));
            let found = inherent_methods(derefed_ty, db, name);
            let ghost inherent = offers(derefed_ty@, found@);
            push_candidates(&mut candidates, derefed_ty, &found);
            proof {
                lemma_offered_add(done, inherent);
                lemma_offered_offers(derefed_ty@, found@);
                lemma_probes_of_add(done, inherent);
                lemma_probes_of_offers(derefed_ty@, found@);
            }
            let mut t: usize = 0;
            while t < traits.len()
                invariant
                    t <= traits@.len(),
                    traits@ == resolver.traits@,
                    *program == db@,
                    by_trait == db@.events_by_trait(theory, derefed_ty@, name_view(name)),
                    solver.theory() == theory,
                    solver.probes() == asked + probes_of(
                        done + inherent + traits@.take(t as int).flat_map(by_trait),
                    ),
                    stand_for(
                        candidates@,
                        offered(done + inherent + traits@.take(t as int).flat_map(by_trait)),
                    ),
                decreases traits@.len() - t,
            {
                let tr = traits[t];
                let ghost sofar = done + inherent + traits@.take(t as int).flat_map(by_trait);
                let ghost part = by_trait(tr);
                let ghost query = program.probe(theory, derefed_ty@, tr);
                let methods = trait_methods(program, tr, name);
                proof {
                    lemma_flat_map_step(traits@, by_trait, t as int);
                    assert(done + inherent + traits@.take(t + 1).flat_map(by_trait) =~= sofar
                        + part);
                    lemma_offered_add(sofar, part);
                    lemma_probes_of_add(sofar, part);
                    lemma_probes_of_probe(query);
                    lemma_offered_probe(query);
                    lemma_probes_of_offers(derefed_ty@, methods@);
                    lemma_offered_offers(derefed_ty@, methods@);
                    lemma_probes_of_add(
                        seq![SearchEvent::Probe(query)],
                        offers(derefed_ty@, methods@),
                    );
                    lemma_offered_add(
                        seq![SearchEvent::Probe(query)],
                        offers(derefed_ty@, methods@),
                    );
                }
                if methods.len() > 0 {
                    let trait_ref = TraitRef {
                        trait_: tr,
                        substs: fresh_substs_for_trait(db, tr, derefed_ty.clone()),
                    };
                    let canonical = solver.canonicalize(trait_ref);
                    if solver.implements(&canonical) {
                        push_candidates(&mut candidates, derefed_ty, &methods);
                    }
                }
                t += 1;
            }
            proof {
                lemma_flat_map_step(views, by_step, c as int);
                assert(traits@.take(t as int) =~= traits@);
                assert(done + inherent + traits@.flat_map(by_trait) =~= done + by_step(
                    views[c as int],
                ));
            }
            c += 1;
        }
        proof {
            assert(views.take(c as int) =~= views);
        }
        candidates
    }
}

} // verus!
