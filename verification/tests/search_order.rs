use std::cell::RefCell;

use method_resolution::hir::db::HirDatabase;
use method_resolution::hir::ids::{AdtDef, Const, Crate, CrateModuleId, Function, ImplBlock, ImplId, Module, Name, Trait, TypeAlias};
use method_resolution::hir::method_resolution::{def_crate, fresh_substs_for_trait, CrateImplBlocks, TyFingerprint};
use method_resolution::hir::program::{AdtData, CrateData, FnSignature, ImplData, ImplItem, ModuleData, Program, TraitData, TraitItem};
use method_resolution::hir::solver::{Resolver, TraitSolver};
use method_resolution::hir::table_solver::TableSolver;
use method_resolution::hir::ty::{ApplicationTy, InferTy, Mutability, Substs, TraitRef, Ty, TypeCtor, TypeVarId};

const S: u32 = 0;
const VEC: u32 = 1;
const TR: Trait = Trait { id: 0 };
const OTHER: Trait = Trait { id: 1 };
const WIDE: Trait = Trait { id: 2 };

fn apply(ctor: TypeCtor, args: Vec<Ty>) -> Ty {
    Ty::Apply(ApplicationTy { ctor, parameters: Substs { args } })
}

fn adt(id: u32) -> Ty {
    apply(TypeCtor::Adt(AdtDef { id }), vec![])
}

fn vec_of(item: Ty) -> Ty {
    apply(TypeCtor::Adt(AdtDef { id: VEC }), vec![item])
}

fn reference(to: Ty) -> Ty {
    Ty::Ref(Mutability::Shared, Box::new(to))
}

fn raw_pointer(to: Ty) -> Ty {
    Ty::RawPtr(Mutability::Mut, Box::new(to))
}

fn var(index: u32) -> Ty {
    Ty::Infer(InferTy::TypeVar(TypeVarId { index }))
}

fn f(id: u32) -> Function {
    Function { id }
}

fn block(module: u32, index: u32) -> ImplBlock {
    ImplBlock {
        module: Module { krate: Crate { crate_id: 0 }, module_id: CrateModuleId { index: module } },
        impl_id: ImplId { index },
    }
}

fn inherent(target_ty: Ty, methods: &[u32]) -> ImplData {
    ImplData { target_ty, target_trait: None, items: methods.iter().map(|id| ImplItem::Method(f(*id))).collect() }
}

fn for_trait(tr: Trait, target_ty: Ty, methods: &[u32]) -> ImplData {
    let substs = Substs { args: vec![target_ty.clone()] };
    ImplData {
        target_ty,
        target_trait: Some(TraitRef { trait_: tr, substs }),
        items: methods.iter().map(|id| ImplItem::Method(f(*id))).collect(),
    }
}

fn module(impls: Vec<ImplData>, children: &[u32]) -> ModuleData {
    ModuleData { impls, children: children.iter().map(|index| CrateModuleId { index: *index }).collect() }
}

/// Functions: 0 `m` (inherent of S), 1 `m` (of TR), 2 `a` and 3 `b` (of
/// OTHER), 4 `new` (no receiver), 5 `len` (inherent of Vec), 6 `m` (inherent
/// of S in a child module), 7 `w` (of WIDE).
///
/// Modules: 0 is the root with children 1 and 3; 1 has the child 2.
fn program() -> Program {
    let functions = vec![("m", true), ("m", true), ("a", true), ("b", true), ("new", false), ("len", true), ("m", true), ("w", true)];
    Program {
        crates: vec![CrateData {
            root: Some(CrateModuleId { index: 0 }),
            modules: vec![
                module(vec![inherent(adt(S), &[4, 0]), for_trait(TR, adt(S), &[1])], &[1, 3]),
                module(vec![inherent(vec_of(adt(S)), &[5]), inherent(var(0), &[5])], &[2]),
                module(vec![inherent(adt(S), &[6]), for_trait(TR, vec_of(var(0)), &[1])], &[]),
                module(vec![inherent(vec_of(var(0)), &[]), inherent(reference(adt(S)), &[])], &[]),
            ],
        }],
        adts: vec![AdtData { krate: Some(Crate { crate_id: 0 }) }, AdtData { krate: Some(Crate { crate_id: 0 }) }, AdtData { krate: None }],
        traits: vec![
            TraitData { items: vec![TraitItem::TypeAlias(TypeAlias { id: 0 }), TraitItem::Function(f(1))], generic_params: 1 },
            TraitData { items: vec![TraitItem::Function(f(2)), TraitItem::Const(Const { id: 0 }), TraitItem::Function(f(3))], generic_params: 1 },
            TraitData { items: vec![TraitItem::Function(f(7))], generic_params: 3 },
        ],
        functions: functions
            .into_iter()
            .map(|(name, has_self_param)| FnSignature { name: Name::new(name), has_self_param })
            .collect(),
    }
}

fn db() -> HirDatabase {
    HirDatabase::new(program()).unwrap()
}

fn scope(traits: &[Trait]) -> Resolver {
    Resolver { traits: traits.to_vec() }
}

fn implementing(pairs: &[(Trait, u32)]) -> TableSolver {
    TableSolver::new(pairs.iter().map(|(tr, id)| (*tr, TypeCtor::Adt(AdtDef { id: *id }))).collect())
}

/// All candidates of a search, in the order in which they are offered.
fn candidates(receiver: Ty, solver: &mut TableSolver, resolver: &Resolver, name: Option<&str>) -> Vec<(Ty, Function)> {
    let seen = RefCell::new(Vec::new());
    let name = name.map(Name::new);
    let result: Option<()> = receiver.iterate_method_candidates(&db(), solver, resolver, name.as_ref(), |ty: &Ty, f: Function| {
        seen.borrow_mut().push((ty.clone(), f));
        None
    });
    assert_eq!(result, None);
    seen.into_inner()
}

#[test]
fn index_is_in_preorder_of_the_module_tree() {
    let index = CrateImplBlocks::impls_in_crate_query(&program(), Crate { crate_id: 0 });
    assert_eq!(index.lookup_impl_blocks(&adt(S)), vec![block(0, 0), block(2, 0)]);
    assert_eq!(index.lookup_impl_blocks(&vec_of(adt(S))), vec![block(1, 0), block(3, 0)]);
    // The impl for a reference in module 3 is in no list.
    assert_eq!(index.lookup_impl_blocks(&reference(adt(S))), vec![]);
    assert_eq!(index.lookup_impl_blocks_for_trait(&TR), vec![block(0, 1), block(2, 1)]);
    assert_eq!(index.lookup_impl_blocks_for_trait(&OTHER), vec![]);
}

#[test]
fn rebuilt_index_yields_the_same_order() {
    let first = CrateImplBlocks::impls_in_crate_query(&program(), Crate { crate_id: 0 });
    let second = CrateImplBlocks::impls_in_crate_query(&program(), Crate { crate_id: 0 });
    for ty in [adt(S), vec_of(adt(S)), vec_of(var(3)), reference(adt(S)), var(0), Ty::Unknown] {
        assert_eq!(first.lookup_impl_blocks(&ty), second.lookup_impl_blocks(&ty));
    }
    for tr in [TR, OTHER, WIDE] {
        assert_eq!(first.lookup_impl_blocks_for_trait(&tr), second.lookup_impl_blocks_for_trait(&tr));
    }
}

#[test]
fn impls_are_listed_for_every_argument_of_the_constructor() {
    let index = CrateImplBlocks::impls_in_crate_query(&program(), Crate { crate_id: 0 });
    let for_s = index.lookup_impl_blocks(&vec_of(adt(S)));
    let for_var = index.lookup_impl_blocks(&vec_of(var(7)));
    let for_nested = index.lookup_impl_blocks(&vec_of(vec_of(adt(S))));
    assert_eq!(for_s, for_var);
    assert_eq!(for_s, for_nested);
    assert!(for_var.contains(&block(1, 0)));
    assert!(for_s.contains(&block(3, 0)));
    assert_eq!(TyFingerprint::for_impl(&vec_of(adt(S))), TyFingerprint::for_impl(&vec_of(var(0))));
}

#[test]
fn impl_for_a_type_without_fingerprint_is_left_out() {
    let index = CrateImplBlocks::impls_in_crate_query(&program(), Crate { crate_id: 0 });
    assert_eq!(index.lookup_impl_blocks(&var(0)), vec![]);
    assert_eq!(index.lookup_impl_blocks(&Ty::Unknown), vec![]);
    assert_eq!(index.lookup_impl_blocks(&reference(adt(S))), vec![]);
    assert_eq!(index.lookup_impl_blocks(&raw_pointer(adt(S))), vec![]);
    assert_eq!(TyFingerprint::for_impl(&var(0)), None);
}

#[test]
fn references_and_raw_pointers_have_no_fingerprint() {
    assert_eq!(TyFingerprint::for_impl(&reference(adt(S))), None);
    assert_eq!(TyFingerprint::for_impl(&reference(reference(adt(S)))), None);
    assert_eq!(TyFingerprint::for_impl(&Ty::Ref(Mutability::Mut, Box::new(adt(S)))), None);
    assert_eq!(TyFingerprint::for_impl(&raw_pointer(adt(S))), None);
    assert_eq!(TyFingerprint::for_impl(&Ty::RawPtr(Mutability::Shared, Box::new(var(0)))), None);
    assert_eq!(TyFingerprint::for_impl(&Ty::Unknown), None);
    // Every applied type has one, whatever its arguments.
    assert_eq!(TyFingerprint::for_impl(&vec_of(reference(adt(S)))), Some(TyFingerprint::Apply(TypeCtor::Adt(AdtDef { id: VEC }))));
    assert_eq!(TyFingerprint::for_impl(&apply(TypeCtor::Tuple, vec![adt(S), var(0)])), Some(TyFingerprint::Apply(TypeCtor::Tuple)));
    assert_eq!(TyFingerprint::for_impl(&apply(TypeCtor::Bool, vec![])), Some(TyFingerprint::Apply(TypeCtor::Bool)));
}

#[test]
fn all_candidates_are_what_a_search_offers() {
    let cases: Vec<(Ty, Vec<Trait>, Option<&str>, Vec<(Trait, u32)>)> = vec![
        (adt(S), vec![TR], Some("m"), vec![(TR, S)]),
        (adt(S), vec![OTHER, TR], None, vec![(OTHER, S)]),
        (reference(adt(S)), vec![TR, OTHER], None, vec![(TR, S), (OTHER, S)]),
        (reference(reference(vec_of(adt(S)))), vec![WIDE, OTHER, TR], None, vec![(WIDE, VEC), (TR, VEC)]),
        (raw_pointer(adt(S)), vec![], Some("m"), vec![]),
        (adt(2), vec![TR], None, vec![]),
        (Ty::Unknown, vec![TR, OTHER, WIDE], Some("zzz"), vec![(TR, S)]),
    ];
    for (receiver, traits, name, table) in cases {
        let mut by_callback = implementing(&table);
        let offered = candidates(receiver.clone(), &mut by_callback, &scope(&traits), name);
        let mut collecting = implementing(&table);
        let name = name.map(Name::new);
        let collected = receiver.method_candidates(&db(), &mut collecting, &scope(&traits), name.as_ref());
        assert_eq!(collected, offered);
        assert_eq!(collecting.asked, by_callback.asked);
    }
    let mut solver = implementing(&[(OTHER, S)]);
    let all = reference(adt(S)).method_candidates(&db(), &mut solver, &scope(&[TR, OTHER]), None);
    assert_eq!(all, vec![(adt(S), f(0)), (adt(S), f(6)), (adt(S), f(2)), (adt(S), f(3))]);
    // Both traits are asked for the reference and for its referent.
    assert_eq!(solver.asked_count(), 4);
}

#[test]
fn index_of_a_crate_without_root_or_of_no_crate_is_empty() {
    let mut without_root = program();
    without_root.crates[0].root = None;
    let index = CrateImplBlocks::impls_in_crate_query(&without_root, Crate { crate_id: 0 });
    assert_eq!(index.lookup_impl_blocks(&adt(S)), vec![]);
    assert_eq!(index.lookup_impl_blocks_for_trait(&TR), vec![]);
    let index = CrateImplBlocks::impls_in_crate_query(&program(), Crate { crate_id: 9 });
    assert_eq!(index.lookup_impl_blocks(&adt(S)), vec![]);
}

#[test]
fn fingerprint_keys_differ() {
    let ctors = [
        TypeCtor::Bool,
        TypeCtor::Char,
        TypeCtor::Int,
        TypeCtor::Float,
        TypeCtor::Str,
        TypeCtor::Slice,
        TypeCtor::Array,
        TypeCtor::Never,
        TypeCtor::Tuple,
        TypeCtor::Adt(AdtDef { id: 0 }),
        TypeCtor::Adt(AdtDef { id: 1 }),
        TypeCtor::Adt(AdtDef { id: u32::MAX }),
    ];
    for (i, a) in ctors.iter().enumerate() {
        for (j, b) in ctors.iter().enumerate() {
            assert_eq!(TyFingerprint::Apply(*a).key() == TyFingerprint::Apply(*b).key(), i == j);
        }
    }
    assert_eq!(TyFingerprint::Apply(TypeCtor::Bool).key(), 0);
    assert_eq!(TyFingerprint::Apply(TypeCtor::Tuple).key(), 8);
    assert_eq!(TyFingerprint::Apply(TypeCtor::Adt(AdtDef { id: 5 })).key(), 14);
    assert_eq!(TyFingerprint::Apply(TypeCtor::Adt(AdtDef { id: u32::MAX })).key(), 9 + u32::MAX as u64);
}

#[test]
fn malformed_program_has_no_database() {
    assert!(program().check());
    let mut cyclic = program();
    cyclic.crates[0].modules[2].children.push(CrateModuleId { index: 1 });
    assert!(!cyclic.check());
    assert!(HirDatabase::new(cyclic).is_none());
    let mut own_child = program();
    own_child.crates[0].modules[3].children.push(CrateModuleId { index: 3 });
    assert!(HirDatabase::new(own_child).is_none());
    let mut child_out_of_range = program();
    child_out_of_range.crates[0].modules[3].children.push(CrateModuleId { index: 4 });
    assert!(HirDatabase::new(child_out_of_range).is_none());
    let mut root_out_of_range = program();
    root_out_of_range.crates[0].root = Some(CrateModuleId { index: 4 });
    assert!(HirDatabase::new(root_out_of_range).is_none());
    let mut foreign = program();
    foreign.adts[2].krate = Some(Crate { crate_id: 1 });
    assert!(HirDatabase::new(foreign).is_none());
    assert!(HirDatabase::new(Program { crates: vec![], adts: vec![], traits: vec![], functions: vec![] }).is_some());
}

#[test]
fn database_answers_from_the_program() {
    let db = db();
    assert_eq!(db.program(), &program());
    assert!(db.impls_in_crate(Crate { crate_id: 1 }).is_none());
    let index = db.impls_in_crate(Crate { crate_id: 0 }).unwrap();
    assert_eq!(index.lookup_impl_blocks(&adt(S)), vec![block(0, 0), block(2, 0)]);
    let program = program();
    assert_eq!(program.root_module(Crate { crate_id: 0 }), Some(block(0, 0).module));
    assert_eq!(program.root_module(Crate { crate_id: 1 }), None);
    assert_eq!(program.module(block(1, 0).module).map(|m| m.impls.len()), Some(2));
    assert!(program.module(block(4, 0).module).is_none());
    assert_eq!(program.impl_block(block(0, 1)).map(|b| b.items.clone()), Some(vec![ImplItem::Method(f(1))]));
    assert!(program.impl_block(block(0, 2)).is_none());
    assert_eq!(program.trait_data(WIDE).map(|t| t.generic_params), Some(3));
    assert!(program.trait_data(Trait { id: 3 }).is_none());
    assert_eq!(program.signature(f(4)).map(|s| s.has_self_param), Some(false));
    assert!(program.signature(f(8)).is_none());
    assert_eq!(program.adt_krate(AdtDef { id: 2 }), None);
    assert_eq!(program.adt_krate(AdtDef { id: 3 }), None);
    assert_eq!(ImplBlock::from_id(block(1, 0).module, ImplId { index: 7 }), block(1, 7));
}

#[test]
fn only_nominal_types_have_a_crate() {
    let db = db();
    assert_eq!(def_crate(&db, &adt(S)), Some(Crate { crate_id: 0 }));
    assert_eq!(def_crate(&db, &vec_of(var(0))), Some(Crate { crate_id: 0 }));
    assert_eq!(def_crate(&db, &adt(2)), None);
    assert_eq!(def_crate(&db, &adt(40)), None);
    assert_eq!(def_crate(&db, &reference(adt(S))), None);
    assert_eq!(def_crate(&db, &apply(TypeCtor::Bool, vec![])), None);
    assert_eq!(def_crate(&db, &var(0)), None);
    assert_eq!(def_crate(&db, &Ty::Unknown), None);
}

#[test]
fn probe_has_the_self_type_first_and_fresh_variables_after() {
    let db = db();
    assert_eq!(fresh_substs_for_trait(&db, TR, adt(S)), Substs { args: vec![adt(S)] });
    assert_eq!(fresh_substs_for_trait(&db, WIDE, vec_of(var(5))), Substs { args: vec![vec_of(var(5)), var(0), var(1)] });
    assert_eq!(fresh_substs_for_trait(&db, Trait { id: 9 }, adt(S)), Substs { args: vec![adt(S)] });
    let mut no_params = program();
    no_params.traits[0].generic_params = 0;
    let db = HirDatabase::new(no_params).unwrap();
    assert_eq!(fresh_substs_for_trait(&db, TR, Ty::Unknown), Substs { args: vec![Ty::Unknown] });
}

#[test]
fn inherent_method_shadows_trait_method_of_the_same_name() {
    let mut solver = implementing(&[(TR, S)]);
    let found = adt(S).lookup_method(&db(), &mut solver, &Name::new("m"), &scope(&[TR]));
    assert_eq!(found, Some((adt(S), f(0))));
    assert_eq!(solver.asked_count(), 0);
    let all = candidates(adt(S), &mut solver, &scope(&[TR]), Some("m"));
    assert_eq!(all, vec![(adt(S), f(0)), (adt(S), f(6)), (adt(S), f(1))]);
}

#[test]
fn method_of_the_referent_is_found_through_the_reference() {
    let mut solver = implementing(&[]);
    let found = reference(adt(S)).lookup_method(&db(), &mut solver, &Name::new("m"), &scope(&[]));
    assert_eq!(found, Some((adt(S), f(0))));
    let found = reference(reference(vec_of(adt(S)))).lookup_method(&db(), &mut solver, &Name::new("len"), &scope(&[]));
    assert_eq!(found, Some((vec_of(adt(S)), f(5))));
    let chain = solver.autoderef(&reference(reference(adt(S))));
    assert_eq!(chain, vec![reference(reference(adt(S))), reference(adt(S)), adt(S)]);
    assert_eq!(solver.autoderef(&vec_of(adt(S))), vec![vec_of(adt(S))]);
    assert_eq!(solver.autoderef(&raw_pointer(var(1))), vec![raw_pointer(var(1)), var(1)]);
    assert_eq!(solver.autoderef(&reference(raw_pointer(Ty::Unknown))).len(), 3);
}

#[test]
fn earlier_form_of_the_receiver_shadows_later_forms() {
    // The trait is implemented for the reference's referent only, and an
    // inherent method of the same name exists there; at the reference
    // itself nothing is offered.
    let mut solver = implementing(&[(TR, S)]);
    let all = candidates(reference(adt(S)), &mut solver, &scope(&[TR]), Some("m"));
    assert_eq!(all, vec![(adt(S), f(0)), (adt(S), f(6)), (adt(S), f(1))]);
    // One query for the reference, one for the referent.
    assert_eq!(solver.asked_count(), 2);
}

#[test]
fn unimplemented_trait_is_asked_once_and_offers_nothing() {
    let mut solver = implementing(&[]);
    let all = candidates(adt(S), &mut solver, &scope(&[OTHER]), None);
    assert_eq!(all, vec![(adt(S), f(0)), (adt(S), f(6))]);
    assert_eq!(solver.asked_count(), 1);
    assert_eq!(solver.asked[0].value.trait_, OTHER);
    assert_eq!(solver.asked[0].value.substs, Substs { args: vec![adt(S)] });

    let mut solver = implementing(&[]);
    assert_eq!(candidates(adt(S), &mut solver, &scope(&[OTHER]), Some("a")), vec![]);
    assert_eq!(candidates(adt(S), &mut solver, &scope(&[OTHER]), Some("b")), vec![]);
    assert_eq!(solver.asked_count(), 2);
}

#[test]
fn implemented_trait_is_asked_once_for_all_its_methods() {
    let mut solver = implementing(&[(OTHER, S)]);
    let all = candidates(adt(S), &mut solver, &scope(&[OTHER]), None);
    assert_eq!(all, vec![(adt(S), f(0)), (adt(S), f(6)), (adt(S), f(2)), (adt(S), f(3))]);
    assert_eq!(solver.asked_count(), 1);
}

#[test]
fn trait_without_a_candidate_is_not_asked() {
    let mut solver = implementing(&[(TR, S), (OTHER, S)]);
    assert_eq!(candidates(adt(S), &mut solver, &scope(&[TR, OTHER]), Some("zzz")), vec![]);
    assert_eq!(solver.asked_count(), 0);
    assert_eq!(candidates(adt(S), &mut solver, &scope(&[Trait { id: 77 }]), None).len(), 2);
    assert_eq!(solver.asked_count(), 0);
}

#[test]
fn traits_are_taken_in_scope_order() {
    let mut solver = implementing(&[(TR, VEC), (OTHER, VEC), (WIDE, VEC)]);
    let ty = vec_of(adt(S));
    let all = candidates(ty.clone(), &mut solver, &scope(&[WIDE, OTHER, TR]), None);
    assert_eq!(all, vec![(ty.clone(), f(5)), (ty.clone(), f(7)), (ty.clone(), f(2)), (ty.clone(), f(3)), (ty.clone(), f(1))]);
    assert_eq!(solver.asked_count(), 3);
    assert_eq!(solver.asked[0].value.substs, Substs { args: vec![ty, var(0), var(1)] });
    assert_eq!(solver.asked[0].num_vars, 2);
}

#[test]
fn search_stops_at_the_first_accepted_candidate() {
    let mut solver = implementing(&[(OTHER, S)]);
    let offered = RefCell::new(0);
    let found = adt(S).iterate_method_candidates(&db(), &mut solver, &scope(&[OTHER, TR]), None, |_ty: &Ty, f: Function| {
        *offered.borrow_mut() += 1;
        if f.id == 2 {
            Some(f.id)
        } else {
            None
        }
    });
    assert_eq!(found, Some(2));
    assert_eq!(offered.into_inner(), 3);
    assert_eq!(solver.asked_count(), 1);
}

#[test]
fn function_without_receiver_is_no_method_candidate() {
    let mut solver = implementing(&[]);
    let found = adt(S).lookup_method(&db(), &mut solver, &Name::new("new"), &scope(&[]));
    assert_eq!(found, None);
}

#[test]
fn types_without_owner_or_fingerprint_have_no_inherent_candidates() {
    let mut solver = implementing(&[]);
    assert_eq!(candidates(reference(var(0)), &mut solver, &scope(&[]), None), vec![]);
    assert_eq!(candidates(adt(2), &mut solver, &scope(&[]), None), vec![]);
    assert_eq!(candidates(Ty::Unknown, &mut solver, &scope(&[]), None), vec![]);
    let none: Option<u32> = adt(2).iterate_inherent_methods(&db(), None, &|_ty: &Ty, _f: Function| Some(1));
    assert_eq!(none, None);
    let some: Option<u32> = adt(S).iterate_inherent_methods(&db(), Some(&Name::new("m")), &|_ty: &Ty, f: Function| Some(f.id));
    assert_eq!(some, Some(0));
}

#[test]
fn trait_candidates_alone() {
    let mut solver = implementing(&[(TR, S)]);
    let ty = adt(S);
    let found = ty.iterate_trait_method_candidates(&db(), &mut solver, &scope(&[OTHER, TR]), None, &|_ty: &Ty, f: Function| Some(f));
    assert_eq!(found, Some(f(1)));
    assert_eq!(solver.asked_count(), 2);
}

#[test]
fn impl_items_are_offered_whatever_their_kind() {
    let mut with_const = program();
    with_const.crates[0].modules[0].impls[0].items.insert(0, ImplItem::Const(Const { id: 3 }));
    with_const.crates[0].modules[2].impls[0].items.push(ImplItem::TypeAlias(TypeAlias { id: 4 }));
    let db = HirDatabase::new(with_const).unwrap();
    let seen = RefCell::new(Vec::new());
    let result: Option<()> = adt(S).iterate_impl_items(&db, |item: ImplItem| {
        seen.borrow_mut().push(item);
        None
    });
    assert_eq!(result, None);
    assert_eq!(
        seen.into_inner(),
        vec![
            ImplItem::Const(Const { id: 3 }),
            ImplItem::Method(f(4)),
            ImplItem::Method(f(0)),
            ImplItem::Method(f(6)),
            ImplItem::TypeAlias(TypeAlias { id: 4 }),
        ]
    );
    let first_alias = adt(S).iterate_impl_items(&db, |item: ImplItem| match item {
        ImplItem::TypeAlias(alias) => Some(alias),
        _ => None,
    });
    assert_eq!(first_alias, Some(TypeAlias { id: 4 }));
    let nothing: Option<ImplItem> = reference(adt(S)).iterate_impl_items(&db, |item: ImplItem| Some(item));
    assert_eq!(nothing, None);
}

#[test]
fn names_compare_by_their_text() {
    assert!(Name::new("foo").same_as(&Name::new("foo")));
    assert!(!Name::new("foo").same_as(&Name::new("fo")));
    assert_eq!(Name::new("x").clone(), Name::new("x"));
    assert_eq!(vec_of(var(2)).clone(), vec_of(var(2)));
}
