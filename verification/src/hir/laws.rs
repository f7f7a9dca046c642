//! What holds of the index and of the search, whatever the program.

use vstd::prelude::*;
use crate::hir::events::{
    first_offer_at, lemma_flat_map_step, lemma_probes_of_add, lemma_probes_of_offers,
    lemma_probes_of_probe, no_offer, offers, probes_of, SearchEvent,
};
use crate::hir::ids::{Crate, ImplBlock, Trait};
use crate::hir::method_resolution::{index_key, CrateImplBlocks, IndexKey, TyFingerprint};
use crate::hir::program::Program;
use crate::hir::solver::{CanonicalView, Theory};
use crate::hir::ty::TyView;

verus! {

/// The index is determined by the program: two indexes of one crate list
/// the same impl blocks in the same order, under every fingerprint and
/// under every trait. So a lookup in an index that was built again for an
/// unchanged crate yields what it yielded before, in the same order.
pub proof fn index_is_determined(
    first: CrateImplBlocks,
    second: CrateImplBlocks,
    program: Program,
    krate: Crate,
    fingerprint: TyFingerprint,
    tr: Trait,
)
    requires
        first.indexes(program, krate),
        second.indexes(program, krate),
    ensures
        first.inherent(fingerprint) == second.inherent(fingerprint),
        first.for_trait(tr) == second.for_trait(tr),
{
    assert(first.at(IndexKey::Inherent(fingerprint)) == second.at(
        IndexKey::Inherent(fingerprint),
    ));
    assert(first.at(IndexKey::ByTrait(tr)) == second.at(IndexKey::ByTrait(tr)));
}

/// Two applied types with one constructor have one fingerprint, whatever
/// their arguments.
pub proof fn fingerprint_ignores_arguments(first: TyView, second: TyView)
    requires
        first is Apply,
        second is Apply,
        first->ctor == second->ctor,
    ensures
        TyFingerprint::spec_for_impl(first) is Some,
        TyFingerprint::spec_for_impl(first) == TyFingerprint::spec_for_impl(second),
{
}

/// The index misses no inherent impl: an inherent impl block of the crate
/// whose target is an applied type is listed for every applied type with
/// the same constructor, whatever the arguments of either.
pub proof fn index_covers_constructor(
    index: CrateImplBlocks,
    program: Program,
    krate: Crate,
    block: ImplBlock,
    ty: TyView,
)
    requires
        index.indexes(program, krate),
        program.crate_impls(krate).contains(block),
        program.impl_data(block).target_trait is None,
        program.impl_data(block).target_ty@ is Apply,
        ty is Apply,
        ty->ctor == program.impl_data(block).target_ty@->ctor,
    ensures
        TyFingerprint::spec_for_impl(ty) is Some,
        index.inherent(TyFingerprint::spec_for_impl(ty)->0).contains(block),
{
    let fingerprint = TyFingerprint::spec_for_impl(ty)->0;
    let key = IndexKey::Inherent(fingerprint);
    let under_key = |b: ImplBlock| index_key(program.impl_data(b)) == key;
    assert(index.at(key) == program.crate_impls(krate).filter(under_key));
}

/// No run of events has two first offers.
pub proof fn first_offer_is_unique(events: Seq<SearchEvent>, j: int, k: int)
    requires
        first_offer_at(events, j),
        first_offer_at(events, k),
    ensures
        j == k,
{
}

/// Inherent methods take precedence over trait methods. At a type that has
/// an inherent candidate, the first thing the search does is to offer the
/// first inherent candidate: before any query, and whatever the traits in
/// scope offer.
pub proof fn inherent_shadows_traits(
    program: Program,
    theory: Theory,
    ty: TyView,
    traits: Seq<Trait>,
    name: Option<Seq<char>>,
)
    requires
        program.inherent_methods(ty, name).len() > 0,
    ensures
        first_offer_at(program.step_events(theory, ty, traits, name), 0),
        program.step_events(theory, ty, traits, name)[0] == SearchEvent::Offer(
            ty,
            program.inherent_methods(ty, name)[0],
        ),
{
}

/// A receiver with an inherent method gets that method, whatever its
/// traits offer under the same name. If the chain of the receiver begins
/// with the receiver itself and the receiver has an inherent candidate, then
/// the first event of the whole search is the offer of the first inherent
/// candidate, and no query comes before it.
pub proof fn inherent_method_wins(
    program: Program,
    theory: Theory,
    receiver: TyView,
    traits: Seq<Trait>,
    name: Option<Seq<char>>,
)
    requires
        (theory.deref_chain)(receiver).len() >= 1,
        (theory.deref_chain)(receiver)[0] == receiver,
        program.inherent_methods(receiver, name).len() > 0,
    ensures
        first_offer_at(program.search_events(theory, receiver, traits, name), 0),
        program.search_events(theory, receiver, traits, name)[0] == SearchEvent::Offer(
            receiver,
            program.inherent_methods(receiver, name)[0],
        ),
        probes_of(program.search_events(theory, receiver, traits, name).take(0)) == Seq::<
            CanonicalView,
        >::empty(),
{
    let chain = (theory.deref_chain)(receiver);
    inherent_shadows_traits(program, theory, receiver, traits, name);
    first_offering_step_wins(program, theory, chain, traits, name, 0, 0);
}

/// A method found at an earlier form of the receiver shadows every method
/// of a later form. If the search offers nothing at the first `i` types of
/// the chain, and at the next type its first offer is event `k`, then that
/// offer is the first of the whole search.
pub proof fn first_offering_step_wins(
    program: Program,
    theory: Theory,
    chain: Seq<TyView>,
    traits: Seq<Trait>,
    name: Option<Seq<char>>,
    i: int,
    k: int,
)
    requires
        0 <= i < chain.len(),
        no_offer(program.chain_events(theory, chain.take(i), traits, name)),
        first_offer_at(program.step_events(theory, chain[i], traits, name), k),
    ensures
        first_offer_at(
            program.chain_events(theory, chain, traits, name),
            program.chain_events(theory, chain.take(i), traits, name).len() + k,
        ),
        program.chain_events(theory, chain, traits, name)[program.chain_events(
            theory,
            chain.take(i),
            traits,
            name,
        ).len() + k] == program.step_events(theory, chain[i], traits, name)[k],
{
    let by_step = program.events_by_step(theory, traits, name);
    let events = program.chain_events(theory, chain, traits, name);
    let before = program.chain_events(theory, chain.take(i), traits, name);
    let step = program.step_events(theory, chain[i], traits, name);
    lemma_flat_map_step(chain, by_step, i);
    assert forall|j: int| 0 <= j < before.len() + k implies #[trigger] events[j] is Probe by {
        assert(events[j] == (before + step)[j]);
    }
    assert(events[before.len() + k] == (before + step)[before.len() + k]);
}

/// A receiver that has no method of its own finds the method of the type
/// that it dereferences to. If the chain of the receiver goes on to
/// `target`, the search offers nothing at the receiver itself, and `target`
/// has an inherent candidate, then the first offer of the whole search is
/// the first inherent candidate of `target`: the search does not end at the
/// receiver.
pub proof fn method_found_after_deref(
    program: Program,
    theory: Theory,
    receiver: TyView,
    target: TyView,
    traits: Seq<Trait>,
    name: Option<Seq<char>>,
) -> (k: int)
    requires
        (theory.deref_chain)(receiver).len() >= 2,
        (theory.deref_chain)(receiver)[0] == receiver,
        (theory.deref_chain)(receiver)[1] == target,
        no_offer(program.step_events(theory, receiver, traits, name)),
        program.inherent_methods(target, name).len() > 0,
    ensures
        first_offer_at(program.search_events(theory, receiver, traits, name), k),
        program.search_events(theory, receiver, traits, name)[k] == SearchEvent::Offer(
            target,
            program.inherent_methods(target, name)[0],
        ),
{
    let chain = (theory.deref_chain)(receiver);
    let by_step = program.events_by_step(theory, traits, name);
    lemma_flat_map_step(chain, by_step, 0);
    inherent_shadows_traits(program, theory, target, traits, name);
    first_offering_step_wins(program, theory, chain, traits, name, 1, 0);
    program.chain_events(theory, chain.take(1), traits, name).len() as int
}

/// For one type and one trait the solver is asked at most once, however
/// many candidates the trait has; and if the answer is that the type does
/// not implement the trait, the trait offers no candidate.
pub proof fn trait_is_probed_once(
    program: Program,
    theory: Theory,
    ty: TyView,
    tr: Trait,
    name: Option<Seq<char>>,
)
    ensures
        probes_of(program.trait_events(theory, ty, tr, name)).len() <= 1,
        !(theory.holds)(program.probe(theory, ty, tr)) ==> no_offer(
            program.trait_events(theory, ty, tr, name),
        ),
{
    let methods = program.trait_methods(tr, name);
    let query = program.probe(theory, ty, tr);
    lemma_probes_of_probe(query);
    lemma_probes_of_offers(ty, methods);
    lemma_probes_of_add(seq![SearchEvent::Probe(query)], offers(ty, methods));
}

/// At one type the solver is asked at most once for each trait that the
/// scope lists.
pub proof fn scope_is_probed_once_a_trait(
    program: Program,
    theory: Theory,
    ty: TyView,
    traits: Seq<Trait>,
    name: Option<Seq<char>>,
)
    ensures
        probes_of(program.scope_events(theory, ty, traits, name)).len() <= traits.len(),
    decreases traits.len(),
{
    let by_trait = program.events_by_trait(theory, ty, name);
    if traits.len() > 0 {
        let last = traits.len() - 1;
        scope_is_probed_once_a_trait(program, theory, ty, traits.take(last), name);
        trait_is_probed_once(program, theory, ty, traits[last], name);
        lemma_flat_map_step(traits, by_trait, last);
        assert(traits.take(last + 1) =~= traits);
        lemma_probes_of_add(traits.take(last).flat_map(by_trait), by_trait(traits[last]));
    }
}

} // verus!
