//! What a search does, as a sequence of events: the candidates it offers to
//! the caller and the satisfiability queries it makes, in order.

use vstd::prelude::*;
use crate::hir::ids::{Crate, Function, ImplBlock, Name, Trait};
use crate::hir::method_resolution::{IndexKey, TyFingerprint};
use crate::hir::program::{FnSignature, ImplItem, Program, TraitItem};
use crate::hir::solver::{CanonicalView, Theory};
use crate::hir::ty::{InferTy, TraitRefView, Ty, TyView, TypeCtor, TypeVarId};

verus! {

/// One step of a search.
pub ghost enum SearchEvent {
    /// The solver is asked whether a trait reference holds.
    Probe(CanonicalView),
    /// A method is offered to the caller as a candidate for a type.
    Offer(TyView, Function),
}

/// Whether a function with signature `sig` is a method that the name filter
/// lets through: it takes a receiver, and it has the name asked for, if one
/// was asked for.
pub open spec fn matches_filter(sig: FnSignature, name: Option<Seq<char>>) -> bool {
    &&& name matches Some(wanted) ==> sig.name@ == wanted
    &&& sig.has_self_param
}

/// The name that a filter asks for.
pub open spec fn name_view(name: Option<&Name>) -> Option<Seq<char>> {
    match name {
        Some(name) => Some(name@),
        None => None,
    }
}

/// The offers of each of `methods` for `ty`, in order.
pub open spec fn offers(ty: TyView, methods: Seq<Function>) -> Seq<SearchEvent> {
    Seq::new(methods.len(), |i: int| SearchEvent::Offer(ty, methods[i]))
}

/// The query that an event makes, if it is one.
pub open spec fn probe_of(event: SearchEvent) -> Option<CanonicalView> {
    match event {
        SearchEvent::Probe(query) => Some(query),
        SearchEvent::Offer(_, _) => None,
    }
}

/// The queries among `events`, in order.
pub open spec fn probes_of(events: Seq<SearchEvent>) -> Seq<CanonicalView> {
    events.filter_map(|event: SearchEvent| probe_of(event))
}

impl Program {
    /// Whether `f` is a known function that the name filter lets through.
    pub open spec fn is_candidate(&self, f: Function, name: Option<Seq<char>>) -> bool {
        &&& f.id < self.functions@.len()
        &&& matches_filter(self.functions@[f.id as int], name)
    }

    /// The candidate that an impl item is, if it is one.
    pub open spec fn impl_candidate(&self, item: ImplItem, name: Option<Seq<char>>) -> Option<
        Function,
    > {
        match item {
            ImplItem::Method(f) => if self.is_candidate(f, name) {
                Some(f)
            } else {
                None
            },
            _ => None,
        }
    }

    /// `impl_candidate` under the filter `name`, as a function of the item.
    pub open spec fn impl_candidates(&self, name: Option<Seq<char>>) -> spec_fn(ImplItem) -> Option<
        Function,
    > {
        |item: ImplItem| self.impl_candidate(item, name)
    }

    /// The candidates among the items of `block`, in source order.
    pub open spec fn impl_methods(&self, block: ImplBlock, name: Option<Seq<char>>) -> Seq<
        Function,
    > {
        if self.has_impl(block) {
            self.impl_data(block).items@.filter_map(self.impl_candidates(name))
        } else {
            Seq::empty()
        }
    }

    /// The items of `block`, in source order.
    pub open spec fn impl_items(&self, block: ImplBlock) -> Seq<ImplItem> {
        if self.has_impl(block) {
            self.impl_data(block).items@
        } else {
            Seq::empty()
        }
    }

    /// The crate that owns a type: that of its definition for a nominal
    /// type, none for every other type.
    pub open spec fn spec_def_crate(&self, ty: TyView) -> Option<Crate> {
        match ty {
            TyView::Apply { ctor: TypeCtor::Adt(def), parameters } => self.spec_adt_krate(def),
            _ => None,
        }
    }

    /// The inherent impl blocks that may be for `ty`: those that the index
    /// of the type's crate lists under the type's fingerprint.
    pub open spec fn inherent_blocks(&self, ty: TyView) -> Seq<ImplBlock> {
        match (self.spec_def_crate(ty), TyFingerprint::spec_for_impl(ty)) {
            (Some(krate), Some(fingerprint)) => self.keyed(
                self.crate_impls(krate),
                IndexKey::Inherent(fingerprint),
            ),
            _ => Seq::empty(),
        }
    }

    /// `impl_methods` under the filter `name`, as a function of the block.
    pub open spec fn methods_by_block(&self, name: Option<Seq<char>>) -> spec_fn(ImplBlock) -> Seq<
        Function,
    > {
        |block: ImplBlock| self.impl_methods(block, name)
    }

    /// `impl_items`, as a function of the block.
    pub open spec fn items_by_block(&self) -> spec_fn(ImplBlock) -> Seq<ImplItem> {
        |block: ImplBlock| self.impl_items(block)
    }

    /// The inherent candidates for `ty`: block by block in index order, and
    /// in source order within a block.
    pub open spec fn inherent_methods(&self, ty: TyView, name: Option<Seq<char>>) -> Seq<
        Function,
    > {
        self.inherent_blocks(ty).flat_map(self.methods_by_block(name))
    }

    /// All items of the inherent impl blocks that may be for `ty`, block by
    /// block in index order.
    pub open spec fn inherent_items(&self, ty: TyView) -> Seq<ImplItem> {
        self.inherent_blocks(ty).flat_map(self.items_by_block())
    }

    /// The candidate that a trait item is, if it is one.
    pub open spec fn trait_candidate(&self, item: TraitItem, name: Option<Seq<char>>) -> Option<
        Function,
    > {
        match item {
            TraitItem::Function(f) => if self.is_candidate(f, name) {
                Some(f)
            } else {
                None
            },
            _ => None,
        }
    }

    /// `trait_candidate` under the filter `name`, as a function of the item.
    pub open spec fn trait_candidates(&self, name: Option<Seq<char>>) -> spec_fn(
        TraitItem,
    ) -> Option<Function> {
        |item: TraitItem| self.trait_candidate(item, name)
    }

    /// The candidates among the items of the trait `tr`, in declaration
    /// order.
    pub open spec fn trait_methods(&self, tr: Trait, name: Option<Seq<char>>) -> Seq<Function> {
        if tr.id < self.traits@.len() {
            self.traits@[tr.id as int].items@.filter_map(self.trait_candidates(name))
        } else {
            Seq::empty()
        }
    }

    /// How many placeholders a probe of the trait `tr` needs: one for each
    /// generic parameter but the `Self` parameter.
    pub open spec fn fresh_vars(&self, tr: Trait) -> nat {
        if tr.id < self.traits@.len() && self.traits@[tr.id as int].generic_params >= 1 {
            (self.traits@[tr.id as int].generic_params - 1) as nat
        } else {
            0
        }
    }

    /// The arguments of a probe of the trait `tr` for `self_ty`: the type
    /// itself in the first place, then the placeholders, numbered from zero.
    pub open spec fn probe_substs(&self, tr: Trait, self_ty: TyView) -> Seq<TyView> {
        seq![self_ty] + Seq::new(
            self.fresh_vars(tr),
            |i: int| TyView::Infer(InferTy::TypeVar(TypeVarId { index: i as u32 })),
        )
    }

    /// The query that asks whether `ty` implements the trait `tr`.
    pub open spec fn probe(&self, theory: Theory, ty: TyView, tr: Trait) -> CanonicalView {
        (theory.canonical)(TraitRefView { trait_: tr, substs: self.probe_substs(tr, ty) })
    }

    /// What the search does for one trait in scope at the type `ty`. If the
    /// trait has no candidate, nothing. Else one query, and after it the
    /// offer of each candidate, if the query held.
    pub open spec fn trait_events(
        &self,
        theory: Theory,
        ty: TyView,
        tr: Trait,
        name: Option<Seq<char>>,
    ) -> Seq<SearchEvent> {
        let methods = self.trait_methods(tr, name);
        let query = self.probe(theory, ty, tr);
        if methods.len() == 0 {
            Seq::empty()
        } else if (theory.holds)(query) {
            seq![SearchEvent::Probe(query)] + offers(ty, methods)
        } else {
            seq![SearchEvent::Probe(query)]
        }
    }

    /// `trait_events` at the type `ty`, as a function of the trait.
    pub open spec fn events_by_trait(
        &self,
        theory: Theory,
        ty: TyView,
        name: Option<Seq<char>>,
    ) -> spec_fn(Trait) -> Seq<SearchEvent> {
        |tr: Trait| self.trait_events(theory, ty, tr, name)
    }

    /// What the search does for the traits in scope at the type `ty`, trait
    /// by trait in scope order.
    pub open spec fn scope_events(
        &self,
        theory: Theory,
        ty: TyView,
        traits: Seq<Trait>,
        name: Option<Seq<char>>,
    ) -> Seq<SearchEvent> {
        traits.flat_map(self.events_by_trait(theory, ty, name))
    }

    /// What the search does at the type `ty`: the inherent candidates first,
    /// then the traits in scope.
    pub open spec fn step_events(
        &self,
        theory: Theory,
        ty: TyView,
        traits: Seq<Trait>,
        name: Option<Seq<char>>,
    ) -> Seq<SearchEvent> {
        offers(ty, self.inherent_methods(ty, name)) + self.scope_events(theory, ty, traits, name)
    }

    /// `step_events`, as a function of the type.
    pub open spec fn events_by_step(
        &self,
        theory: Theory,
        traits: Seq<Trait>,
        name: Option<Seq<char>>,
    ) -> spec_fn(TyView) -> Seq<SearchEvent> {
        |ty: TyView| self.step_events(theory, ty, traits, name)
    }

    /// What the search does for the types of `chain`, type by type in
    /// order.
    pub open spec fn chain_events(
        &self,
        theory: Theory,
        chain: Seq<TyView>,
        traits: Seq<Trait>,
        name: Option<Seq<char>>,
    ) -> Seq<SearchEvent> {
        chain.flat_map(self.events_by_step(theory, traits, name))
    }

    /// What a search from `receiver` does if no candidate is accepted: it
    /// takes the dereferenced forms of the receiver in order.
    pub open spec fn search_events(
        &self,
        theory: Theory,
        receiver: TyView,
        traits: Seq<Trait>,
        name: Option<Seq<char>>,
    ) -> Seq<SearchEvent> {
        self.chain_events(theory, (theory.deref_chain)(receiver), traits, name)
    }
}

/// The callback can turn down the candidate of `event`. A query is no
/// candidate and is never in the way.
pub open spec fn rejects<T, F: Fn(&Ty, Function) -> Option<T>>(callback: F, event: SearchEvent) -> bool {
    match event {
        SearchEvent::Offer(ty, f) => exists|t: Ty|
            t@ == ty && #[trigger] call_ensures(callback, (&t, f), None::<T>),
        SearchEvent::Probe(_) => true,
    }
}

/// The callback can answer the candidate of `event` with `result`.
pub open spec fn accepts<T, F: Fn(&Ty, Function) -> Option<T>>(
    callback: F,
    event: SearchEvent,
    result: T,
) -> bool {
    match event {
        SearchEvent::Offer(ty, f) => exists|t: Ty|
            t@ == ty && #[trigger] call_ensures(callback, (&t, f), Some(result)),
        SearchEvent::Probe(_) => false,
    }
}

/// The callback turned down every candidate among `events`.
pub open spec fn all_rejected<T, F: Fn(&Ty, Function) -> Option<T>>(
    callback: F,
    events: Seq<SearchEvent>,
) -> bool {
    forall|j: int| 0 <= j < events.len() ==> rejects(callback, #[trigger] events[j])
}

/// A search that does `events` in order came to an end before event `k`:
/// the callback turned down every candidate before it, and either event `k`
/// is a candidate that it answered with the result, or there is no event `k`
/// and no result.
pub open spec fn stops_at<T, F: Fn(&Ty, Function) -> Option<T>>(
    events: Seq<SearchEvent>,
    callback: F,
    result: Option<T>,
    k: int,
) -> bool {
    &&& 0 <= k <= events.len()
    &&& all_rejected(callback, events.take(k))
    &&& match result {
        Some(value) => k < events.len() && accepts(callback, events[k], value),
        None => k == events.len(),
    }
}

/// A search that does `events` in order gave `result` and took the solver's
/// record of queries from `before` to `after`: it stopped before some
/// event, and made the queries that come before that event, no other.
pub open spec fn ran<T, F: Fn(&Ty, Function) -> Option<T>>(
    events: Seq<SearchEvent>,
    callback: F,
    result: Option<T>,
    before: Seq<CanonicalView>,
    after: Seq<CanonicalView>,
) -> bool {
    exists|k: int| #[trigger]
        stops_at(events, callback, result, k) && after == before + probes_of(events.take(k))
}

/// The queries of two runs of events, one after the other.
pub(crate) proof fn lemma_probes_of_add(a: Seq<SearchEvent>, b: Seq<SearchEvent>)
    ensures
        probes_of(a + b) == probes_of(a) + probes_of(b),
    decreases b.len(),
{
    if b.len() > 0 {
        lemma_probes_of_add(a, b.drop_last());
        assert((a + b).drop_last() =~= a + b.drop_last());
    }
}

/// Offers hold no query.
pub(crate) proof fn lemma_probes_of_offers(ty: TyView, methods: Seq<Function>)
    ensures
        probes_of(offers(ty, methods)) == Seq::<CanonicalView>::empty(),
    decreases methods.len(),
{
    if methods.len() > 0 {
        lemma_probes_of_offers(ty, methods.drop_last());
        assert(offers(ty, methods).drop_last() =~= offers(ty, methods.drop_last()));
    }
}

/// The offers of a beginning of `methods` begin the offers of `methods`.
pub(crate) proof fn lemma_offers_prefix(ty: TyView, part: Seq<Function>, methods: Seq<Function>)
    requires
        part.is_prefix_of(methods),
    ensures
        offers(ty, part).is_prefix_of(offers(ty, methods)),
{
}

/// A run of offers of which the callback turned down each and accepted the
/// next stops there.
pub(crate) proof fn lemma_offer_accepted<T, F: Fn(&Ty, Function) -> Option<T>>(
    ty: TyView,
    methods: Seq<Function>,
    callback: F,
    done: Seq<Function>,
    f: Function,
    value: T,
)
    requires
        done.push(f).is_prefix_of(methods),
        all_rejected(callback, offers(ty, done)),
        accepts(callback, SearchEvent::Offer(ty, f), value),
    ensures
        stops_at(offers(ty, methods), callback, Some(value), done.len() as int),
{
    assert(offers(ty, done.push(f)) =~= offers(ty, done).push(SearchEvent::Offer(ty, f)));
    lemma_stops_on_accept(
        offers(ty, methods),
        callback,
        offers(ty, done),
        SearchEvent::Offer(ty, f),
        value,
    );
}

/// If the callback turned down the offers of `done` and then that of `f`,
/// it turned down the offers of `done` with `f` behind.
pub(crate) proof fn lemma_offer_rejected<T, F: Fn(&Ty, Function) -> Option<T>>(
    ty: TyView,
    callback: F,
    done: Seq<Function>,
    f: Function,
)
    requires
        all_rejected(callback, offers(ty, done)),
        rejects(callback, SearchEvent::Offer(ty, f)),
    ensures
        all_rejected(callback, offers(ty, done.push(f))),
{
    assert forall|j: int| 0 <= j < offers(ty, done.push(f)).len() implies rejects(
        callback,
        #[trigger] offers(ty, done.push(f))[j],
    ) by {
        if j < done.len() {
            assert(offers(ty, done.push(f))[j] == offers(ty, done)[j]);
        }
    }
}

/// The events before one that accepts make a run that stops there.
pub(crate) proof fn lemma_stops_on_accept<T, F: Fn(&Ty, Function) -> Option<T>>(
    events: Seq<SearchEvent>,
    callback: F,
    done: Seq<SearchEvent>,
    event: SearchEvent,
    value: T,
)
    requires
        done.push(event).is_prefix_of(events),
        all_rejected(callback, done),
        accepts(callback, event, value),
    ensures
        stops_at(events, callback, Some(value), done.len() as int),
        events.take(done.len() as int) == done,
{
    assert(events[done.len() as int] == done.push(event)[done.len() as int]);
}

/// A run inside a longer one. Let `events` begin with `done` and then
/// `part`, let every candidate of `done` be turned down, and let a search
/// of `part` stop before its event `k`. If it stopped with a result, the
/// whole search stops there. If not, every candidate of `done` and `part`
/// is turned down.
pub(crate) proof fn lemma_run_within<T, F: Fn(&Ty, Function) -> Option<T>>(
    events: Seq<SearchEvent>,
    callback: F,
    done: Seq<SearchEvent>,
    part: Seq<SearchEvent>,
    result: Option<T>,
    k: int,
)
    requires
        (done + part).is_prefix_of(events),
        all_rejected(callback, done),
        stops_at(part, callback, result, k),
    ensures
        result is Some ==> stops_at(events, callback, result, done.len() + k),
        result is None ==> all_rejected(callback, done + part),
        events.take(done.len() + k) == done + part.take(k),
        probes_of(events.take(done.len() + k)) == probes_of(done) + probes_of(part.take(k)),
{
    let whole = done + part;
    assert(events.take(done.len() + k) =~= done + part.take(k));
    lemma_probes_of_add(done, part.take(k));
    assert forall|j: int| 0 <= j < (done + part.take(k)).len() implies rejects(
        callback,
        #[trigger] (done + part.take(k))[j],
    ) by {}
    if result is Some {
        assert(whole[done.len() + k] == part[k]);
    }
}

/// What is computed from the first `i` of a sequence begins what is
/// computed from all of it.
pub(crate) proof fn lemma_filter_map_prefix<A, B>(s: Seq<A>, f: spec_fn(A) -> Option<B>, i: int)
    requires
        0 <= i <= s.len(),
    ensures
        s.take(i).filter_map(f).is_prefix_of(s.filter_map(f)),
    decreases s.len() - i,
{
    if i == s.len() {
        assert(s.take(i) =~= s);
    } else {
        lemma_filter_map_prefix(s, f, i + 1);
        s.lemma_filter_map_take_succ(f, i);
    }
}

/// What is gathered from the first `i` of a sequence begins what is
/// gathered from all of it.
pub(crate) proof fn lemma_flat_map_prefix<A, B>(s: Seq<A>, f: spec_fn(A) -> Seq<B>, i: int)
    requires
        0 <= i <= s.len(),
    ensures
        s.take(i).flat_map(f).is_prefix_of(s.flat_map(f)),
    decreases s.len() - i,
{
    if i == s.len() {
        assert(s.take(i) =~= s);
    } else {
        lemma_flat_map_prefix(s, f, i + 1);
        s.lemma_flat_map_take_append(f, i);
    }
}

/// A single query is its own record.
pub(crate) proof fn lemma_probes_of_probe(query: CanonicalView)
    ensures
        probes_of(seq![SearchEvent::Probe(query)]) == seq![query],
{
    let events = seq![SearchEvent::Probe(query)];
    assert(probes_of(events.drop_last()) =~= Seq::empty());
}

/// What is gathered from the first `i + 1` of a sequence is what is
/// gathered from the first `i` and then from the next, and begins what is
/// gathered from all of it.
pub(crate) proof fn lemma_flat_map_step<A, B>(s: Seq<A>, f: spec_fn(A) -> Seq<B>, i: int)
    requires
        0 <= i < s.len(),
    ensures
        s.take(i + 1).flat_map(f) == s.take(i).flat_map(f) + f(s[i]),
        (s.take(i).flat_map(f) + f(s[i])).is_prefix_of(s.flat_map(f)),
{
    s.lemma_flat_map_take_append(f, i);
    lemma_flat_map_prefix(s, f, i + 1);
}

/// A search that found every candidate turned down ran to the end.
pub(crate) proof fn lemma_ran_to_end<T, F: Fn(&Ty, Function) -> Option<T>>(
    events: Seq<SearchEvent>,
    callback: F,
    before: Seq<CanonicalView>,
    after: Seq<CanonicalView>,
)
    requires
        all_rejected(callback, events),
        after == before + probes_of(events),
    ensures
        ran(events, callback, None::<T>, before, after),
{
    assert(events.take(events.len() as int) =~= events);
    assert(stops_at(events, callback, None::<T>, events.len() as int));
}

/// A search inside a longer one, with the record of queries. Let `events`
/// begin with `done` and then `part`, let every candidate of `done` be
/// turned down and the record stand at `middle` after the queries of
/// `done`, and let a search of `part` take the record on to `after`. If it
/// gave a result, so does the whole search. If not, every candidate of
/// `done` and `part` is turned down and the record holds their queries.
pub(crate) proof fn lemma_ran_within<T, F: Fn(&Ty, Function) -> Option<T>>(
    events: Seq<SearchEvent>,
    callback: F,
    done: Seq<SearchEvent>,
    part: Seq<SearchEvent>,
    result: Option<T>,
    before: Seq<CanonicalView>,
    middle: Seq<CanonicalView>,
    after: Seq<CanonicalView>,
)
    requires
        (done + part).is_prefix_of(events),
        all_rejected(callback, done),
        middle == before + probes_of(done),
        ran(part, callback, result, middle, after),
    ensures
        result is Some ==> ran(events, callback, result, before, after),
        result is None ==> all_rejected(callback, done + part) && after == before + probes_of(
            done + part,
        ),
{
    let k = choose|k: int| #[trigger]
        stops_at(part, callback, result, k) && after == middle + probes_of(part.take(k));
    lemma_run_within(events, callback, done, part, result, k);
    assert(after =~= before + (probes_of(done) + probes_of(part.take(k))));
}

/// A run of offers that stopped is a search that asked nothing.
pub(crate) proof fn lemma_offers_ran<T, F: Fn(&Ty, Function) -> Option<T>>(
    ty: TyView,
    methods: Seq<Function>,
    callback: F,
    result: Option<T>,
    k: int,
    record: Seq<CanonicalView>,
)
    requires
        stops_at(offers(ty, methods), callback, result, k),
    ensures
        ran(offers(ty, methods), callback, result, record, record),
{
    assert(offers(ty, methods).take(k) =~= offers(ty, methods.take(k)));
    lemma_probes_of_offers(ty, methods.take(k));
}

/// The callback can turn down `item`.
pub open spec fn item_rejected<T, F: Fn(ImplItem) -> Option<T>>(callback: F, item: ImplItem) -> bool {
    call_ensures(callback, (item,), None::<T>)
}

/// An iteration over `items` came to an end before item `k`: the callback
/// turned down every item before it, and either item `k` is one that it
/// answered with the result, or there is no item `k` and no result.
pub open spec fn items_stop_at<T, F: Fn(ImplItem) -> Option<T>>(
    items: Seq<ImplItem>,
    callback: F,
    result: Option<T>,
    k: int,
) -> bool {
    &&& 0 <= k <= items.len()
    &&& forall|j: int| 0 <= j < k ==> item_rejected(callback, #[trigger] items[j])
    &&& match result {
        Some(value) => k < items.len() && call_ensures(callback, (items[k],), Some(value)),
        None => k == items.len(),
    }
}

/// Event `k` is the first offer among `events`.
pub open spec fn first_offer_at(events: Seq<SearchEvent>, k: int) -> bool {
    &&& 0 <= k < events.len()
    &&& events[k] is Offer
    &&& forall|j: int| 0 <= j < k ==> #[trigger] events[j] is Probe
}

/// There is no offer among `events`.
pub open spec fn no_offer(events: Seq<SearchEvent>) -> bool {
    forall|j: int| 0 <= j < events.len() ==> #[trigger] events[j] is Probe
}

/// The candidate that an event offers, if it is an offer.
pub open spec fn offer_of(event: SearchEvent) -> Option<(TyView, Function)> {
    match event {
        SearchEvent::Offer(ty, f) => Some((ty, f)),
        SearchEvent::Probe(_) => None,
    }
}

/// The candidates that `events` offer, in order.
pub open spec fn offered(events: Seq<SearchEvent>) -> Seq<(TyView, Function)> {
    events.filter_map(|event: SearchEvent| offer_of(event))
}

/// Each of `methods` as a candidate for `ty`, in order.
pub open spec fn candidates_for(ty: TyView, methods: Seq<Function>) -> Seq<(TyView, Function)> {
    Seq::new(methods.len(), |i: int| (ty, methods[i]))
}

/// `candidates` are the candidates `offered`, in order: each holds the
/// type and the method of the offer at its place.
pub open spec fn stand_for(
    candidates: Seq<(Ty, Function)>,
    offered: Seq<(TyView, Function)>,
) -> bool {
    &&& candidates.len() == offered.len()
    &&& forall|i: int|
        0 <= i < candidates.len() ==> (#[trigger] candidates[i]).0@ == offered[i].0
            && candidates[i].1 == offered[i].1
}

/// The candidates of two runs of events, one after the other.
pub(crate) proof fn lemma_offered_add(a: Seq<SearchEvent>, b: Seq<SearchEvent>)
    ensures
        offered(a + b) == offered(a) + offered(b),
    decreases b.len(),
{
    if b.len() > 0 {
        lemma_offered_add(a, b.drop_last());
        assert((a + b).drop_last() =~= a + b.drop_last());
    }
}

/// The candidates of a run of offers are the methods offered.
pub(crate) proof fn lemma_offered_offers(ty: TyView, methods: Seq<Function>)
    ensures
        offered(offers(ty, methods)) == candidates_for(ty, methods),
    decreases methods.len(),
{
    if methods.len() > 0 {
        lemma_offered_offers(ty, methods.drop_last());
        assert(offers(ty, methods).drop_last() =~= offers(ty, methods.drop_last()));
    }
}

/// A query offers no candidate.
pub(crate) proof fn lemma_offered_probe(query: CanonicalView)
    ensures
        offered(seq![SearchEvent::Probe(query)]) == Seq::<(TyView, Function)>::empty(),
{
    let events = seq![SearchEvent::Probe(query)];
    assert(offered(events.drop_last()) =~= Seq::empty());
}

} // verus!
