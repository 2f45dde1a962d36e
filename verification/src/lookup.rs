//! Resolving a query against the decrypted vault.

use vstd::prelude::*;

use crate::cipher;
use crate::cipher::{Cipher, CipherView};
use crate::engine;
use crate::engine::{
    EngineError, EngineErrorView, LookupCandidate, LookupCandidateView, LookupHit, LookupHitView,
    LookupOutcome, LookupOutcomeView, Query, QueryView,
};

verus! {

/// The view of a lookup result.
pub open spec fn result_view(r: Result<LookupOutcome, EngineError>) -> Result<
    LookupOutcomeView,
    EngineErrorView,
> {
    match r {
        Ok(outcome) => Ok(outcome@),
        Err(e) => Err(e@),
    }
}

/// An item the credential surface offers at all: of a type it exposes, neither
/// in the trash nor archived.
pub open spec fn offered(c: CipherView) -> bool {
    !c.deleted && !c.archived && c.item_kind() is Some
}

/// An offered item that answers the query.
pub open spec fn matched(c: CipherView, query: QueryView) -> bool {
    offered(c) && c.answers(query)
}

/// The matching items that may be served, in vault order: those that do not
/// ask for the master password again.
pub open spec fn servable(ciphers: Seq<CipherView>, query: QueryView) -> Seq<CipherView>
    decreases ciphers.len(),
{
    if ciphers.len() == 0 {
        Seq::empty()
    } else {
        let init = servable(ciphers.drop_last(), query);
        if matched(ciphers.last(), query) && !ciphers.last().reprompt {
            init.push(ciphers.last())
        } else {
            init
        }
    }
}

/// Some matching item asks for the master password again.
pub open spec fn some_protected(ciphers: Seq<CipherView>, query: QueryView) -> bool {
    exists|i: int|
        0 <= i < ciphers.len() && matched(#[trigger] ciphers[i], query) && ciphers[i].reprompt
}

/// The candidates of several servable items.
pub open spec fn candidates(items: Seq<CipherView>, query: QueryView) -> Seq<LookupCandidateView> {
    Seq::new(items.len(), |i: int| items[i].candidate(query))
}

/// What a query resolves to: the one servable match, the candidates of
/// several, nothing, or a refusal where every match is protected.
pub open spec fn resolved(ciphers: Seq<CipherView>, query: QueryView) -> Result<
    LookupOutcomeView,
    EngineErrorView,
> {
    let items = servable(ciphers, query);
    if items.len() == 1 {
        Ok(LookupOutcomeView::Hit(LookupHitView { item: items[0].vault_item(query), matches: 1 }))
    } else if items.len() > 1 {
        Ok(LookupOutcomeView::Ambiguous(candidates(items, query)))
    } else if some_protected(ciphers, query) {
        Err(
            EngineErrorView::Failure(
                "The matching item requires Bitwarden's master password re-prompt, which this credential surface does not support."@,
            ),
        )
    } else {
        Ok(LookupOutcomeView::Miss)
    }
}

/// Whether an item is offered and answers the query.
fn is_match(c: &Cipher, query: &Query) -> (r: bool)
    ensures
        r == matched(c@, query@),
{
    !c.deleted && !c.archived && cipher::item_kind(c).is_some() && cipher::cipher_matches(c, query)
}

/// Resolves a query. The credential surface serves the standard vault item set
/// (logins, secure notes, cards, identities, SSH keys) but never a trashed or
/// archived item. A protected item is refused loudly, neither served in bypass
/// nor silently hidden. Where several servable items match, none is picked:
/// the candidates' non-secret identities come back instead.
pub fn resolve(ciphers: &Vec<Cipher>, query: &Query) -> (r: Result<LookupOutcome, EngineError>)
    ensures
        result_view(r) == resolved(cipher::ciphers_view(ciphers@), query@),
{
    let ghost all = cipher::ciphers_view(ciphers@);
    let mut hits: Vec<usize> = Vec::new();
    let mut protected: bool = false;
    let mut i: usize = 0;
    assert(all.take(0) =~= Seq::empty());
    while i < ciphers.len()
        invariant
            i <= ciphers.len(),
            all == cipher::ciphers_view(ciphers@),
            hits@.len() == servable(all.take(i as int), query@).len(),
            forall|k: int|
                0 <= k < hits@.len() ==> (#[trigger] hits@[k]) < ciphers.len() && servable(
                    all.take(i as int),
                    query@,
                )[k] == ciphers@[hits@[k] as int]@,
            protected == some_protected(all.take(i as int), query@),
        decreases ciphers.len() - i,
    {
        let ghost before = all.take(i as int);
        let ghost after = all.take(i + 1);
        assert(after.drop_last() =~= before);
        assert(after.last() == ciphers@[i as int]@);
        proof {
            assert forall|k: int| 0 <= k < before.len() implies after[k] == before[k] by {}
            if some_protected(before, query@) {
                let k = choose|k: int|
                    0 <= k < before.len() && matched(#[trigger] before[k], query@)
                        && before[k].reprompt;
                assert(matched(after[k], query@));
            }
            if some_protected(after, query@) && !(matched(after.last(), query@)
                && after.last().reprompt) {
                let k = choose|k: int|
                    0 <= k < after.len() && matched(#[trigger] after[k], query@)
                        && after[k].reprompt;
                assert(matched(before[k], query@));
            }
        }
        if is_match(&ciphers[i], query) {
            if ciphers[i].reprompt {
                assert(matched(after[i as int], query@) && after[i as int].reprompt);
                protected = true;
            } else {
                hits.push(i);
            }
        }
        i = i + 1;
    }
    assert(all.take(all.len() as int) =~= all);
    if hits.len() == 0 {
        if protected {
            Err(
                EngineError::Failure(
                    "The matching item requires Bitwarden's master password re-prompt, which this credential surface does not support.".to_owned(),
                ),
            )
        } else {
            Ok(LookupOutcome::Miss)
        }
    } else if hits.len() == 1 {
        Ok(
            LookupOutcome::Hit(
                LookupHit { item: cipher::to_vault_item(&ciphers[hits[0]], query), matches: 1 },
            ),
        )
    } else {
        let mut list: Vec<LookupCandidate> = Vec::new();
        let ghost items = servable(all, query@);
        let mut k: usize = 0;
        while k < hits.len()
            invariant
                k <= hits.len(),
                hits@.len() == items.len(),
                forall|j: int|
                    0 <= j < hits@.len() ==> (#[trigger] hits@[j]) < ciphers.len() && items[j]
                        == ciphers@[hits@[j] as int]@,
                list@.len() == k,
                forall|j: int| 0 <= j < k ==> (#[trigger] list@[j])@ == items[j].candidate(query@),
            decreases hits.len() - k,
        {
            list.push(cipher::to_candidate(&ciphers[hits[k]], query));
            k = k + 1;
        }
        assert(engine::candidates_view(list@) =~= candidates(items, query@));
        Ok(LookupOutcome::Ambiguous(list))
    }
}

/// Every servable item is in the vault, matches, is neither trashed nor
/// archived, and does not ask for the master password again.
pub proof fn servable_items_qualify(ciphers: Seq<CipherView>, query: QueryView, k: int)
    requires
        0 <= k < servable(ciphers, query).len(),
    ensures
        ({
            let c = servable(ciphers, query)[k];
            &&& ciphers.contains(c)
            &&& c.answers(query)
            &&& !c.deleted
            &&& !c.archived
            &&& c.item_kind() is Some
            &&& !c.reprompt
        }),
    decreases ciphers.len(),
{
    let init = ciphers.drop_last();
    if k < servable(init, query).len() {
        servable_items_qualify(init, query, k);
        let c = servable(init, query)[k];
        let i = choose|i: int| 0 <= i < init.len() && init[i] == c;
        assert(ciphers[i] == c);
    } else {
        assert(ciphers[ciphers.len() - 1] == ciphers.last());
    }
}

/// A secret is released only through a hit, and a hit needs exactly one
/// servable match; several come back as candidates, one for each.
pub proof fn only_a_single_match_is_released(ciphers: Seq<CipherView>, query: QueryView)
    ensures
        (resolved(ciphers, query) matches Ok(LookupOutcomeView::Hit(_))) <==> servable(
            ciphers,
            query,
        ).len() == 1,
        resolved(ciphers, query) matches Ok(LookupOutcomeView::Hit(hit)) ==> hit.matches == 1
            && hit.item == servable(ciphers, query)[0].vault_item(query),
        (resolved(ciphers, query) matches Ok(LookupOutcomeView::Ambiguous(list))) <==> servable(
            ciphers,
            query,
        ).len() > 1,
        resolved(ciphers, query) matches Ok(LookupOutcomeView::Ambiguous(list)) ==> list.len()
            == servable(ciphers, query).len(),
{
}

/// A vault whose matches are all protected is refused, not reported empty.
pub proof fn protected_matches_are_refused(ciphers: Seq<CipherView>, query: QueryView)
    requires
        some_protected(ciphers, query),
        servable(ciphers, query).len() == 0,
    ensures
        resolved(ciphers, query) is Err,
{
}

/// The servable items are all those of the vault, in its order, that are of a
/// type the surface exposes, neither trashed nor archived, answer the query, and
/// do not ask for the master password again: none is missing and none is added.
pub proof fn every_qualifying_item_is_servable(ciphers: Seq<CipherView>, query: QueryView)
    ensures
        servable(ciphers, query) == ciphers.filter(
            |c: CipherView|
                !c.deleted && !c.archived && c.item_kind() is Some && c.answers(query)
                    && !c.reprompt,
        ),
    decreases ciphers.len(),
{
    reveal(Seq::filter);
    if ciphers.len() > 0 {
        every_qualifying_item_is_servable(ciphers.drop_last(), query);
    }
}

/// An item of the vault that qualifies is among the servable ones, so that a
/// lookup that it alone answers is a hit on it.
pub proof fn a_qualifying_item_is_found(ciphers: Seq<CipherView>, query: QueryView, k: int)
    requires
        0 <= k < ciphers.len(),
        !ciphers[k].deleted,
        !ciphers[k].archived,
        !ciphers[k].reprompt,
        ciphers[k].item_kind() is Some,
        ciphers[k].answers(query),
    ensures
        servable(ciphers, query).contains(ciphers[k]),
        !(resolved(ciphers, query) matches Ok(LookupOutcomeView::Miss)),
        resolved(ciphers, query) is Ok,
        resolved(ciphers, query) matches Ok(LookupOutcomeView::Hit(hit)) ==> hit.item
            == ciphers[k].vault_item(query),
    decreases ciphers.len(),
{
    let init = ciphers.drop_last();
    if k < init.len() {
        a_qualifying_item_is_found(init, query, k);
        let i = choose|i: int|
            0 <= i < servable(init, query).len() && servable(init, query)[i] == init[k];
        assert(servable(ciphers, query)[i] == ciphers[k]);
    } else {
        let last = servable(ciphers, query).len() - 1;
        assert(servable(ciphers, query)[last] == ciphers[k]);
    }
}

/// A lookup misses only where no item qualifies, protected or not, and is refused
/// only where a protected one does and no other.
pub proof fn misses_and_refusals_have_their_reason(ciphers: Seq<CipherView>, query: QueryView)
    ensures
        resolved(ciphers, query) matches Ok(LookupOutcomeView::Miss) ==> forall|k: int|
            0 <= k < ciphers.len() && !(#[trigger] ciphers[k]).deleted && !ciphers[k].archived
                && ciphers[k].item_kind() is Some ==> !ciphers[k].answers(query),
        resolved(ciphers, query) is Err ==> exists|k: int|
            0 <= k < ciphers.len() && (#[trigger] ciphers[k]).reprompt && !ciphers[k].deleted
                && !ciphers[k].archived && ciphers[k].item_kind() is Some && ciphers[k].answers(
                query,
            ),
{
    if resolved(ciphers, query) matches Ok(LookupOutcomeView::Miss) {
        assert forall|k: int|
            0 <= k < ciphers.len() && !(#[trigger] ciphers[k]).deleted && !ciphers[k].archived
                && ciphers[k].item_kind() is Some implies !ciphers[k].answers(query) by {
            if ciphers[k].answers(query) {
                if ciphers[k].reprompt {
                    assert(matched(ciphers[k], query));
                } else {
                    a_qualifying_item_is_found(ciphers, query, k);
                }
            }
        }
    }
}

/// The candidates of an ambiguous lookup are those of the servable items, one for
/// each and in their order.
pub proof fn candidates_stand_for_the_servable_items(
    ciphers: Seq<CipherView>,
    query: QueryView,
    k: int,
)
    requires
        servable(ciphers, query).len() > 1,
        0 <= k < servable(ciphers, query).len(),
    ensures
        resolved(ciphers, query) matches Ok(LookupOutcomeView::Ambiguous(list)) && list.len()
            == servable(ciphers, query).len() && list[k] == servable(ciphers, query)[k].candidate(
            query,
        ),
{
}

} // verus!
