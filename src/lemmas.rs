use vstd::prelude::*;

use crate::constants::{
    lemma_contexts_distinct, lemma_presentation_types_distinct, W3C_ANONCREDS_CONTEXT,
    W3C_ANONCREDS_PRESENTATION_TYPE, W3C_CONTEXT, W3C_PRESENTATION_TYPE,
};
use crate::credential::W3CCredential;
use crate::error::ValidationError;
use crate::presentation::{credential_added, proof_replaced, W3CPresentation};
use crate::presentation_proof::PresentationProof;

verus! {

broadcast use vstd::seq_lib::group_seq_properties;

/// Holds of every identifier but `x`.
pub open spec fn other_than(x: Seq<char>) -> spec_fn(Seq<char>) -> bool {
    |u: Seq<char>| u != x
}

/// `s` with every occurrence of `x` taken out, the rest in order.
pub open spec fn without(s: Seq<Seq<char>>, x: Seq<char>) -> Seq<Seq<char>> {
    s.filter(other_than(x))
}

/// Taking `x` out of `s` leaves no `x`, and leaves every other identifier
/// present exactly when it was present before.
pub proof fn lemma_without_contains(s: Seq<Seq<char>>, x: Seq<char>, y: Seq<char>)
    ensures
        !without(s, x).contains(x),
        y != x ==> (without(s, x).contains(y) == s.contains(y)),
{
    let pred = other_than(x);
    if without(s, x).contains(x) {
        let k = choose|k: int| 0 <= k < without(s, x).len() && without(s, x)[k] == x;
        s.lemma_filter_pred(pred, k);
    }
    if y != x {
        if s.contains(y) {
            let k = choose|k: int| 0 <= k < s.len() && s[k] == y;
            s.lemma_filter_contains(pred, k);
        }
        if without(s, x).contains(y) {
            s.lemma_filter_contains_rev(pred, y);
        }
    }
}

/// A presentation whose W3C context is taken out fails validation with
/// `MissingW3CContext`, whatever else it lacks.
pub proof fn lemma_missing_w3c_context_reported_first(p: W3CPresentation, q: W3CPresentation)
    requires
        q.context@ == without(p.context@, W3C_CONTEXT@),
        q.type_ == p.type_,
        q.verifiable_credential == p.verifiable_credential,
        q.proof == p.proof,
    ensures
        q.validation() == Err::<(), ValidationError>(ValidationError::MissingW3CContext),
{
    lemma_without_contains(p.context@, W3C_CONTEXT@, W3C_CONTEXT@);
}

/// A presentation that has the W3C context and whose AnonCreds context is
/// taken out fails validation with `MissingAnonCredsContext`.
pub proof fn lemma_missing_anoncreds_context(p: W3CPresentation, q: W3CPresentation)
    requires
        p.context@.contains(W3C_CONTEXT@),
        q.context@ == without(p.context@, W3C_ANONCREDS_CONTEXT@),
        q.type_ == p.type_,
        q.verifiable_credential == p.verifiable_credential,
        q.proof == p.proof,
    ensures
        q.validation() == Err::<(), ValidationError>(ValidationError::MissingAnonCredsContext),
{
    lemma_contexts_distinct();
    lemma_without_contains(p.context@, W3C_ANONCREDS_CONTEXT@, W3C_CONTEXT@);
}

/// A presentation that has both contexts and whose W3C presentation tag is
/// taken out fails validation with `MissingW3CPresentationType`.
pub proof fn lemma_missing_w3c_presentation_type(p: W3CPresentation, q: W3CPresentation)
    requires
        p.context@.contains(W3C_CONTEXT@),
        p.context@.contains(W3C_ANONCREDS_CONTEXT@),
        q.type_@ == without(p.type_@, W3C_PRESENTATION_TYPE@),
        q.context == p.context,
        q.verifiable_credential == p.verifiable_credential,
        q.proof == p.proof,
    ensures
        q.validation() == Err::<(), ValidationError>(ValidationError::MissingW3CPresentationType),
{
    lemma_without_contains(p.type_@, W3C_PRESENTATION_TYPE@, W3C_PRESENTATION_TYPE@);
}

/// A presentation that has both contexts and the W3C presentation tag, and
/// whose AnonCreds presentation tag is taken out, fails validation with
/// `MissingAnonCredsPresentationType`.
pub proof fn lemma_missing_anoncreds_presentation_type(p: W3CPresentation, q: W3CPresentation)
    requires
        p.context@.contains(W3C_CONTEXT@),
        p.context@.contains(W3C_ANONCREDS_CONTEXT@),
        p.type_@.contains(W3C_PRESENTATION_TYPE@),
        q.type_@ == without(p.type_@, W3C_ANONCREDS_PRESENTATION_TYPE@),
        q.context == p.context,
        q.verifiable_credential == p.verifiable_credential,
        q.proof == p.proof,
    ensures
        q.validation() == Err::<(), ValidationError>(
            ValidationError::MissingAnonCredsPresentationType,
        ),
{
    lemma_presentation_types_distinct();
    lemma_without_contains(
        p.type_@,
        W3C_ANONCREDS_PRESENTATION_TYPE@,
        W3C_PRESENTATION_TYPE@,
    );
}

/// Appending `c1` and then `c2` leaves the credentials of `p0` followed by
/// `c1` and `c2`, keeps the contexts, tags and proof, and leaves the outcome
/// of validation as it was.
pub proof fn lemma_credentials_keep_order(
    p0: W3CPresentation,
    p1: W3CPresentation,
    p2: W3CPresentation,
    c1: W3CCredential,
    c2: W3CCredential,
)
    requires
        credential_added(p0, p1, c1),
        credential_added(p1, p2, c2),
    ensures
        p2.verifiable_credential@ == p0.verifiable_credential@ + seq![c1, c2],
        p2.context == p0.context,
        p2.type_ == p0.type_,
        p2.proof == p0.proof,
        p1.validation() == p0.validation(),
        p2.validation() == p0.validation(),
{
    assert(p2.verifiable_credential@ =~= p0.verifiable_credential@ + seq![c1, c2]);
}

/// Setting `a` and then `b` as the proof leaves `b` alone, keeps everything
/// else, and never changes the outcome of validation.
pub proof fn lemma_last_proof_wins(
    p0: W3CPresentation,
    p1: W3CPresentation,
    p2: W3CPresentation,
    a: PresentationProof,
    b: PresentationProof,
)
    requires
        proof_replaced(p0, p1, a),
        proof_replaced(p1, p2, b),
    ensures
        p2.proof == b,
        p2.context == p0.context,
        p2.type_ == p0.type_,
        p2.verifiable_credential == p0.verifiable_credential,
        p1.validation() == p0.validation(),
        p2.validation() == p0.validation(),
{
}

} // verus!
