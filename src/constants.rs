use vstd::prelude::*;

use crate::credential::{Contexts, Types};
use crate::uri::URI;

verus! {

/// The W3C verifiable-credentials base context.
pub const W3C_CONTEXT: &'static str = "https://www.w3.org/2018/credentials/v1";

/// The AnonCreds-specific JSON-LD context.
pub const W3C_ANONCREDS_CONTEXT: &'static str =
    "https://raw.githubusercontent.com/hyperledger/anoncreds-spec/main/data/anoncreds-w3c-context.json";

/// The W3C type tag of a verifiable presentation.
pub const W3C_PRESENTATION_TYPE: &'static str = "VerifiablePresentation";

/// The AnonCreds type tag of a presentation.
pub const W3C_ANONCREDS_PRESENTATION_TYPE: &'static str = "AnonCredsPresentation";

/// The canonical context list of an AnonCreds presentation, in order.
pub open spec fn spec_anoncreds_contexts() -> Seq<Seq<char>> {
    seq![W3C_CONTEXT@, W3C_ANONCREDS_CONTEXT@]
}

/// The canonical type list of an AnonCreds presentation, in order.
pub open spec fn spec_anoncreds_presentation_types() -> Seq<Seq<char>> {
    seq![W3C_PRESENTATION_TYPE@, W3C_ANONCREDS_PRESENTATION_TYPE@]
}

/// Builds the canonical context list: the W3C context, then the AnonCreds one.
pub fn anoncreds_contexts() -> (r: Contexts)
    ensures
        r@ == spec_anoncreds_contexts(),
{
    let mut r = Contexts::new();
    r.push(URI::new(W3C_CONTEXT));
    r.push(URI::new(W3C_ANONCREDS_CONTEXT));
    assert(r@ =~= spec_anoncreds_contexts());
    r
}

/// Builds the canonical presentation type list: the W3C tag, then the
/// AnonCreds one.
pub fn anoncreds_presentation_types() -> (r: Types)
    ensures
        r@ == spec_anoncreds_presentation_types(),
{
    let mut r = Types::new();
    r.push(W3C_PRESENTATION_TYPE);
    r.push(W3C_ANONCREDS_PRESENTATION_TYPE);
    assert(r@ =~= spec_anoncreds_presentation_types());
    r
}

/// The two canonical context identifiers are different strings.
pub proof fn lemma_contexts_distinct()
    ensures
        W3C_CONTEXT@ != W3C_ANONCREDS_CONTEXT@,
{
    reveal_strlit("https://www.w3.org/2018/credentials/v1");
    reveal_strlit(
        "https://raw.githubusercontent.com/hyperledger/anoncreds-spec/main/data/anoncreds-w3c-context.json",
    );
    assert(W3C_CONTEXT@.len() != W3C_ANONCREDS_CONTEXT@.len());
}

/// The two canonical presentation type tags are different strings.
pub proof fn lemma_presentation_types_distinct()
    ensures
        W3C_PRESENTATION_TYPE@ != W3C_ANONCREDS_PRESENTATION_TYPE@,
{
    reveal_strlit("VerifiablePresentation");
    reveal_strlit("AnonCredsPresentation");
    assert(W3C_PRESENTATION_TYPE@.len() != W3C_ANONCREDS_PRESENTATION_TYPE@.len());
}

} // verus!
