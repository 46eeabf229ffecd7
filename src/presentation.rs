use vstd::prelude::*;

use crate::constants::{
    anoncreds_contexts, anoncreds_presentation_types, spec_anoncreds_contexts,
    spec_anoncreds_presentation_types, W3C_ANONCREDS_CONTEXT, W3C_ANONCREDS_PRESENTATION_TYPE,
    W3C_CONTEXT, W3C_PRESENTATION_TYPE,
};
use crate::credential::{Contexts, Types, W3CCredential};
use crate::error::ValidationError;
use crate::presentation_proof::PresentationProof;
use crate::uri::URI;

verus! {

/// An AnonCreds W3C presentation: the credentials it bundles, the proof that
/// binds them, and the contexts and type tags that identify its profile.
#[derive(Debug, Clone)]
pub struct W3CPresentation {
    pub context: Contexts,
    pub type_: Types,
    pub verifiable_credential: Vec<W3CCredential>,
    pub proof: PresentationProof,
}

/// The outcome of validation, as a function of the contexts and type tags:
/// the four checks in order, the first one that fails decides the error.
pub open spec fn spec_validate(context: Seq<Seq<char>>, type_: Seq<Seq<char>>) -> Result<
    (),
    ValidationError,
> {
    if !context.contains(W3C_CONTEXT@) {
        Err(ValidationError::MissingW3CContext)
    } else if !context.contains(W3C_ANONCREDS_CONTEXT@) {
        Err(ValidationError::MissingAnonCredsContext)
    } else if !type_.contains(W3C_PRESENTATION_TYPE@) {
        Err(ValidationError::MissingW3CPresentationType)
    } else if !type_.contains(W3C_ANONCREDS_PRESENTATION_TYPE@) {
        Err(ValidationError::MissingAnonCredsPresentationType)
    } else {
        Ok(())
    }
}

/// `after` is `before` with `credential` appended to its credentials and
/// everything else kept.
pub open spec fn credential_added(
    before: W3CPresentation,
    after: W3CPresentation,
    credential: W3CCredential,
) -> bool {
    &&& after.verifiable_credential@ == before.verifiable_credential@.push(credential)
    &&& after.context == before.context
    &&& after.type_ == before.type_
    &&& after.proof == before.proof
}

/// `after` is `before` with its proof replaced by `proof` and everything else
/// kept.
pub open spec fn proof_replaced(
    before: W3CPresentation,
    after: W3CPresentation,
    proof: PresentationProof,
) -> bool {
    &&& after.proof == proof
    &&& after.context == before.context
    &&& after.type_ == before.type_
    &&& after.verifiable_credential == before.verifiable_credential
}

impl W3CPresentation {
    /// What `validate` returns on this presentation.
    pub open spec fn validation(&self) -> Result<(), ValidationError> {
        spec_validate(self.context@, self.type_@)
    }

    /// A presentation with the canonical contexts and type tags, no
    /// credentials and the placeholder proof.
    pub fn new() -> (r: W3CPresentation)
        ensures
            r.context@ == spec_anoncreds_contexts(),
            r.type_@ == spec_anoncreds_presentation_types(),
            r.verifiable_credential@ == Seq::<W3CCredential>::empty(),
            r.proof.is_placeholder(),
            r.validation() == Ok::<(), ValidationError>(()),
    {
        let r = W3CPresentation {
            context: anoncreds_contexts(),
            type_: anoncreds_presentation_types(),
            verifiable_credential: Vec::new(),
            proof: PresentationProof::default(),
        };
        assert(r.context@[0] == W3C_CONTEXT@);
        assert(r.context@[1] == W3C_ANONCREDS_CONTEXT@);
        assert(r.type_@[0] == W3C_PRESENTATION_TYPE@);
        assert(r.type_@[1] == W3C_ANONCREDS_PRESENTATION_TYPE@);
        r
    }

    /// Appends a credential after those already held. Nothing is checked.
    pub fn add_verifiable_credential(&mut self, verifiable_credential: W3CCredential)
        ensures
            credential_added(*old(self), *final(self), verifiable_credential),
    {
        self.verifiable_credential.push(verifiable_credential);
    }

    /// Replaces the proof; the previous one is dropped.
    pub fn set_proof(&mut self, proof: PresentationProof)
        ensures
            proof_replaced(*old(self), *final(self), proof),
    {
        self.proof = proof;
    }

    /// Checks that the presentation carries the W3C context, the AnonCreds
    /// context, the W3C presentation tag and the AnonCreds presentation tag,
    /// in this order, and reports the first one missing.
    pub fn validate(&self) -> (r: Result<(), ValidationError>)
        ensures
            r == self.validation(),
    {
        if !self.context.contains(&URI::new(W3C_CONTEXT)) {
            return Err(ValidationError::MissingW3CContext);
        }
        if !self.context.contains(&URI::new(W3C_ANONCREDS_CONTEXT)) {
            return Err(ValidationError::MissingAnonCredsContext);
        }
        if !self.type_.contains(W3C_PRESENTATION_TYPE) {
            return Err(ValidationError::MissingW3CPresentationType);
        }
        if !self.type_.contains(W3C_ANONCREDS_PRESENTATION_TYPE) {
            return Err(ValidationError::MissingAnonCredsPresentationType);
        }
        Ok(())
    }
}

} // verus!
