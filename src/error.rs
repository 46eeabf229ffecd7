use vstd::prelude::*;

verus! {

/// Why a presentation is not a well-formed AnonCreds W3C presentation: the
/// first mandatory identifier found missing.
#[derive(Debug, Clone, Copy, PartialEq, Eq, Structural)]
pub enum ValidationError {
    /// `@context` lacks the W3C verifiable-credentials context.
    MissingW3CContext,
    /// `@context` lacks the AnonCreds context.
    MissingAnonCredsContext,
    /// `type` lacks the W3C presentation tag.
    MissingW3CPresentationType,
    /// `type` lacks the AnonCreds presentation tag.
    MissingAnonCredsPresentationType,
}

} // verus!
