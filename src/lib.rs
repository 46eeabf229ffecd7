//! Data model and structural validation of an AnonCreds W3C verifiable
//! presentation: the JSON-LD contexts and type tags that a presentation must
//! carry, the credentials it bundles and the proof that binds them.

pub mod constants;
pub mod credential;
pub mod error;
pub mod lemmas;
pub mod presentation;
pub mod presentation_proof;
pub mod uri;
