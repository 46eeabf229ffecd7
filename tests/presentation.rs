use anoncreds::constants::{
    anoncreds_contexts, anoncreds_presentation_types, W3C_ANONCREDS_CONTEXT,
    W3C_ANONCREDS_PRESENTATION_TYPE, W3C_CONTEXT, W3C_PRESENTATION_TYPE,
};
use anoncreds::credential::{Contexts, Types, W3CCredential};
use anoncreds::error::ValidationError;
use anoncreds::presentation::W3CPresentation;
use anoncreds::presentation_proof::PresentationProof;
use anoncreds::uri::URI;

fn credential(issuer: &str) -> W3CCredential {
    W3CCredential {
        context: anoncreds_contexts(),
        type_: Types(vec![
            "VerifiableCredential".to_string(),
            "AnonCredsCredential".to_string(),
        ]),
        issuer: URI::new(issuer),
        credential_subject: vec![("name".to_string(), "Alice".to_string())],
    }
}

fn sample_proof(value: &str) -> PresentationProof {
    PresentationProof {
        type_: "DataIntegrityProof".to_string(),
        cryptosuite: "anoncreds-2023".to_string(),
        proof_purpose: "authentication".to_string(),
        verification_method: "did:example:123#key".to_string(),
        proof_value: value.to_string(),
        challenge: "1234".to_string(),
    }
}

fn context_strings(p: &W3CPresentation) -> Vec<String> {
    p.context.0.iter().map(|u| u.0.clone()).collect()
}

fn contexts_without(p: &W3CPresentation, uri: &str) -> Contexts {
    Contexts(p.context.0.iter().filter(|u| u.0 != uri).cloned().collect())
}

fn types_without(p: &W3CPresentation, tag: &str) -> Types {
    Types(p.type_.0.iter().filter(|t| t.as_str() != tag).cloned().collect())
}

#[test]
fn new_presentation_validates() {
    let p = W3CPresentation::new();
    assert_eq!(p.validate(), Ok(()));
}

#[test]
fn new_presentation_has_canonical_shape() {
    let p = W3CPresentation::new();
    assert_eq!(
        context_strings(&p),
        vec![
            "https://www.w3.org/2018/credentials/v1".to_string(),
            "https://raw.githubusercontent.com/hyperledger/anoncreds-spec/main/data/anoncreds-w3c-context.json".to_string(),
        ]
    );
    assert_eq!(
        p.type_.0,
        vec![
            "VerifiablePresentation".to_string(),
            "AnonCredsPresentation".to_string()
        ]
    );
    assert!(p.verifiable_credential.is_empty());
    assert_eq!(p.proof.type_, "");
    assert_eq!(p.proof.cryptosuite, "");
    assert_eq!(p.proof.proof_purpose, "");
    assert_eq!(p.proof.verification_method, "");
    assert_eq!(p.proof.proof_value, "");
    assert_eq!(p.proof.challenge, "");
    assert_eq!(p.validate(), Ok(()));
}

#[test]
fn missing_w3c_context() {
    let mut p = W3CPresentation::new();
    p.context = contexts_without(&p, W3C_CONTEXT);
    assert_eq!(p.validate(), Err(ValidationError::MissingW3CContext));
}

#[test]
fn missing_w3c_context_is_reported_first() {
    let mut p = W3CPresentation::new();
    p.context = Contexts::new();
    p.type_ = Types::new();
    assert_eq!(p.validate(), Err(ValidationError::MissingW3CContext));
}

#[test]
fn missing_anoncreds_context() {
    let mut p = W3CPresentation::new();
    p.context = contexts_without(&p, W3C_ANONCREDS_CONTEXT);
    assert_eq!(p.validate(), Err(ValidationError::MissingAnonCredsContext));
}

#[test]
fn missing_anoncreds_context_before_types() {
    let mut p = W3CPresentation::new();
    p.context = contexts_without(&p, W3C_ANONCREDS_CONTEXT);
    p.type_ = Types::new();
    assert_eq!(p.validate(), Err(ValidationError::MissingAnonCredsContext));
}

#[test]
fn missing_w3c_presentation_type() {
    let mut p = W3CPresentation::new();
    p.type_ = types_without(&p, W3C_PRESENTATION_TYPE);
    assert_eq!(
        p.validate(),
        Err(ValidationError::MissingW3CPresentationType)
    );
}

#[test]
fn missing_anoncreds_presentation_type() {
    let mut p = W3CPresentation::new();
    p.type_ = types_without(&p, W3C_ANONCREDS_PRESENTATION_TYPE);
    assert_eq!(
        p.validate(),
        Err(ValidationError::MissingAnonCredsPresentationType)
    );
}

#[test]
fn extra_identifiers_and_other_order_are_accepted() {
    let mut p = W3CPresentation::new();
    let mut context = Contexts::new();
    context.push(URI::new("https://example.com/extra"));
    context.push(URI::new(W3C_ANONCREDS_CONTEXT));
    context.push(URI::new(W3C_CONTEXT));
    p.context = context;
    let mut type_ = Types::new();
    type_.push(W3C_ANONCREDS_PRESENTATION_TYPE);
    type_.push("Extra");
    type_.push(W3C_PRESENTATION_TYPE);
    type_.push(W3C_PRESENTATION_TYPE);
    p.type_ = type_;
    assert_eq!(p.validate(), Ok(()));
}

#[test]
fn identifiers_compare_exactly() {
    let mut p = W3CPresentation::new();
    let mut type_ = Types::new();
    type_.push("verifiablepresentation");
    type_.push(W3C_ANONCREDS_PRESENTATION_TYPE);
    p.type_ = type_;
    assert_eq!(
        p.validate(),
        Err(ValidationError::MissingW3CPresentationType)
    );
}

#[test]
fn credentials_keep_insertion_order() {
    let mut p = W3CPresentation::new();
    p.add_verifiable_credential(credential("did:example:one"));
    assert_eq!(p.validate(), Ok(()));
    p.add_verifiable_credential(credential("did:example:two"));
    assert_eq!(p.verifiable_credential.len(), 2);
    assert_eq!(p.verifiable_credential[0].issuer.0, "did:example:one");
    assert_eq!(p.verifiable_credential[1].issuer.0, "did:example:two");
    assert_eq!(p.context.0.len(), 2);
    assert_eq!(p.type_.0.len(), 2);
    assert_eq!(p.proof.proof_value, "");
    assert_eq!(p.validate(), Ok(()));
}

#[test]
fn adding_credentials_keeps_a_failure() {
    let mut p = W3CPresentation::new();
    p.type_ = types_without(&p, W3C_ANONCREDS_PRESENTATION_TYPE);
    p.add_verifiable_credential(credential("did:example:one"));
    assert_eq!(
        p.validate(),
        Err(ValidationError::MissingAnonCredsPresentationType)
    );
}

#[test]
fn last_proof_wins() {
    let mut p = W3CPresentation::new();
    p.set_proof(sample_proof("first"));
    assert_eq!(p.validate(), Ok(()));
    p.set_proof(sample_proof("second"));
    assert_eq!(p.proof.proof_value, "second");
    assert_eq!(p.proof.cryptosuite, "anoncreds-2023");
    assert!(p.verifiable_credential.is_empty());
    assert_eq!(p.validate(), Ok(()));
}

#[test]
fn proof_does_not_repair_validation() {
    let mut p = W3CPresentation::new();
    p.context = contexts_without(&p, W3C_CONTEXT);
    p.set_proof(sample_proof("value"));
    assert_eq!(p.validate(), Err(ValidationError::MissingW3CContext));
}

#[test]
fn validation_is_repeatable() {
    let mut p = W3CPresentation::new();
    p.context = contexts_without(&p, W3C_ANONCREDS_CONTEXT);
    let first = p.validate();
    assert_eq!(first, p.validate());
    assert_eq!(first, Err(ValidationError::MissingAnonCredsContext));
}

#[test]
fn contexts_contains_is_exact() {
    let c = anoncreds_contexts();
    assert!(c.contains(&URI::new(W3C_CONTEXT)));
    assert!(c.contains(&URI::new(W3C_ANONCREDS_CONTEXT)));
    assert!(!c.contains(&URI::new("https://www.w3.org/2018/credentials/v1/")));
    assert!(!Contexts::new().contains(&URI::new(W3C_CONTEXT)));
}

#[test]
fn types_contains_is_exact() {
    let t = anoncreds_presentation_types();
    assert!(t.contains("VerifiablePresentation"));
    assert!(t.contains("AnonCredsPresentation"));
    assert!(!t.contains("VerifiableCredential"));
    assert!(!Types::new().contains("VerifiablePresentation"));
}

#[test]
fn uri_compares_by_string() {
    let a = URI::new("did:example:1");
    let b = URI("did:example:1".to_string());
    assert_eq!(a.0, "did:example:1");
    assert!(a == b);
    assert!(a != URI::new("did:example:2"));
}

#[test]
fn default_proof_is_empty() {
    let p = PresentationProof::default();
    assert!(p.type_.is_empty());
    assert!(p.challenge.is_empty());
    assert!(p.proof_value.is_empty());
}
