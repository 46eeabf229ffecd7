use vstd::prelude::*;

verus! {

/// The proof that binds the credentials of a presentation together. Its
/// content belongs to the proving side; this library stores and replaces it.
#[derive(Debug, Clone)]
pub struct PresentationProof {
    pub type_: String,
    pub cryptosuite: String,
    pub proof_purpose: String,
    pub verification_method: String,
    pub proof_value: String,
    pub challenge: String,
}

impl PresentationProof {
    /// Whether every field is empty: the placeholder proof.
    pub open spec fn is_placeholder(&self) -> bool {
        &&& self.type_@ == Seq::<char>::empty()
        &&& self.cryptosuite@ == Seq::<char>::empty()
        &&& self.proof_purpose@ == Seq::<char>::empty()
        &&& self.verification_method@ == Seq::<char>::empty()
        &&& self.proof_value@ == Seq::<char>::empty()
        &&& self.challenge@ == Seq::<char>::empty()
    }
}

impl Default for PresentationProof {
    /// The placeholder proof, with every field empty.
    fn default() -> (r: PresentationProof)
        ensures
            r.is_placeholder(),
    {
        PresentationProof {
            type_: String::new(),
            cryptosuite: String::new(),
            proof_purpose: String::new(),
            verification_method: String::new(),
            proof_value: String::new(),
            challenge: String::new(),
        }
    }
}

} // verus!
