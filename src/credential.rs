use vstd::prelude::*;

use crate::uri::URI;

verus! {

/// The `@context` array of a document: an ordered list of identifiers.
#[derive(Debug, Clone)]
pub struct Contexts(pub Vec<URI>);

/// The `type` array of a document: an ordered list of type tags. Duplicates
/// are allowed.
#[derive(Debug, Clone)]
pub struct Types(pub Vec<String>);

impl View for Contexts {
    type V = Seq<Seq<char>>;

    open spec fn view(&self) -> Seq<Seq<char>> {
        self.0@.map_values(|u: URI| u@)
    }
}

impl View for Types {
    type V = Seq<Seq<char>>;

    open spec fn view(&self) -> Seq<Seq<char>> {
        self.0@.map_values(|t: String| t@)
    }
}

impl Contexts {
    /// An empty list of contexts.
    pub fn new() -> (r: Contexts)
        ensures
            r@ == Seq::<Seq<char>>::empty(),
    {
        let r = Contexts(Vec::new());
        assert(r@ =~= Seq::<Seq<char>>::empty());
        r
    }

    /// Appends `uri` at the end.
    pub fn push(&mut self, uri: URI)
        ensures
            final(self)@ == old(self)@.push(uri@),
    {
        self.0.push(uri);
        assert(final(self)@ =~= old(self)@.push(uri@));
    }

    /// Whether `uri` is one of the contexts, by exact string comparison.
    pub fn contains(&self, uri: &URI) -> (r: bool)
        ensures
            r == self@.contains(uri@),
    {
        let mut i: usize = 0;
        while i < self.0.len()
            invariant
                i <= self.0@.len(),
                forall|j: int| 0 <= j < i ==> self@[j] != uri@,
            decreases self.0@.len() - i,
        {
            if self.0[i].0 == uri.0 {
                assert(self@[i as int] == uri@);
                return true;
            }
            i = i + 1;
        }
        proof {
            if self@.contains(uri@) {
                let k = choose|k: int| 0 <= k < self@.len() && self@[k] == uri@;
                assert(self@[k] != uri@);
            }
        }
        false
    }
}

impl Types {
    /// An empty list of type tags.
    pub fn new() -> (r: Types)
        ensures
            r@ == Seq::<Seq<char>>::empty(),
    {
        let r = Types(Vec::new());
        assert(r@ =~= Seq::<Seq<char>>::empty());
        r
    }

    /// Appends a copy of `tag` at the end.
    pub fn push(&mut self, tag: &str)
        ensures
            final(self)@ == old(self)@.push(tag@),
    {
        self.0.push(tag.to_owned());
        assert(final(self)@ =~= old(self)@.push(tag@));
    }

    /// Whether `tag` is one of the type tags, by exact string comparison.
    pub fn contains(&self, tag: &str) -> (r: bool)
        ensures
            r == self@.contains(tag@),
    {
        let owned = tag.to_owned();
        let mut i: usize = 0;
        while i < self.0.len()
            invariant
                i <= self.0@.len(),
                owned@ == tag@,
                forall|j: int| 0 <= j < i ==> self@[j] != tag@,
            decreases self.0@.len() - i,
        {
            if self.0[i] == owned {
                assert(self@[i as int] == tag@);
                return true;
            }
            i = i + 1;
        }
        proof {
            if self@.contains(tag@) {
                let k = choose|k: int| 0 <= k < self@.len() && self@[k] == tag@;
                assert(self@[k] != tag@);
            }
        }
        false
    }
}

/// A W3C verifiable credential as carried inside a presentation. Its own
/// shape is checked elsewhere; here it is a value that is stored and kept.
#[derive(Debug, Clone)]
pub struct W3CCredential {
    pub context: Contexts,
    pub type_: Types,
    pub issuer: URI,
    pub credential_subject: Vec<(String, String)>,
}

} // verus!
