use vstd::prelude::*;

verus! {

/// A JSON-LD context or type identifier. Two identifiers are equal when their
/// strings are equal.
#[derive(Debug, Clone)]
pub struct URI(pub String);

impl View for URI {
    type V = Seq<char>;

    open spec fn view(&self) -> Seq<char> {
        self.0@
    }
}

impl URI {
    /// Wraps a copy of `s`.
    pub fn new(s: &str) -> (r: URI)
        ensures
            r@ == s@,
    {
        URI(s.to_owned())
    }
}

impl PartialEq for URI {
    fn eq(&self, other: &URI) -> (r: bool) {
        self.0 == other.0
    }
}

impl vstd::std_specs::cmp::PartialEqSpecImpl for URI {
    open spec fn obeys_eq_spec() -> bool {
        true
    }

    open spec fn eq_spec(&self, other: &URI) -> bool {
        self@ == other@
    }
}

impl Eq for URI {
}

} // verus!
