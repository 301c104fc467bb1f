//! Package identifiers.

use vstd::prelude::*;

verus! {

/// An opaque name for a package in the remote repository.
///
/// Invariant: the identifier is non-empty. It is interpolated verbatim into
/// the descriptor URL and the artifact filename, so callers are responsible
/// for passing URL- and path-safe content.
#[derive(Debug)]
pub struct PackageIdentifier {
    id: String,
}

impl View for PackageIdentifier {
    type V = Seq<char>;

    closed spec fn view(&self) -> Seq<char> {
        self.id@
    }
}

impl PackageIdentifier {
    /// The identifier invariant: it names at least one character.
    pub open spec fn wf(&self) -> bool {
        self@.len() > 0
    }

    /// Accepts exactly the non-empty strings.
    pub fn new(id: String) -> (r: Option<PackageIdentifier>)
        ensures
            id@.len() > 0 ==> (r matches Some(p) && p@ == id@ && p.wf()),
            id@.len() == 0 ==> r is None,
    {
        if id.as_str().is_empty() {
            None
        } else {
            Some(PackageIdentifier { id })
        }
    }

    /// The identifier's text.
    pub fn as_str(&self) -> (r: &str)
        ensures
            r@ == self@,
    {
        self.id.as_str()
    }
}

} // verus!
