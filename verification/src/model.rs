//! Data model: the persisted `Sample` record, the client-supplied creation
//! payload, and the closed taxonomy of data-access failures.

use vstd::prelude::*;

verus! {

/// The sole persisted entity: a record with one text attribute, `name`,
/// which serves as the natural lookup key.
pub struct Sample {
    pub name: String,
}

impl View for Sample {
    type V = Seq<char>;

    open spec fn view(&self) -> Seq<char> {
        self.name@
    }
}

impl Clone for Sample {
    fn clone(&self) -> (r: Self)
        ensures
            r@ == self@,
    {
        Sample { name: self.name.clone() }
    }
}

/// The client-supplied payload for creation: structurally a name, but an
/// unvalidated wire-format input, not yet a persisted entity.
pub struct NewCategory {
    pub name: String,
}

impl View for NewCategory {
    type V = Seq<char>;

    open spec fn view(&self) -> Seq<char> {
        self.name@
    }
}

impl Clone for NewCategory {
    fn clone(&self) -> (r: Self)
        ensures
            r@ == self@,
    {
        NewCategory { name: self.name.clone() }
    }
}

/// Every store-level failure is classified into exactly one of these three
/// kinds before it reaches the handler layer.
#[derive(Clone, Copy, PartialEq, Eq, Structural, Debug)]
pub enum DataError {
    /// The requested row is absent.
    NotFound,
    /// The store rejected a write with a constraint violation.
    Conflict,
    /// Any other engine failure (connectivity loss, timeout, malformed query).
    Other,
}

} // verus!
