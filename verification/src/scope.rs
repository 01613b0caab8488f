//! The tenant partition model.
//!
//! A scope identifies an isolated storage and visibility partition. It is
//! either the unscoped root partition or a named partition. Scopes have no
//! ordering and no hierarchy: `Named("abc")` and `Named("abcd")` are
//! unrelated partitions even though one name extends the other.

use vstd::prelude::*;

verus! {

/// A tenant partition: the root partition, or an isolated named partition.
/// The name is an arbitrary non-empty string, commonly a geohash.
#[derive(Debug)]
pub enum Scope {
    /// The unscoped root partition.
    Root,
    /// An isolated named partition.
    Named(String),
}

/// Error from scope construction.
#[derive(Clone, Copy, Debug, PartialEq, Eq, Structural)]
pub enum ScopeError {
    /// A named partition needs a non-empty name.
    EmptyName,
}

impl Scope {
    /// Two scopes denote the same partition iff both are root, or both are
    /// named with the same name.
    pub open spec fn same_scope(self, other: Scope) -> bool {
        match (self, other) {
            (Scope::Root, Scope::Root) => true,
            (Scope::Named(a), Scope::Named(b)) => a@ == b@,
            _ => false,
        }
    }

    /// The name of a named scope; the empty sequence for the root scope.
    pub open spec fn label(self) -> Seq<char> {
        match self {
            Scope::Root => Seq::empty(),
            Scope::Named(n) => n@,
        }
    }

    /// The unscoped root partition.
    pub fn root() -> (s: Scope)
        ensures
            s == Scope::Root,
    {
        Scope::Root
    }

    /// A named partition; the empty name is rejected.
    pub fn named(name: &str) -> (r: Result<Scope, ScopeError>)
        ensures
            name@.len() == 0 ==> r == Err::<Scope, ScopeError>(ScopeError::EmptyName),
            name@.len() > 0 ==> (r matches Ok(s) && s matches Scope::Named(n) && n@ == name@),
    {
        if name.unicode_len() == 0 {
            Err(ScopeError::EmptyName)
        } else {
            Ok(Scope::Named(String::from_str(name)))
        }
    }
}

impl Clone for Scope {
    /// Cloning yields the same partition.
    fn clone(&self) -> (r: Scope)
        ensures
            r == *self,
    {
        match self {
            Scope::Root => Scope::Root,
            Scope::Named(n) => Scope::Named(n.clone()),
        }
    }
}

impl PartialEq for Scope {
    fn eq(&self, other: &Scope) -> (r: bool) {
        match (self, other) {
            (Scope::Root, Scope::Root) => true,
            (Scope::Named(a), Scope::Named(b)) => *a == *b,
            _ => false,
        }
    }
}

impl vstd::std_specs::cmp::PartialEqSpecImpl for Scope {
    open spec fn obeys_eq_spec() -> bool {
        true
    }

    open spec fn eq_spec(&self, other: &Scope) -> bool {
        self.same_scope(*other)
    }
}

} // verus!
