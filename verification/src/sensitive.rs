//! The configured set of sensitive header names. Membership is
//! case-insensitive and the set is fixed once configured: the redactor is a
//! pure predicate with no per-request state.

use vstd::prelude::*;
use crate::text::{eq_ignore_case, lower_chars};

verus! {

/// Whether `name` matches one of `names` up to ASCII case.
pub open spec fn name_is_sensitive(names: Seq<Seq<char>>, name: Seq<char>) -> bool {
    exists|i: int| 0 <= i < names.len() && lower_chars(#[trigger] names[i]) == lower_chars(name)
}

/// The set of header names whose values must never appear verbatim in an
/// emitted event.
pub struct SensitiveNameSet {
    pub names: Vec<String>,
}

impl View for SensitiveNameSet {
    type V = Seq<Seq<char>>;

    open spec fn view(&self) -> Seq<Seq<char>> {
        self.names@.map_values(|n: String| n@)
    }
}

impl SensitiveNameSet {
    /// Whether the set marks `name` as sensitive.
    pub open spec fn spec_is_sensitive(&self, name: Seq<char>) -> bool {
        name_is_sensitive(self@, name)
    }

    /// Configures the set from the given names.
    pub fn new(names: Vec<String>) -> (r: Self)
        ensures
            r.names == names,
    {
        SensitiveNameSet { names }
    }

    /// The default configuration: the access-token header is sensitive.
    pub fn with_default_names() -> (r: Self)
        ensures
            r@ == seq!["access-token"@],
    {
        let mut names: Vec<String> = Vec::new();
        names.push(String::from_str("access-token"));
        let r = SensitiveNameSet { names };
        assert(r@ =~= seq!["access-token"@]);
        r
    }

    /// Decides whether `name` is registered as sensitive, ignoring ASCII
    /// case.
    pub fn is_sensitive(&self, name: &str) -> (r: bool)
        ensures
            r == self.spec_is_sensitive(name@),
    {
        let mut i: usize = 0;
        while i < self.names.len()
            invariant
                0 <= i <= self.names@.len(),
                forall|j: int|
                    0 <= j < i ==> lower_chars(#[trigger] self@[j]) != lower_chars(name@),
            decreases self.names@.len() - i,
        {
            if eq_ignore_case(self.names[i].as_str(), name) {
                assert(lower_chars(self@[i as int]) == lower_chars(name@));
                return true;
            }
            i = i + 1;
        }
        false
    }
}

} // verus!
