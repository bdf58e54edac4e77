//! The reference tables: the architectures and distributions that a detected
//! record may name.

use crate::text::contains;
use vstd::prelude::*;

verus! {

/// The accepted architecture and distribution values. Loaded once by the
/// caller and only ever read here.
#[derive(Debug, PartialEq, Eq)]
pub struct ReferenceTables {
    pub architectures: Vec<String>,
    pub distributions: Vec<String>,
}

/// Mathematical form of [`ReferenceTables`]: two sets of strings.
pub struct ReferenceTablesView {
    pub architectures: Set<Seq<char>>,
    pub distributions: Set<Seq<char>>,
}

impl View for ReferenceTables {
    type V = ReferenceTablesView;

    open spec fn view(&self) -> ReferenceTablesView {
        ReferenceTablesView {
            architectures: self.architectures.deep_view().to_set(),
            distributions: self.distributions.deep_view().to_set(),
        }
    }
}

impl ReferenceTables {
    /// Tables that accept exactly the listed values.
    pub fn new(architectures: Vec<String>, distributions: Vec<String>) -> (r: ReferenceTables)
        ensures
            r@.architectures == architectures.deep_view().to_set(),
            r@.distributions == distributions.deep_view().to_set(),
    {
        ReferenceTables { architectures, distributions }
    }

    /// Whether `arch` is an accepted architecture.
    pub fn accepts_architecture(&self, arch: &String) -> (r: bool)
        ensures
            r == self@.architectures.contains(arch@),
    {
        contains(&self.architectures, arch)
    }

    /// Whether `distro` is an accepted distribution.
    pub fn accepts_distribution(&self, distro: &String) -> (r: bool)
        ensures
            r == self@.distributions.contains(distro@),
    {
        contains(&self.distributions, distro)
    }
}

} // verus!
