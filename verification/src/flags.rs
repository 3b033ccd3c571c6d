//! The enabled feature flags.

use vstd::prelude::*;

verus! {

/// A feature definition as the flag service hands it out.
#[allow(inconsistent_fields)]
#[derive(Clone, Debug, PartialEq, Eq)]
pub enum Feature {
    Bool { default_value: bool },
    Text { default_value: String },
}

/// The names of the enabled flags.
#[derive(Clone, Debug)]
pub struct FlagSet {
    names: Vec<String>,
}

/// The names held by a list of strings.
pub open spec fn name_set(names: Seq<String>) -> Set<Seq<char>> {
    Set::new(|n: Seq<char>| exists|i: int| 0 <= i < names.len() && (#[trigger] names[i])@ == n)
}

/// The names under which a list of feature definitions is filed.
pub open spec fn feature_names(features: Seq<(String, Feature)>) -> Set<Seq<char>> {
    Set::new(
        |n: Seq<char>| exists|i: int| 0 <= i < features.len() && (#[trigger] features[i]).0@ == n,
    )
}

impl View for FlagSet {
    type V = Set<Seq<char>>;

    closed spec fn view(&self) -> Set<Seq<char>> {
        name_set(self.names@)
    }
}

impl FlagSet {
    /// The set in which no flag is enabled.
    pub fn new() -> (r: FlagSet)
        ensures
            r@ == Set::<Seq<char>>::empty(),
    {
        let r = FlagSet { names: Vec::new() };
        assert(r@ =~= Set::<Seq<char>>::empty());
        r
    }

    /// The set of exactly the given names.
    pub fn from_names(names: Vec<String>) -> (r: FlagSet)
        ensures
            r@ == name_set(names@),
    {
        FlagSet { names }
    }

    /// The flags that a list of feature definitions enables.
    ///
    /// A flag is enabled by being defined: the definition's own default value
    /// is not consulted.
    pub fn from_features(features: Vec<(String, Feature)>) -> (r: FlagSet)
        ensures
            r@ == feature_names(features@),
    {
        let mut names: Vec<String> = Vec::new();
        let mut i: usize = 0;
        while i < features.len()
            invariant
                i <= features.len(),
                names.len() == i,
                forall|j: int| 0 <= j < i ==> (#[trigger] names[j])@ == features[j].0@,
            decreases features.len() - i,
        {
            names.push(features[i].0.clone());
            i += 1;
        }
        let r = FlagSet { names };
        assert(r@ =~= feature_names(features@)) by {
            assert forall|n: Seq<char>| r@.contains(n) implies feature_names(features@).contains(
                n,
            ) by {
                let j = choose|j: int| 0 <= j < names.len() && (#[trigger] names[j])@ == n;
                assert(features[j].0@ == n);
            }
            assert forall|n: Seq<char>| feature_names(features@).contains(n) implies r@.contains(
                n,
            ) by {
                let j = choose|j: int| 0 <= j < features.len() && (#[trigger] features[j]).0@ == n;
                assert(names[j]@ == n);
            }
        }
        r
    }

    /// Whether the flag of this name is enabled.
    pub fn contains(&self, name: &String) -> (r: bool)
        ensures
            r == self@.contains(name@),
    {
        let mut i: usize = 0;
        while i < self.names.len()
            invariant
                i <= self.names.len(),
                forall|j: int| 0 <= j < i ==> (#[trigger] self.names[j])@ != name@,
            decreases self.names.len() - i,
        {
            if self.names[i] == *name {
                return true;
            }
            i += 1;
        }
        false
    }
}

} // verus!
