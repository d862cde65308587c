//! Paths as they are given, and when two of them are the same.
use vstd::prelude::*;

use crate::wide::WideString;

verus! {

/// A path as it was given, with its components.
#[derive(Debug)]
pub struct PathName {
    /// The path itself.
    pub units: WideString,
    /// Its components, in the way in which paths are compared: one path may be spelled in several
    /// ways, with or without a separator at the end for instance, that have the same components.
    pub components: Vec<WideString>,
}

/// What a `PathName` says.
#[verifier::ext_equal]
pub struct PathNameView {
    pub units: Seq<u16>,
    pub components: Seq<Seq<u16>>,
}

impl View for PathName {
    type V = PathNameView;

    open spec fn view(&self) -> PathNameView {
        PathNameView {
            units: self.units@,
            components: crate::environment::wide_views(self.components@),
        }
    }
}

impl Clone for PathName {
    fn clone(&self) -> (r: Self)
        ensures
            r@ == self@,
    {
        let mut components: Vec<WideString> = Vec::new();
        let mut i: usize = 0;
        while i < self.components.len()
            invariant
                i <= self.components@.len(),
                components@.len() == i,
                forall|j: int| 0 <= j < i ==> #[trigger] components@[j]@ == self.components@[j]@,
            decreases self.components@.len() - i,
        {
            components.push(self.components[i].clone());
            i = i + 1;
        }
        let copy = PathName { units: self.units.clone(), components };
        assert(copy@ =~= self@);
        copy
    }
}

impl PathName {
    /// Whether two paths have the same components.
    pub fn same_components(&self, other: &PathName) -> (r: bool)
        ensures
            r == (self@.components == other@.components),
    {
        if self.components.len() != other.components.len() {
            assert(self@.components.len() != other@.components.len());
            return false;
        }
        let mut i: usize = 0;
        while i < self.components.len()
            invariant
                i <= self.components@.len(),
                self.components@.len() == other.components@.len(),
                forall|j: int|
                    0 <= j < i ==> #[trigger] self.components@[j]@ == other.components@[j]@,
            decreases self.components@.len() - i,
        {
            if !self.components[i].same(&other.components[i]) {
                assert(self@.components[i as int] != other@.components[i as int]);
                return false;
            }
            i = i + 1;
        }
        assert(self@.components =~= other@.components);
        true
    }
}

/// What a path that may be there says.
pub open spec fn optional_path(path: Option<PathName>) -> Option<PathNameView> {
    match path {
        Some(path) => Some(path@),
        None => None,
    }
}

} // verus!
