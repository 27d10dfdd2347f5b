use vstd::prelude::*;

verus! {

/// How densely the list is drawn. It changes padding only, never behaviour.
#[derive(Clone, Copy, Debug, PartialEq, Eq, Structural)]
pub enum Size {
    Small,
    Medium,
    Large,
}

impl Default for Size {
    fn default() -> (size: Size)
        ensures
            size == Size::Medium,
    {
        Size::Medium
    }
}

} // verus!
