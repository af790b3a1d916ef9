//! Array sizing of a member.
use vstd::prelude::*;

verus! {

/// Represent array sizing for a Member.
/// Generally not useful except when constructing Members for users, though it is used in this
/// library.
#[derive(Debug, Clone, Copy, PartialEq, Eq, Structural)]
#[non_exhaustive]
pub enum Sizing {
    Singleton,
    Fixed(u64),
    Dynamic,
}

} // verus!
