use vstd::prelude::*;

verus! {

/// Closes [`crate::kind::PluginKind`] to the four kinds of this crate.
pub trait Sealed {}

} // verus!
