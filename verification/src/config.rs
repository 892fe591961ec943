//! The configuration that the application starts with.

use vstd::prelude::*;

verus! {

/// The configuration to run with, given the outcome of loading one: the
/// loaded configuration, or the default one where loading has failed. A
/// failure to load is not handed on.
pub fn loaded_or_default<C: Default, E>(loaded: Result<C, E>) -> (config: C)
    ensures
        loaded matches Ok(found) ==> config == found,
        loaded is Err ==> call_ensures(C::default, (), config),
{
    match loaded {
        Ok(found) => found,
        Err(_) => C::default(),
    }
}

} // verus!
