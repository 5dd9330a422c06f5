//! What every operation shares.

use vstd::prelude::*;

verus! {

/// The settings of a client: the base path that every URI starts with.
///
/// A configuration is made once and then only read, so any number of
/// invokers can share one.
#[derive(Clone, Debug)]
pub struct Configuration {
    pub base_path: String,
}

} // verus!
