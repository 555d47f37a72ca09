//! Printing the JSON schema of the config.

use vstd::prelude::*;

verus! {

/// Options of `config schema`.
#[derive(Clone, Copy, PartialEq, Eq, Structural, Debug)]
pub struct SchemaArgs {}

} // verus!
