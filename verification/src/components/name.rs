use vstd::prelude::*;

verus! {

/// A display label; no system reads it.
#[derive(Debug)]
pub struct Name {
    pub name: String,
}

} // verus!
