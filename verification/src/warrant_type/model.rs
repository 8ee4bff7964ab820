use vstd::prelude::*;

verus! {

/// A kind of letter of guarantee.
#[derive(Debug, Clone)]
pub struct WarrantType {
    pub id: i32,
    pub name: String,
}

} // verus!
