use vstd::prelude::*;

verus! {

/// A company.
#[derive(Debug, Clone)]
pub struct Company {
    pub id: i64,
    pub name: String,
    pub address: String,
}

} // verus!
