//! The listing of warrant types.
use vstd::prelude::*;
use crate::sql::{fixed, Statement};

verus! {

/// Every warrant type, by name.
pub const LIST_SQL: &'static str = "SELECT id, name FROM warrant_type ORDER BY name";

/// The statement that lists the warrant types.
pub fn list() -> (st: Statement)
    ensures
        st.sql@ == LIST_SQL@,
        st.binds@.len() == 0,
{
    fixed(LIST_SQL)
}

} // verus!
