use vstd::prelude::*;

verus! {

/// The claims of a session token, as the guard reads them.
#[allow(non_snake_case)]
#[derive(Debug, Clone)]
pub struct Claims {
    pub iss: String,
    pub exp: usize,
    pub upn: Option<String>,
    pub uid: Option<i64>,
    pub user: Option<String>,
    pub fullName: Option<String>,
    pub directory: Option<String>,
    pub groups: Option<Vec<String>>,
}

} // verus!
