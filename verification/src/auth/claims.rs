use vstd::prelude::*;

verus! {

/// The claims of a caller's access token.
#[derive(Debug, Clone)]
pub struct Claims {
    pub sub: Option<String>,
    pub upn: Option<String>,
    /// The groups the caller belongs to; none when the token lists none.
    pub groups: Vec<String>,
    pub exp: usize,
    pub iat: Option<usize>,
    pub iss: Option<String>,
}

/// `group` is one of the caller's groups.
pub open spec fn in_group(claims: Claims, group: Seq<char>) -> bool {
    exists|i: int| 0 <= i < claims.groups@.len() && #[trigger] claims.groups@[i]@ == group
}

impl Claims {
    /// Whether the caller belongs to `group`.
    pub fn has_group(&self, group: &str) -> (b: bool)
        ensures
            b == in_group(*self, group@),
    {
        let wanted = String::from_str(group);
        let mut i: usize = 0;
        while i < self.groups.len()
            invariant
                i <= self.groups@.len(),
                wanted@ == group@,
                forall|j: int| 0 <= j < i ==> #[trigger] self.groups@[j]@ != group@,
            decreases self.groups@.len() - i,
        {
            if self.groups[i] == wanted {
                return true;
            }
            i = i + 1;
        }
        false
    }
}

} // verus!
