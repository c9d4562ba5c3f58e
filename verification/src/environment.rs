//! Build environment description.
//!
//! The server's index and diagnostic pages show which source revision is
//! running. The revision text itself is produced outside the core (by asking
//! the version-control tool at startup); here it is just a value.

use vstd::prelude::*;

verus! {

/// Facts about the running build.
pub struct Environment {
    git_hash: String,
}

impl Environment {
    /// The source revision the server was started from.
    pub closed spec fn spec_git_hash(&self) -> Seq<char> {
        self.git_hash@
    }

    /// Wraps the revision text obtained at startup.
    pub fn new(git_hash: String) -> (r: Environment)
        ensures
            r.spec_git_hash() == git_hash@,
    {
        Environment { git_hash }
    }

    /// The source revision the server was started from.
    pub fn git_hash(&self) -> (r: &String)
        ensures
            r@ == self.spec_git_hash(),
    {
        &self.git_hash
    }
}

} // verus!
