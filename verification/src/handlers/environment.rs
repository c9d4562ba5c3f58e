//! The environment diagnostic route.
//!
//! Serves a plain-text rendering of the build environment — presently the
//! source revision — rendered once at startup and served unchanged.

use crate::environment::Environment;
use crate::response::Response;
use crate::response::build_response_string;
use crate::response::spec_string_response;
use crate::response::text_plain_content_type_header_value;
use vstd::prelude::*;

verus! {

/// The environment text: one line naming the source revision.
pub open spec fn spec_environment_text(git_hash: Seq<char>) -> Seq<char> {
    "git_hash: "@ + git_hash + "\n"@
}

/// Serves the build environment as plain text.
pub struct EnvironmentHandler {
    environment_string: String,
}

impl EnvironmentHandler {
    /// The text served.
    pub closed spec fn spec_environment_string(&self) -> Seq<char> {
        self.environment_string@
    }

    /// Renders the environment's text once, at startup.
    pub fn new(environment: &Environment) -> (r: EnvironmentHandler)
        ensures
            r.spec_environment_string() == spec_environment_text(environment.spec_git_hash()),
    {
        let mut s = "git_hash: ".to_owned();
        s.append(environment.git_hash().as_str());
        s.append("\n");
        proof {
            assert(s@ =~= spec_environment_text(environment.spec_git_hash()));
        }
        EnvironmentHandler { environment_string: s }
    }

    /// Always yields the environment text with status 200.
    pub fn handle(&self) -> (r: Response)
        ensures
            r@ == spec_string_response(200, self.spec_environment_string(), "text/plain"@),
    {
        build_response_string(
            200,
            self.environment_string.clone(),
            text_plain_content_type_header_value(),
        )
    }
}

} // verus!
