//! The fallback route target.

use crate::response::Response;
use crate::response::ResponseView;
use crate::response::build_response_string;
use crate::response::spec_string_response;
use crate::response::text_plain_content_type_header_value;
use vstd::prelude::*;

verus! {

/// What every unknown path receives: a plain-text 404.
pub open spec fn spec_not_found_response() -> ResponseView {
    spec_string_response(404, "Route not found"@, "text/plain"@)
}

/// Answers requests whose path matches no registered route.
pub struct NotFoundHandler;

impl NotFoundHandler {
    /// Always yields status 404 with the fixed plain-text body.
    pub fn handle(&self) -> (r: Response)
        ensures
            r@ == spec_not_found_response(),
    {
        build_response_string(
            404,
            "Route not found".to_owned(),
            text_plain_content_type_header_value(),
        )
    }
}

} // verus!
