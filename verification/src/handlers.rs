//! Route targets.
//!
//! Every route maps to one `Handler`. The core never looks inside a
//! handler's work — it reads the handler's declared offload requirement,
//! runs the right kind of work, and takes the resulting response. Pages
//! rendered ahead of time (the index and the command pages) arrive as
//! `FixedHandler`s; work the core cannot perform itself (an outbound proxy
//! fetch) hides behind an `ExternalHandler` that the surrounding program
//! executes.

pub mod command;
pub mod config;
pub mod environment;
pub mod not_found;
pub mod proxy;
pub mod static_file;

use crate::response::Response;
use crate::response::ResponseView;
use crate::response::build_response_string;
use crate::response::spec_string_response;
use vstd::prelude::*;

verus! {

/// A page rendered ahead of time and served unchanged.
pub struct FixedHandler {
    pub status: u16,
    pub content_type: String,
    pub body: String,
}

impl FixedHandler {
    /// The response this handler always serves.
    pub open spec fn spec_response(&self) -> ResponseView {
        spec_string_response(self.status, self.body@, self.content_type@)
    }

    pub fn new(status: u16, content_type: String, body: String) -> (r: FixedHandler)
        ensures
            r.spec_response() == spec_string_response(status, body@, content_type@),
    {
        FixedHandler { status, content_type, body }
    }

    /// Always yields the prepared page.
    pub fn handle(&self) -> (r: Response)
        ensures
            r@ == self.spec_response(),
    {
        build_response_string(self.status, self.body.clone(), self.content_type.clone())
    }
}

/// A handler the surrounding program executes on the core's behalf; `id`
/// names it there. The declared offload requirement still governs which lane
/// the core plans it onto.
pub struct ExternalHandler {
    pub id: u64,
    pub requires_offload: bool,
}

/// One route target.
pub enum Handler {
    Fixed(FixedHandler),
    Config(config::ConfigHandler),
    Environment(environment::EnvironmentHandler),
    NotFound(not_found::NotFoundHandler),
    StaticFile(static_file::StaticFileHandler),
    Command(command::CommandHandler),
    External(ExternalHandler),
}

impl Handler {
    /// Whether running this handler may block the calling thread for a
    /// non-trivial duration, so that it must run on the worker lane.
    pub open spec fn spec_requires_offload(&self) -> bool {
        match self {
            Handler::Fixed(_) => false,
            Handler::Config(_) => false,
            Handler::Environment(_) => false,
            Handler::NotFound(_) => false,
            Handler::StaticFile(_) => true,
            Handler::Command(_) => true,
            Handler::External(e) => e.requires_offload,
        }
    }

    /// Whether this handler must run on the worker lane.
    pub fn requires_offload(&self) -> (r: bool)
        ensures
            r == self.spec_requires_offload(),
    {
        match self {
            Handler::Fixed(_) => false,
            Handler::Config(_) => false,
            Handler::Environment(_) => false,
            Handler::NotFound(_) => false,
            Handler::StaticFile(_) => true,
            Handler::Command(_) => true,
            Handler::External(e) => e.requires_offload,
        }
    }
}

} // verus!
