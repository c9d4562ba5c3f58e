//! Static files with conditional-GET caching.
//!
//! A static-file handler serves one file from disk. Reading the file is
//! blocking work, performed outside the core on the worker lane; what this
//! module verifies is the whole decision that follows the read: 404 for a
//! missing file, 304 for a client whose copy is current, otherwise the full
//! bytes, each with the cache headers the route was configured with.

use crate::cache::spec_file_modified_since;
use crate::cache::cache_control_value;
use crate::cache::file_modified_since_header;
use crate::cache::spec_cache_control;
use crate::httpdate::build_last_modified_header;
use crate::httpdate::spec_last_modified_header;
use crate::response::BodyView;
use crate::response::Response;
use crate::response::ResponseBody;
use crate::response::ResponseView;
use crate::response::build_response_status;
use crate::response::spec_status_response;
use vstd::prelude::*;

verus! {

/// What the worker lane's file read produced: nothing (the file could not be
/// opened), or its bytes plus its last-modified time in whole epoch seconds
/// where the filesystem reported one.
pub enum FileReadResult {
    Missing,
    Loaded { bytes: Vec<u8>, modified_secs: Option<i64> },
}

/// Mathematical shape of a `FileReadResult`.
pub enum FileReadView {
    Missing,
    Loaded { bytes: Seq<u8>, modified_secs: Option<i64> },
}

impl View for FileReadResult {
    type V = FileReadView;

    open spec fn view(&self) -> FileReadView {
        match self {
            FileReadResult::Missing => FileReadView::Missing,
            FileReadResult::Loaded { bytes, modified_secs } => FileReadView::Loaded {
                bytes: bytes@,
                modified_secs: *modified_secs,
            },
        }
    }
}

/// Serves one file from disk under a configured content type and cache
/// lifetime.
#[derive(Clone)]
pub struct StaticFileHandler {
    fs_path: String,
    content_type: String,
    cache_max_age_seconds: u32,
}

/// Mathematical shape of a `StaticFileHandler`.
pub struct StaticFileHandlerView {
    pub fs_path: Seq<char>,
    pub content_type: Seq<char>,
    pub cache_max_age_seconds: u32,
}

impl View for StaticFileHandler {
    type V = StaticFileHandlerView;

    closed spec fn view(&self) -> StaticFileHandlerView {
        StaticFileHandlerView {
            fs_path: self.fs_path@,
            content_type: self.content_type@,
            cache_max_age_seconds: self.cache_max_age_seconds,
        }
    }
}

impl StaticFileHandler {
    pub fn new(fs_path: String, content_type: String, cache_max_age_seconds: u32) -> (r:
        StaticFileHandler)
        ensures
            r@ == (StaticFileHandlerView {
                fs_path: fs_path@,
                content_type: content_type@,
                cache_max_age_seconds,
            }),
    {
        StaticFileHandler { fs_path, content_type, cache_max_age_seconds }
    }

    /// The file this route serves.
    pub fn fs_path(&self) -> (r: &String)
        ensures
            r@ == self@.fs_path,
    {
        &self.fs_path
    }

    /// The content type this route answers with.
    pub fn content_type(&self) -> (r: &String)
        ensures
            r@ == self@.content_type,
    {
        &self.content_type
    }

    /// The configured cache lifetime in seconds.
    pub fn cache_max_age_seconds(&self) -> (r: u32)
        ensures
            r == self@.cache_max_age_seconds,
    {
        self.cache_max_age_seconds
    }

    /// The response owed for this route, given the request's
    /// `If-Modified-Since` time and the outcome of the file read.
    pub open spec fn spec_respond(&self, ims: Option<i64>, file: FileReadView) -> ResponseView {
        match file {
            FileReadView::Missing => spec_status_response(404),
            FileReadView::Loaded { bytes, modified_secs } => {
                let full = spec_file_modified_since(ims, modified_secs);
                ResponseView {
                    status: if full {
                        200
                    } else {
                        304
                    },
                    content_type: Some(self@.content_type),
                    cache_control: Some(spec_cache_control(self@.cache_max_age_seconds)),
                    last_modified: spec_last_modified_header(modified_secs),
                    body: if full {
                        BodyView::Bytes(bytes)
                    } else {
                        BodyView::Empty
                    },
                }
            },
        }
    }

    /// Builds the response for this route once the worker lane has read the
    /// file: 404 where the file was missing, otherwise a 200 with the full
    /// bytes or a 304 with an empty body, both carrying the configured
    /// `Content-Type` and `Cache-Control` headers and, where the
    /// last-modified time is known, a `Last-Modified` header.
    pub fn respond(&self, if_modified_since_secs: Option<i64>, file: FileReadResult) -> (r:
        Response)
        ensures
            r@ == self.spec_respond(if_modified_since_secs, file@),
    {
        match file {
            FileReadResult::Missing => build_response_status(404),
            FileReadResult::Loaded { bytes, modified_secs } => {
                let full = file_modified_since_header(&if_modified_since_secs, &modified_secs);
                let last_modified = build_last_modified_header(&modified_secs);
                Response {
                    status: if full {
                        200
                    } else {
                        304
                    },
                    content_type: Some(self.content_type.clone()),
                    cache_control: Some(cache_control_value(self.cache_max_age_seconds)),
                    last_modified,
                    body: if full {
                        ResponseBody::Bytes(bytes)
                    } else {
                        ResponseBody::Empty
                    },
                }
            },
        }
    }
}

/// Conditional GET on a resource with last-modified time `t` and this
/// route's configured cache lifetime: a request whose `If-Modified-Since`
/// equals `t` gets a 304 with an empty body; one a second earlier gets a 200
/// with the full bytes; one without the header gets a 200 with the full
/// bytes. All three answers carry the configured `Content-Type` and
/// `Cache-Control` headers, and the `Last-Modified` header wherever `t` is
/// renderable as an HTTP date.
pub proof fn lemma_conditional_get(handler: StaticFileHandler, bytes: Seq<u8>, t: i64)
    requires
        t > i64::MIN,
    ensures
        ({
            let r = handler.spec_respond(
                Some(t),
                FileReadView::Loaded { bytes, modified_secs: Some(t) },
            );
            &&& r.status == 304
            &&& r.body is Empty
            &&& r.content_type == Some(handler@.content_type)
            &&& r.cache_control == Some(spec_cache_control(handler@.cache_max_age_seconds))
            &&& r.last_modified == spec_last_modified_header(Some(t))
        }),
        ({
            let r = handler.spec_respond(
                Some((t - 1) as i64),
                FileReadView::Loaded { bytes, modified_secs: Some(t) },
            );
            &&& r.status == 200
            &&& r.body == BodyView::Bytes(bytes)
            &&& r.content_type == Some(handler@.content_type)
            &&& r.cache_control == Some(spec_cache_control(handler@.cache_max_age_seconds))
            &&& r.last_modified == spec_last_modified_header(Some(t))
        }),
        ({
            let r = handler.spec_respond(
                None,
                FileReadView::Loaded { bytes, modified_secs: Some(t) },
            );
            &&& r.status == 200
            &&& r.body == BodyView::Bytes(bytes)
        }),
{
}

} // verus!
