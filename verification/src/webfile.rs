//! Static files served by the badge's web interface.
//!
//! A [`File`] holds the data of one HTTP response: a content type, a body,
//! and extra headers. The web server and its transport traits live in the
//! unverified shell; it turns a `File` into a wire response.

use vstd::prelude::*;
use vstd::string::StringSliceAdditionalSpecFns;

verus! {

/// A static file served over HTTP.
#[derive(Debug, Clone)]
pub struct File {
    content_type: &'static str,
    body: &'static [u8],
    headers: &'static [(&'static str, &'static str)],
}

impl File {
    /// The file's MIME content type.
    pub closed spec fn spec_content_type(self) -> Seq<char> {
        self.content_type@
    }

    /// The file's body bytes.
    pub closed spec fn spec_body(self) -> Seq<u8> {
        self.body@
    }

    /// The file's extra response headers.
    pub closed spec fn spec_headers(self) -> Seq<(&'static str, &'static str)> {
        self.headers@
    }

    /// Creates a file with the given content type and no additional headers.
    pub fn with_content_type(content_type: &'static str, body: &'static [u8]) -> (r: File)
        ensures
            r.spec_content_type() == content_type@,
            r.spec_body() == body@,
            r.spec_headers().len() == 0,
    {
        File { content_type, body, headers: &[] }
    }

    /// A HyperText Markup Language file with a MIME type of "text/html;
    /// charset=utf-8".
    pub fn html(body: &'static str) -> (r: File)
        ensures
            r.spec_content_type() == "text/html; charset=utf-8"@,
            r.spec_body() == body.spec_bytes(),
            r.spec_headers().len() == 0,
    {
        File::with_content_type("text/html; charset=utf-8", body.as_bytes())
    }

    /// A Cascading StyleSheets file with a MIME type of "text/css".
    pub fn css(body: &'static str) -> (r: File)
        ensures
            r.spec_content_type() == "text/css"@,
            r.spec_body() == body.spec_bytes(),
            r.spec_headers().len() == 0,
    {
        File::with_content_type("text/css", body.as_bytes())
    }

    /// A Javascript file with a MIME type of "application/javascript;
    /// charset=utf-8".
    pub fn javascript(body: &'static str) -> (r: File)
        ensures
            r.spec_content_type() == "application/javascript; charset=utf-8"@,
            r.spec_body() == body.spec_bytes(),
            r.spec_headers().len() == 0,
    {
        File::with_content_type("application/javascript; charset=utf-8", body.as_bytes())
    }

    /// The content type, for the response head.
    pub fn content_type(&self) -> (r: &'static str)
        ensures
            r@ == self.spec_content_type(),
    {
        self.content_type
    }

    /// The body length in bytes, for the Content-Length header.
    pub fn content_length(&self) -> (r: usize)
        ensures
            r == self.spec_body().len(),
    {
        self.body.len()
    }

    /// The body bytes, for the response's payload.
    pub fn body(&self) -> (r: &'static [u8])
        ensures
            r@ == self.spec_body(),
    {
        self.body
    }

    /// The extra headers, appended to the response head.
    pub fn headers(&self) -> (r: &'static [(&'static str, &'static str)])
        ensures
            r@ == self.spec_headers(),
    {
        self.headers
    }
}

} // verus!
