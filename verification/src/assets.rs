//! The static files that the server hands out, the replies that carry them,
//! and the buffer size for reading the users file.

use vstd::prelude::*;

use crate::bindings::{cast_usize, css_essence, javascript_essence, svg_essence};

verus! {

/// The static files under `/static/`.
#[derive(Clone, Copy, Debug, PartialEq, Eq)]
pub enum StaticAsset {
    /// `htmlx_1.9.11.js`, the htmx script.
    Script,
    /// `style.css`, the style sheet.
    Style,
    /// `spinner.svg`, the loading spinner.
    Spinner,
}

/// The content type of a static file, without parameters.
pub open spec fn asset_content_type(a: StaticAsset) -> Seq<char> {
    match a {
        StaticAsset::Script => "application/javascript"@,
        StaticAsset::Style => "text/css"@,
        StaticAsset::Spinner => "image/svg+xml"@,
    }
}

impl StaticAsset {
    /// The content type that the file is served with.
    pub fn content_type(&self) -> (r: String)
        ensures
            r@ == asset_content_type(*self),
    {
        match self {
            StaticAsset::Script => javascript_essence(),
            StaticAsset::Style => css_essence(),
            StaticAsset::Spinner => svg_essence(),
        }
    }
}

/// `s` may stand in an HTTP header: every character is visible ASCII or a
/// tab.
pub open spec fn is_header_value(s: Seq<char>) -> bool {
    forall|i: int| 0 <= i < s.len() ==> (32 <= #[trigger] (s[i] as u32) < 127 || s[i] == '\t')
}

/// A successful reply with a body and its content type.
pub struct ContentResponse {
    pub status: u16,
    pub content_type: String,
    pub body: String,
}

/// The reply that carries a static file: status 200, the content type in
/// the `Content-Type` header, the file as the body.
pub fn valid_response_from_static_str(body: String, content_type: String) -> (r: ContentResponse)
    requires
        is_header_value(content_type@),
    ensures
        r.status == 200,
        r.content_type@ == content_type@,
        r.body@ == body@,
{
    ContentResponse { status: 200, content_type, body }
}

/// The reply that carries a static file, with the content type that the
/// file is served with.
pub fn asset_response(asset: StaticAsset, body: String) -> (r: ContentResponse)
    ensures
        r.status == 200,
        r.content_type@ == asset_content_type(asset),
        r.body@ == body@,
{
    let content_type = asset.content_type();
    proof {
        reveal_strlit("application/javascript");
        reveal_strlit("text/css");
        reveal_strlit("image/svg+xml");
    }
    valid_response_from_static_str(body, content_type)
}

/// How many bytes to reserve for reading a file of `file_len` bytes: all of
/// it.
pub fn file_buffer_capacity(file_len: u64) -> (r: usize)
    requires
        file_len <= usize::MAX,
    ensures
        r == file_len,
{
    cast_usize(file_len)
}

} // verus!
