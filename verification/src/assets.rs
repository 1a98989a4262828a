//! How the worker routes a request: API paths go to the item API, everything
//! else is a static asset of the front end, served with a content type chosen
//! by its extension.

use vstd::prelude::*;
use vstd::string::*;

use crate::http::{plain_response, PlainResponse};
use crate::text::{ends_with, has_prefix, has_suffix, starts_with, str_equal};

verus! {

/// Whether a request path belongs to the item API.
pub fn is_api_path(path: &str) -> (res: bool)
    ensures
        res == has_prefix(path@, "/api/"@),
{
    starts_with(path, "/api/")
}

/// The asset a path names: `/` names the index page.
pub open spec fn asset_key(path: Seq<char>) -> Seq<char> {
    if path == "/"@ {
        "/index.html"@
    } else {
        path
    }
}

/// The content type an asset is served with, by its extension.
pub open spec fn asset_content_type(key: Seq<char>) -> Seq<char> {
    if has_suffix(key, ".html"@) {
        "text/html"@
    } else if has_suffix(key, ".js"@) {
        "application/javascript"@
    } else if has_suffix(key, ".wasm"@) {
        "application/wasm"@
    } else if has_suffix(key, ".css"@) {
        "text/css"@
    } else {
        "application/octet-stream"@
    }
}

/// How a static asset is fetched and served.
#[derive(Debug)]
pub struct StaticAsset {
    /// The key of the asset in the static content store.
    pub key: String,
    /// The content type it is served with.
    pub content_type: String,
    /// Whether it is read as bytes (WebAssembly) rather than as text.
    pub binary: bool,
}

/// The content type for an asset key.
pub fn content_type_for(key: &str) -> (res: &'static str)
    ensures
        res@ == asset_content_type(key@),
{
    if ends_with(key, ".html") {
        "text/html"
    } else if ends_with(key, ".js") {
        "application/javascript"
    } else if ends_with(key, ".wasm") {
        "application/wasm"
    } else if ends_with(key, ".css") {
        "text/css"
    } else {
        "application/octet-stream"
    }
}

/// The asset a request path asks for.
pub fn static_asset(path: &str) -> (res: StaticAsset)
    ensures
        res.key@ == asset_key(path@),
        res.content_type@ == asset_content_type(asset_key(path@)),
        res.binary == has_suffix(asset_key(path@), ".wasm"@),
{
    let key = if str_equal(path, "/") {
        String::from_str("/index.html")
    } else {
        String::from_str(path)
    };
    let content_type = String::from_str(content_type_for(key.as_str()));
    let binary = ends_with(key.as_str(), ".wasm");
    StaticAsset { key, content_type, binary }
}

/// The answer when the asset does not exist.
pub fn asset_not_found() -> (res: PlainResponse)
    ensures
        res.status == 404,
        res.body@ == "Not Found"@,
        res.headers@.len() == 0,
{
    plain_response(404, "Not Found")
}

/// The answer when the static content store cannot be reached.
pub fn static_content_unavailable() -> (res: PlainResponse)
    ensures
        res.status == 500,
        res.body@ == "Static content not available"@,
        res.headers@.len() == 0,
{
    plain_response(500, "Static content not available")
}

} // verus!
