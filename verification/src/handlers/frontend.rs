//! The two static assets: the upload page and its style sheet. The caller
//! reads the file; what is served with it is decided here.

use vstd::prelude::*;
use vstd::string::*;

verus! {

/// A style sheet as it is served.
#[derive(Debug, PartialEq, Eq)]
pub struct StyleSheet {
    pub content_type: String,
    pub cache_control: String,
    pub body: String,
}

/// The status of the answer when an asset cannot be read.
pub open spec fn asset_unavailable() -> u16 {
    500
}

/// The upload page: the text of the file as HTML, or status 500 where the
/// file could not be read.
pub fn serve_upload_page(content: Option<String>) -> (page: Result<String, u16>)
    ensures
        match content {
            Some(html) => page == Ok::<String, u16>(html),
            None => page == Err::<String, u16>(asset_unavailable()),
        },
{
    match content {
        Some(html) => Ok(html),
        None => Err(500),
    }
}

/// The style sheet: the text of the file as `text/css`, cacheable by anyone
/// for an hour, or status 500 where the file could not be read.
pub fn serve_style_css(content: Option<String>) -> (sheet: Result<StyleSheet, u16>)
    ensures
        match content {
            Some(css) => sheet matches Ok(sheet) && sheet.body == css && sheet.content_type@
                == "text/css"@ && sheet.cache_control@ == "public, max-age=3600"@,
            None => sheet == Err::<StyleSheet, u16>(asset_unavailable()),
        },
{
    match content {
        Some(css) => Ok(
            StyleSheet {
                content_type: "text/css".to_owned(),
                cache_control: "public, max-age=3600".to_owned(),
                body: css,
            },
        ),
        None => Err(500),
    }
}

} // verus!
