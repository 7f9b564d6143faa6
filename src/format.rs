//! Recognition of document types by file extension.

use crate::error::ReaderError;
use crate::text::same_text;
use std::path::Path;
use vstd::prelude::*;

verus! {

/// A supported document type.
#[derive(Clone, Copy, Debug, PartialEq, Eq, Structural)]
pub enum DocumentFormat {
    /// Paginated vector documents, rasterized page by page.
    Pdf,
    /// Reflowable e-books, read by chapter rather than rasterized.
    Epub,
}

/// The extension of the final component of a path, empty where it has none.
pub uninterp spec fn extension_of(path: Seq<char>) -> Seq<char>;

/// The lowercase form of a string.
pub uninterp spec fn lowercase_of(s: Seq<char>) -> Seq<char>;

/// The document type named by a lowercase extension.
pub open spec fn format_of_extension(ext: Seq<char>) -> Option<DocumentFormat> {
    if ext == "pdf"@ {
        Some(DocumentFormat::Pdf)
    } else if ext == "epub"@ {
        Some(DocumentFormat::Epub)
    } else {
        None
    }
}

/// The document type of the file at `path`.
pub open spec fn format_of_path(path: Seq<char>) -> Option<DocumentFormat> {
    format_of_extension(lowercase_of(extension_of(path)))
}

/// Relies on `std::path::Path::extension`: the extension of the path's final
/// component, taken as text; empty where there is none or it is not UTF-8.
#[verifier::external_body]
fn path_extension(path: &str) -> (r: String)
    ensures
        r@ == extension_of(path@),
{
    Path::new(path).extension().and_then(|e| e.to_str()).unwrap_or("").to_string()
}

/// Relies on `str::to_lowercase`: the lowercase form, a function of the text alone.
#[verifier::external_body]
fn lowercase(s: &str) -> (r: String)
    ensures
        r@ == lowercase_of(s@),
{
    s.to_lowercase()
}

/// The document type named by a lowercase extension.
pub fn format_for_extension(ext: &str) -> (r: Option<DocumentFormat>)
    ensures
        r == format_of_extension(ext@),
{
    if same_text(ext, "pdf") {
        Some(DocumentFormat::Pdf)
    } else if same_text(ext, "epub") {
        Some(DocumentFormat::Epub)
    } else {
        None
    }
}

/// The document type of the file at `path`, judged by its extension in any
/// letter case.
pub fn document_format(path: &str) -> (r: Result<DocumentFormat, ReaderError>)
    ensures
        r == match format_of_path(path@) {
            Some(f) => Ok(f),
            None => Err::<DocumentFormat, ReaderError>(ReaderError::UnsupportedFormat),
        },
{
    let ext = path_extension(path);
    let lower = lowercase(ext.as_str());
    match format_for_extension(lower.as_str()) {
        Some(f) => Ok(f),
        None => Err(ReaderError::UnsupportedFormat),
    }
}

} // verus!
