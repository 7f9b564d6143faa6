//! Errors of the reading pipeline.

use vstd::prelude::*;

verus! {

/// Why an operation of the reading pipeline failed.
#[derive(Clone, Copy, Debug, PartialEq, Eq, Structural)]
pub enum ReaderError {
    /// The document file could not be read.
    Io,
    /// The file's extension names no supported document type.
    UnsupportedFormat,
    /// The document decoder rejected the file's bytes.
    Decode,
    /// A page was asked for while no document is open.
    NoActiveDocument,
    /// The page index lies outside `[0, page count)`.
    PageOutOfRange,
    /// The decoder could not load a page whose index is in range.
    PageNotFound,
    /// The decoder failed while rendering a page.
    Render,
    /// The scale gives a target width that is zero or too large to render.
    ScaleOutOfRange,
    /// The pixel buffer does not fit its dimensions, or compression failed.
    Encode,
}

impl ReaderError {
    /// A short human-readable description of the error.
    pub fn describe(&self) -> (r: &'static str) {
        match self {
            ReaderError::Io => "document could not be read",
            ReaderError::UnsupportedFormat => "unsupported document format",
            ReaderError::Decode => "document could not be decoded",
            ReaderError::NoActiveDocument => "no document is open",
            ReaderError::PageOutOfRange => "page index out of range",
            ReaderError::PageNotFound => "page not found",
            ReaderError::Render => "page could not be rendered",
            ReaderError::ScaleOutOfRange => "scale out of range",
            ReaderError::Encode => "page image could not be encoded",
        }
    }
}

} // verus!
