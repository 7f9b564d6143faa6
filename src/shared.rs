//! The session shared between concurrent callers, behind one lock.

use crate::error::ReaderError;
use crate::session::{page_outcome, Session};
use crate::theme::Theme;
use pdfium_render::prelude::Pdfium;
use vstd::prelude::*;
use vstd::rwlock::{RwLock, RwLockPredicate};

verus! {

/// Every session may be stored in the lock.
pub struct AnySession;

impl<'a> RwLockPredicate<Session<'a>> for AnySession {
    open spec fn inv(self, s: Session<'a>) -> bool {
        true
    }
}

/// A reading session behind a single exclusive lock. Opening a document and
/// rendering a page each hold the lock from start to end, so each call sees
/// one whole state of the session; the lock spins and cannot be poisoned.
pub struct SharedSession<'a> {
    lock: RwLock<Session<'a>, AnySession>,
}

impl<'a> SharedSession<'a> {
    /// A shared session with no document open.
    pub fn new() -> (s: SharedSession<'a>) {
        SharedSession { lock: RwLock::new(Session::new(), Ghost(AnySession)) }
    }

    /// Opens the PDF in `bytes` for reading, as `Session::open_pdf` does, under the lock.
    pub fn open_pdf(&self, pdfium: &'a Pdfium, bytes: Vec<u8>) -> (r: Result<u16, ReaderError>)
        ensures
            r is Err ==> r == Err::<u16, ReaderError>(ReaderError::Decode),
    {
        let (mut session, handle) = self.lock.acquire_write();
        let r = session.open_pdf(pdfium, bytes);
        handle.release_write(session);
        r
    }

    /// The page count of the open document, if any, under the lock.
    pub fn page_count(&self) -> (r: Option<u16>) {
        let (session, handle) = self.lock.acquire_write();
        let r = session.page_count();
        handle.release_write(session);
        r
    }

    /// Renders a page as `Session::rasterize_page` does, under the lock: the
    /// result is that of the request on the session as it stood when the lock
    /// was taken.
    pub fn rasterize_page(&self, page_index: i32, scale_permille: u32, theme: Theme) -> (r: Result<
        String,
        ReaderError,
    >)
        ensures
            exists|page_count: Option<nat>|
                page_outcome(page_count, page_index as int, scale_permille, theme, r),
    {
        let (session, handle) = self.lock.acquire_write();
        let r = session.rasterize_page(page_index, scale_permille, theme);
        proof {
            assert(page_outcome(session.open_page_count(), page_index as int, scale_permille, theme, r));
        }
        handle.release_write(session);
        r
    }
}

} // verus!
