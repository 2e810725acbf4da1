//! The shared append buffer: the write sink that the diagnostic renderer
//! fills fragment by fragment, and that the error-artifact builder reads back
//! as a single string once rendering is complete.
//!
//! Rendering is single-threaded and sequential, so the buffer is an owned
//! string handed to the renderer by exclusive mutable reference; no
//! shared-ownership or locking machinery is needed.

use vstd::prelude::*;
use vstd::string::StringExecFns;

verus! {

/// An append-only string buffer with a lifetime of one render call.
pub struct ReportBuffer {
    contents: String,
}

impl View for ReportBuffer {
    type V = Seq<char>;

    closed spec fn view(&self) -> Seq<char> {
        self.contents@
    }
}

impl ReportBuffer {
    /// A fresh, empty buffer.
    pub fn new() -> (r: ReportBuffer)
        ensures
            r@ == Seq::<char>::empty(),
    {
        let r = ReportBuffer { contents: String::new() };
        proof {
            assert(r@ =~= Seq::<char>::empty());
        }
        r
    }

    /// Appends one string fragment; safe to call repeatedly while a render
    /// is in progress.
    pub fn append(&mut self, fragment: &str)
        ensures
            final(self)@ == old(self)@ + fragment@,
    {
        self.contents.append(fragment);
    }

    /// Reads the accumulated contents back as a single owned string,
    /// discarding the buffer.
    pub fn into_string(self) -> (r: String)
        ensures
            r@ == self@,
    {
        self.contents
    }
}

} // verus!
