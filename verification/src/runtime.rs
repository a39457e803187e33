//! An abstraction over hosting runtimes, so they can be swappable.
//!
//! The library itself performs no I/O and never sleeps: both are supplied by
//! the hosting environment through this interface.  The spec function
//! `file_text` models what an open file currently holds; the contracts on
//! `read_string` and `write_str` are the obligations an implementation
//! takes on (read reports the whole content; a successful write replaces it
//! entirely, a failed write leaves it standing, so that commits stay
//! all-or-nothing from the caller's perspective).

use vstd::prelude::*;

verus! {

/// What the library needs from a hosting runtime: an openable text file and
/// a way to wait.  Implemented outside the library (for instance over a
/// blocking file API and a timer); unverified implementations are trusted
/// to meet the contracts below.
pub trait Runtime {
    type File;

    type Err;

    /// The text the open file currently holds.  An implementation may
    /// leave the default, which pins no text and so promises nothing
    /// through the contracts below.
    open spec fn file_text(file: &Self::File) -> Seq<char> {
        arbitrary()
    }

    /// Opens the file at `path` for reading and writing, creating it empty
    /// when it does not exist yet.
    fn open_file(path: &str) -> (r: Result<Self::File, Self::Err>);

    /// Reads the whole file as text.
    fn read_string(file: &Self::File) -> (r: Result<String, Self::Err>)
        ensures
            r matches Ok(s) ==> s@ == Self::file_text(file),
    ;

    /// Replaces the whole file's content with `text`.  On failure the old
    /// content still stands.
    fn write_str(file: &mut Self::File, text: &str) -> (r: Result<(), Self::Err>)
        ensures
            r is Ok ==> Self::file_text(final(file)) == text@,
            r is Err ==> Self::file_text(final(file)) == Self::file_text(old(file)),
    ;

    /// Waits for the given number of seconds.
    fn sleep(seconds: u64);
}

} // verus!
