//! The file-backed sentinel store: the sentinel as text in one file.
//!
//! The file holds the sentinel's canonical text, nothing else; it is fully
//! rewritten on every commit; an empty file means "no sentinel yet".  The
//! raw reads and writes go through a [`Runtime`] supplied by the hosting
//! environment; everything around them — the text convention and the
//! store's contract — is verified here.

use vstd::prelude::*;

use crate::runtime::Runtime;
use crate::store::decimal::DecimalParseError;
use crate::store::decimal::decimal_to_u64;
use crate::store::decimal::lemma_u64_string_props;
use crate::store::decimal::u64_string;
use crate::store::decimal::u64_to_decimal;
use crate::store::SentinelStore;

verus! {

/// A sentinel that can be stored in a file as text.
///
/// `spec_encoded` is the sentinel's canonical text; `encode` writes it and
/// `decode` accepts it and nothing else, so that what was committed is what
/// a later read reports.  The two lemmas are the laws the convention rests
/// on: no two sentinels share a text, and no sentinel's text is empty (the
/// empty file is reserved for "no sentinel yet").
pub trait FileStorableSentinel: Sized {
    type ParseErr;

    /// The canonical text of this sentinel.
    spec fn spec_encoded(&self) -> Seq<char>;

    /// No two sentinels share their canonical text.
    proof fn lemma_encoding_injective(a: Self, b: Self)
        ensures
            a.spec_encoded() == b.spec_encoded() ==> a == b,
    ;

    /// No sentinel's canonical text is empty.
    proof fn lemma_encoding_nonempty(a: Self)
        ensures
            a.spec_encoded().len() > 0,
    ;

    /// Writes the canonical text.
    fn encode(&self) -> (s: String)
        ensures
            s@ == self.spec_encoded(),
    ;

    /// Reads a sentinel back from its canonical text; rejects every other
    /// text.
    fn decode(text: &str) -> (r: Result<Self, Self::ParseErr>)
        ensures
            r matches Ok(v) ==> text@ == v.spec_encoded(),
            r is Err ==> forall|v: Self| text@ != #[trigger] v.spec_encoded(),
    ;
}

impl FileStorableSentinel for u64 {
    type ParseErr = DecimalParseError;

    open spec fn spec_encoded(&self) -> Seq<char> {
        u64_string(*self as nat)
    }

    proof fn lemma_encoding_injective(a: u64, b: u64) {
        lemma_u64_string_props(a as nat);
        lemma_u64_string_props(b as nat);
    }

    proof fn lemma_encoding_nonempty(a: u64) {
        lemma_u64_string_props(a as nat);
    }

    fn encode(&self) -> (s: String) {
        u64_to_decimal(*self)
    }

    fn decode(text: &str) -> (r: Result<u64, DecimalParseError>) {
        decimal_to_u64(text)
    }
}

/// Why the file-backed store failed: the text in the file was no sentinel,
/// or the filesystem itself failed.
#[derive(Debug)]
pub enum FileStorageError<ParseErr, IoErr> {
    Parse(ParseErr),
    Filesystem(IoErr),
}

/// The sentinel a file's text denotes: `None` for text that encodes no
/// sentinel (in particular the empty text), otherwise the unique sentinel
/// whose canonical text it is.
pub open spec fn stored_of<Sentinel: FileStorableSentinel>(text: Seq<char>) -> Option<Sentinel> {
    if exists|v: Sentinel| #[trigger] v.spec_encoded() == text {
        Some(choose|v: Sentinel| #[trigger] v.spec_encoded() == text)
    } else {
        None
    }
}

/// Stores the sentinel as text in one file of runtime `R`.
pub struct FileSentinelStore<R: Runtime> {
    file: R::File,
}

impl<Sentinel: FileStorableSentinel, R: Runtime> SentinelStore<Sentinel> for FileSentinelStore<
    R,
> {
    type Err = FileStorageError<Sentinel::ParseErr, R::Err>;

    open spec fn sentinel(&self) -> Option<Sentinel> {
        stored_of(self.text())
    }

    /// A read reports the file's text faithfully: a parse error comes
    /// exactly from nonempty text that encodes no sentinel — never from an
    /// empty file — and such text is never reported as a sentinel or as
    /// "none", so a parse failure is not silently swallowed.  Only the
    /// filesystem's own failures are unconstrained.
    open spec fn read_produced(&self, r: Result<Option<Sentinel>, Self::Err>) -> bool {
        match r {
            Ok(_) => !(self.text().len() > 0 && stored_of::<Sentinel>(self.text()) is None),
            Err(FileStorageError::Parse(_)) => self.text().len() > 0 && stored_of::<Sentinel>(
                self.text(),
            ) is None,
            Err(FileStorageError::Filesystem(_)) => true,
        }
    }

    /// A commit failure is a filesystem failure, never a parse failure:
    /// committing only writes, it never parses.
    open spec fn commit_produced(&self, sentinel: Sentinel, r: Result<(), Self::Err>) -> bool {
        !(r matches Err(FileStorageError::Parse(_)))
    }

    fn current(&self) -> (r: Result<Option<Sentinel>, Self::Err>) {
        let text = match R::read_string(&self.file) {
            Ok(text) => text,
            Err(io_err) => return Err(FileStorageError::Filesystem(io_err)),
        };
        if text.as_str().unicode_len() == 0 {
            proof {
                if exists|v: Sentinel| #[trigger] v.spec_encoded() == text@ {
                    let v = choose|v: Sentinel| #[trigger] v.spec_encoded() == text@;
                    Sentinel::lemma_encoding_nonempty(v);
                }
            }
            return Ok(None);
        }
        match Sentinel::decode(text.as_str()) {
            Ok(v) => {
                proof {
                    let w = choose|w: Sentinel| #[trigger] w.spec_encoded() == text@;
                    Sentinel::lemma_encoding_injective(w, v);
                }
                Ok(Some(v))
            },
            Err(parse_err) => {
                proof {
                    if exists|v: Sentinel| #[trigger] v.spec_encoded() == text@ {
                        let v = choose|v: Sentinel| #[trigger] v.spec_encoded() == text@;
                        assert(text@ != v.spec_encoded());
                    }
                }
                Err(FileStorageError::Parse(parse_err))
            },
        }
    }

    fn commit(&mut self, sentinel: Sentinel) -> (r: Result<(), Self::Err>) {
        let text = sentinel.encode();
        match R::write_str(&mut self.file, text.as_str()) {
            Ok(_) => {
                proof {
                    let w = choose|w: Sentinel| #[trigger] w.spec_encoded() == sentinel.spec_encoded();
                    Sentinel::lemma_encoding_injective(w, sentinel);
                }
                Ok(())
            },
            Err(io_err) => Err(FileStorageError::Filesystem(io_err)),
        }
    }
}

impl<R: Runtime> FileSentinelStore<R> {
    /// The text of the store's file, as the runtime models it.
    pub closed spec fn text(&self) -> Seq<char> {
        R::file_text(&self.file)
    }

    /// Opens (creating if needed) the sentinel file at `file_path`.  What
    /// the store then holds is whatever sentinel the file's text denotes;
    /// nothing more can be promised of a freshly opened file.
    pub fn open(file_path: &str) -> (r: Result<Self, R::Err>) {
        match R::open_file(file_path) {
            Ok(file) => Ok(Self { file }),
            Err(io_err) => Err(io_err),
        }
    }
}

} // verus!
