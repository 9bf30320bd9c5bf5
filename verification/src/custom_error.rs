//! The error type shared by every layer of the relay.
//!
//! An [`Error`] carries a kind tag, the status a backend answered with (when
//! one did), and the messages of the failure that caused it: the failure
//! itself first, then each underlying cause in turn.

use vstd::prelude::*;

verus! {

/// The classes of failure the relay distinguishes.
#[derive(Clone, Copy, Debug, PartialEq, Eq, Structural)]
pub enum ErrorKind {
    /// No object exists under the requested name.
    NotFound,
    /// The backend could not be reached, refused the operation, or answered
    /// with a status that is not a success.
    StorageError,
    /// The inbound request is malformed, for instance it names no file.
    BadRequest,
    /// Reading or writing the byte stream failed locally.
    IOError,
}

/// The mathematical content of an [`Error`].
pub struct ErrorView {
    pub kind: ErrorKind,
    pub backend_status: Option<u16>,
    /// Messages of the wrapped cause, outermost first; empty when the error
    /// wraps no cause.
    pub chain: Seq<Seq<char>>,
}

/// The text that introduces every cause after the first in a report.
pub open spec fn caused_by() -> Seq<char> {
    "\nCaused by:\n\t"@
}

/// The report of a cause chain: the outermost message on a line of its own,
/// then each deeper cause, introduced by a blank line and `Caused by:` and
/// indented by one tab, again ending its line.
pub open spec fn chain_text(chain: Seq<Seq<char>>) -> Seq<char>
    decreases chain.len(),
{
    if chain.len() == 0 {
        Seq::empty()
    } else if chain.len() == 1 {
        chain[0] + "\n"@
    } else {
        chain_text(chain.drop_last()) + caused_by() + chain.last() + "\n"@
    }
}

/// The views of the strings of `v`, in order.
pub open spec fn texts(v: Seq<String>) -> Seq<Seq<char>> {
    Seq::new(v.len(), |i: int| v[i]@)
}

#[derive(Debug)]
pub struct Error {
    kind: ErrorKind,
    backend_status: Option<u16>,
    chain: Vec<String>,
}

impl View for Error {
    type V = ErrorView;

    closed spec fn view(&self) -> ErrorView {
        ErrorView {
            kind: self.kind,
            backend_status: self.backend_status,
            chain: texts(self.chain@),
        }
    }
}

impl Error {
    /// An error of the given kind that wraps no cause.
    pub fn new(kind: ErrorKind) -> (e: Error)
        ensures
            e@ == (ErrorView { kind, backend_status: None, chain: Seq::empty() }),
    {
        let e = Error { kind, backend_status: None, chain: Vec::new() };
        assert(e@.chain =~= Seq::empty());
        e
    }

    /// An error of the given kind that wraps a failure: `message` is what the
    /// failure says of itself, `sources` what each of its underlying causes
    /// says, nearest first.
    pub fn new_from_err(kind: ErrorKind, message: String, sources: Vec<String>) -> (e: Error)
        ensures
            e@ == (ErrorView {
                kind,
                backend_status: None,
                chain: seq![message@] + texts(sources@),
            }),
    {
        let mut chain: Vec<String> = Vec::new();
        chain.push(message);
        let mut sources = sources;
        let ghost back = sources@;
        chain.append(&mut sources);
        let e = Error { kind, backend_status: None, chain };
        assert(e@.chain =~= seq![message@] + texts(back));
        e
    }

    /// The storage error for a backend that answered with `status` instead of
    /// a success.
    pub fn from_backend_status(status: u16) -> (e: Error)
        ensures
            e@ == (ErrorView {
                kind: ErrorKind::StorageError,
                backend_status: Some(status),
                chain: Seq::empty(),
            }),
    {
        let e = Error {
            kind: ErrorKind::StorageError,
            backend_status: Some(status),
            chain: Vec::new(),
        };
        assert(e@.chain =~= Seq::empty());
        e
    }

    /// The same failure, filed under another kind.
    pub fn with_kind(self, kind: ErrorKind) -> (e: Error)
        ensures
            e@ == (ErrorView { kind, ..self@ }),
    {
        Error { kind, backend_status: self.backend_status, chain: self.chain }
    }

    pub fn kind(&self) -> (kind: ErrorKind)
        ensures
            kind == self@.kind,
    {
        self.kind
    }

    pub fn backend_status(&self) -> (status: Option<u16>)
        ensures
            status == self@.backend_status,
    {
        self.backend_status
    }

    /// The messages of the wrapped cause, outermost first.
    pub fn chain(&self) -> (chain: &Vec<String>)
        ensures
            texts(chain@) == self@.chain,
    {
        &self.chain
    }

    /// What the error says to a user: the same words for every error, so that
    /// nothing of the failure's detail is disclosed.
    pub fn message(&self) -> (text: String)
        ensures
            text@ == "bad error"@,
    {
        "bad error".to_owned()
    }

    /// What the error says to an operator: the report of its cause chain.
    pub fn report(&self) -> (text: String)
        ensures
            text@ == chain_text(self@.chain),
    {
        let mut text = String::new();
        let mut i: usize = 0;
        while i < self.chain.len()
            invariant
                i <= self.chain.len(),
                text@ == chain_text(texts(self.chain@).take(i as int)),
            decreases self.chain.len() - i,
        {
            let ghost before = texts(self.chain@).take(i as int);
            let ghost after = texts(self.chain@).take(i + 1);
            assert(after.drop_last() =~= before);
            assert(after.last() == self.chain@[i as int]@);
            if i > 0 {
                text.append("\nCaused by:\n\t");
            }
            text.append(self.chain[i].as_str());
            text.append("\n");
            i = i + 1;
        }
        assert(texts(self.chain@).take(i as int) =~= texts(self.chain@));
        text
    }
}

} // verus!
