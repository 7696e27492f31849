use vstd::prelude::*;

verus! {

/// The I/O error type of the standard library, carried unchanged inside
/// [`Error::Io`].
#[verifier::external_type_specification]
#[verifier::external_body]
pub struct ExIoError(std::io::Error);

/// Every failure the library reports.
#[derive(Debug)]
pub enum Error {
    Io(std::io::Error),
    Parse(String),
    Container(String),
    Lexer(String),
    Export(String),
    Import(String),
    Security(String),
    SvgPath(String),
    Pdf(String),
    Zstd(String),
    Metadata(String),
    Icc(String),
    Unsupported(String),
}

/// Which variant an [`Error`] is, without its payload.
#[derive(Debug, Clone, Copy, PartialEq, Eq, Structural)]
pub enum ErrorKind {
    Io,
    Parse,
    Container,
    Lexer,
    Export,
    Import,
    Security,
    SvgPath,
    Pdf,
    Zstd,
    Metadata,
    Icc,
    Unsupported,
}

impl Error {
    pub open spec fn kind(&self) -> ErrorKind {
        match self {
            Error::Io(_) => ErrorKind::Io,
            Error::Parse(_) => ErrorKind::Parse,
            Error::Container(_) => ErrorKind::Container,
            Error::Lexer(_) => ErrorKind::Lexer,
            Error::Export(_) => ErrorKind::Export,
            Error::Import(_) => ErrorKind::Import,
            Error::Security(_) => ErrorKind::Security,
            Error::SvgPath(_) => ErrorKind::SvgPath,
            Error::Pdf(_) => ErrorKind::Pdf,
            Error::Zstd(_) => ErrorKind::Zstd,
            Error::Metadata(_) => ErrorKind::Metadata,
            Error::Icc(_) => ErrorKind::Icc,
            Error::Unsupported(_) => ErrorKind::Unsupported,
        }
    }
}

impl Error {
    /// The message an error carries as text (all but an I/O error do).
    pub open spec fn message(&self) -> Option<Seq<char>> {
        match self {
            Error::Io(_) => None,
            Error::Parse(m) => Some(m@),
            Error::Container(m) => Some(m@),
            Error::Lexer(m) => Some(m@),
            Error::Export(m) => Some(m@),
            Error::Import(m) => Some(m@),
            Error::Security(m) => Some(m@),
            Error::SvgPath(m) => Some(m@),
            Error::Pdf(m) => Some(m@),
            Error::Zstd(m) => Some(m@),
            Error::Metadata(m) => Some(m@),
            Error::Icc(m) => Some(m@),
            Error::Unsupported(m) => Some(m@),
        }
    }
}

/// A failure as a mathematical value: its kind, and its message where the
/// library writes the whole of it (`None` where the message is, or holds,
/// what an outside library reports).
pub struct Failure {
    pub kind: ErrorKind,
    pub message: Option<Seq<char>>,
}

/// A failure of `kind` with the message `m`.
pub open spec fn failure(kind: ErrorKind, m: Seq<char>) -> Failure {
    Failure { kind, message: Some(m) }
}

/// A failure of `kind` whose message is, or holds, an outside library's.
pub open spec fn outside_failure(kind: ErrorKind) -> Failure {
    Failure { kind, message: None }
}

/// `r` is the outcome that `o` describes: the same text, or an error of the
/// same kind, with the same message where `o` states one.
pub open spec fn outcome_is(r: std::result::Result<String, Error>, o: std::result::Result<Seq<char>, Failure>) -> bool {
    match r {
        Ok(s) => o == std::result::Result::<Seq<char>, Failure>::Ok(s@),
        Err(e) => o matches Err(f) && e.kind() == f.kind && (f.message matches Some(m) ==> e.message() == Some(m)),
    }
}

pub type Result<T> = std::result::Result<T, Error>;

} // verus!
