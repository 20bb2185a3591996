use vstd::prelude::*;

verus! {

/// The application's error, each kind with its message.
#[derive(Debug, Clone)]
pub enum OsmpError {
    Database(String),
    Io(String),
    Audio(String),
    Metadata(String),
    LockPoisoned(String),
    NotFound(String),
}

/// The text shown for an error: a prefix naming its kind, then its message.
pub open spec fn error_text(e: OsmpError) -> Seq<char> {
    match e {
        OsmpError::Database(m) => "Database error: "@ + m@,
        OsmpError::Io(m) => "I/O error: "@ + m@,
        OsmpError::Audio(m) => "Audio error: "@ + m@,
        OsmpError::Metadata(m) => "Metadata error: "@ + m@,
        OsmpError::LockPoisoned(m) => "Lock error: "@ + m@,
        OsmpError::NotFound(m) => "Not found: "@ + m@,
    }
}

impl OsmpError {
    /// The text shown for this error.
    pub fn message(&self) -> (r: String)
        ensures
            r@ == error_text(*self),
    {
        let (prefix, m) = match self {
            OsmpError::Database(m) => ("Database error: ", m),
            OsmpError::Io(m) => ("I/O error: ", m),
            OsmpError::Audio(m) => ("Audio error: ", m),
            OsmpError::Metadata(m) => ("Metadata error: ", m),
            OsmpError::LockPoisoned(m) => ("Lock error: ", m),
            OsmpError::NotFound(m) => ("Not found: ", m),
        };
        String::from_str(prefix).concat(m.as_str())
    }
}

} // verus!
