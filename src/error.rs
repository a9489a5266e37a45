use vstd::prelude::*;
use vstd::string::*;

verus! {

/// What went wrong in a request to the server or in reading the user's input.
#[derive(Debug, Clone)]
pub enum AppError {
    Connection(String),
    Query(String),
    Io(String),
    Mongo(String),
    Serialization(String),
    InvalidInput(String),
}

impl AppError {
    /// The message shown for this error.
    pub open spec fn text(&self) -> Seq<char> {
        match self {
            AppError::Connection(s) => "Connection error: "@ + s@,
            AppError::Query(s) => "Query error: "@ + s@,
            AppError::Io(s) => "IO error: "@ + s@,
            AppError::Mongo(s) => "MongoDB error: "@ + s@,
            AppError::Serialization(s) => "Serialization error: "@ + s@,
            AppError::InvalidInput(s) => "Invalid input: "@ + s@,
        }
    }

    pub fn message(&self) -> (r: String)
        ensures
            r@ == self.text(),
    {
        let (head, detail) = match self {
            AppError::Connection(s) => ("Connection error: ", s),
            AppError::Query(s) => ("Query error: ", s),
            AppError::Io(s) => ("IO error: ", s),
            AppError::Mongo(s) => ("MongoDB error: ", s),
            AppError::Serialization(s) => ("Serialization error: ", s),
            AppError::InvalidInput(s) => ("Invalid input: ", s),
        };
        let mut r = String::from_str(head);
        r.append(detail.as_str());
        r
    }
}

/// `head` followed by the message of `e`.
pub fn with_context(head: &str, e: &AppError) -> (r: String)
    ensures
        r@ == head@ + e.text(),
{
    let mut r = String::from_str(head);
    r.append(e.message().as_str());
    r
}

} // verus!
