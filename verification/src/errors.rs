//! What can go wrong while a query is built, and after its rows came back.

use vstd::prelude::*;
use vstd::string::StringExecFns;

verus! {

/// A query could not be built. None of these is worth a retry: the request
/// has to change.
#[derive(Debug)]
pub enum QueryBuildingError {
    /// The backend lacks the feature that was asked for.
    NotImplemented(String),
    /// A value could not be rendered.
    SqlSerializeError,
    /// The clauses do not make a query.
    InvalidQuery(&'static str),
}

/// The rows could not be arranged into a series.
#[derive(Debug, Clone, Copy, PartialEq, Eq, Structural)]
pub enum PostProcessingError {
    /// A time could not be moved to a boundary of its bucket.
    BucketClipping,
}

pub type QueryResult<T> = Result<T, QueryBuildingError>;

/// The reason given when a query selects nothing.
pub open spec fn no_select_fields() -> Seq<char> {
    "no select fields provided"@
}

impl QueryBuildingError {
    /// The message of the error.
    pub open spec fn message(self) -> Seq<char> {
        match self {
            QueryBuildingError::NotImplemented(what) => "Not Implemented: "@ + what@,
            QueryBuildingError::SqlSerializeError => "Failed to Serialize to SQL"@,
            QueryBuildingError::InvalidQuery(reason) => "Failed to build sql query: "@ + reason@,
        }
    }

    pub fn to_string(&self) -> (message: String)
        ensures
            message@ == self.message(),
    {
        match self {
            QueryBuildingError::NotImplemented(what) => {
                let mut message = String::from_str("Not Implemented: ");
                message.append(what.as_str());
                message
            },
            QueryBuildingError::SqlSerializeError => String::from_str("Failed to Serialize to SQL"),
            QueryBuildingError::InvalidQuery(reason) => {
                let mut message = String::from_str("Failed to build sql query: ");
                message.append(reason);
                message
            },
        }
    }
}

impl PostProcessingError {
    /// The message of the error.
    pub open spec fn message(self) -> Seq<char> {
        "Error Clipping values to bucket sizes"@
    }

    pub fn to_string(&self) -> (message: String)
        ensures
            message@ == self.message(),
    {
        String::from_str("Error Clipping values to bucket sizes")
    }
}

} // verus!
