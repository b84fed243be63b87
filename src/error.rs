//! Errors that end a request.
use vstd::prelude::*;

use crate::reply::Reply;

verus! {

/// Why a request failed.
pub enum FunkyError {
    /// The database failed; the text describes how.
    DatabaseError(String),
    /// The requester may not do this.
    Unauthorized,
}

impl FunkyError {
    /// The full description, for the logs.
    pub fn describe(&self) -> (r: String)
        ensures
            match self {
                FunkyError::DatabaseError(e) => r@ == "An error occured with the database: "@ + e@,
                FunkyError::Unauthorized => r@ == "You are not allowed to do this"@,
            },
    {
        match self {
            FunkyError::DatabaseError(e) => String::from_str(
                "An error occured with the database: ",
            ).concat(e.as_str()),
            FunkyError::Unauthorized => String::from_str("You are not allowed to do this"),
        }
    }

    /// The reply: the database's details stay on the server.
    pub fn reply(&self) -> (r: Reply)
        ensures
            match self {
                FunkyError::DatabaseError(_) => r.is_text(500, "The server encountered an error"@),
                FunkyError::Unauthorized => r.is_text(401, "You are not authorized to do this"@),
            },
    {
        match self {
            FunkyError::DatabaseError(_) => Reply::Text {
                status: 500,
                body: String::from_str("The server encountered an error"),
            },
            FunkyError::Unauthorized => Reply::Text {
                status: 401,
                body: String::from_str("You are not authorized to do this"),
            },
        }
    }
}

} // verus!
