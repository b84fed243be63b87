//! What a request is answered with, before the web framework renders it.
use vstd::prelude::*;

verus! {

/// A response: its status code and body.
pub enum Reply {
    /// An HTML page or fragment.
    Html { status: u16, body: String },
    /// Plain text.
    Text { status: u16, body: String },
    /// A file, with its media type.
    File { content_type: String, data: Vec<u8> },
}

impl Reply {
    /// The status code.
    pub open spec fn status_spec(&self) -> u16 {
        match self {
            Reply::Html { status, .. } => *status,
            Reply::Text { status, .. } => *status,
            Reply::File { .. } => 200,
        }
    }

    /// The status code of the response.
    pub fn status(&self) -> (r: u16)
        ensures
            r == self.status_spec(),
    {
        match self {
            Reply::Html { status, .. } => *status,
            Reply::Text { status, .. } => *status,
            Reply::File { .. } => 200,
        }
    }

    /// Whether the reply is an HTML page with `status` and the text `body`.
    pub open spec fn is_html(&self, status: u16, body: Seq<char>) -> bool {
        self matches Reply::Html { status: s, body: b } && s == status && b@ == body
    }

    /// Whether the reply is plain text with `status` and the text `body`.
    pub open spec fn is_text(&self, status: u16, body: Seq<char>) -> bool {
        self matches Reply::Text { status: s, body: b } && s == status && b@ == body
    }
}

} // verus!
