//! Static files served under `/assets`.
use vstd::prelude::*;

use crate::reply::Reply;

verus! {

/// The media type that the file name `path` suggests, `application/octet-stream`
/// where it suggests none.
pub uninterp spec fn mime_of_path(path: Seq<char>) -> Seq<char>;

/// Relies on mime_guess's `from_path` and `MimeGuess::first_or_octet_stream`:
/// the media type from the path's extension, which depends on the path alone.
#[verifier::external_body]
fn guess_mime(path: &str) -> (r: String)
    ensures
        r@ == mime_of_path(path@),
{
    mime_guess::from_path(path).first_or_octet_stream().to_string()
}

/// A request for the static file at a path.
pub struct StaticAsset<T>(pub T);

impl StaticAsset<String> {
    /// The reply, given the file's contents (`None` where there is no such
    /// file): the contents with the media type the path suggests, or a 404.
    pub fn reply(&self, data: Option<Vec<u8>>) -> (r: Reply)
        ensures
            match data {
                Some(d) => r matches Reply::File { content_type, data: body } && content_type@
                    == mime_of_path(self.0@) && body@ == d@,
                None => r.is_text(404, "404 Not Found"@),
            },
    {
        match data {
            Some(d) => Reply::File { content_type: guess_mime(self.0.as_str()), data: d },
            None => Reply::Text { status: 404, body: String::from_str("404 Not Found") },
        }
    }
}

} // verus!
