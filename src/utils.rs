//! Password digests, form feedback and template pages.
use sha2::{Digest, Sha256};
use vstd::prelude::*;

use crate::reply::Reply;
use crate::text::{hex_of, to_hex};

verus! {

/// The SHA-256 digest of `data`.
pub uninterp spec fn sha256_of(data: Seq<u8>) -> Seq<u8>;

/// Relies on sha2's `Sha256::digest`: the 32-byte SHA-256 digest of the
/// input, which depends on the input alone.
#[verifier::external_body]
fn sha256_digest(data: &[u8]) -> (r: Vec<u8>)
    ensures
        r@ == sha256_of(data@),
        r@.len() == 32,
{
    Sha256::digest(data).to_vec()
}

/// The SHA-256 digest of `bytes` in lower-case hexadecimal.
pub fn sha256_str(bytes: &[u8]) -> (r: String)
    ensures
        r@ == hex_of(sha256_of(bytes@)),
        r@.len() == 64,
{
    let digest = sha256_digest(bytes);
    proof {
        lemma_hex_len(digest@);
    }
    to_hex(digest.as_slice())
}

proof fn lemma_hex_len(bytes: Seq<u8>)
    ensures
        hex_of(bytes).len() == 2 * bytes.len(),
    decreases bytes.len(),
{
    if bytes.len() > 0 {
        lemma_hex_len(bytes.drop_last());
    }
}

/// The attributes of a success message: styled, and reloading the page.
pub open spec fn success_attrs() -> Seq<char> {
    "class=\"form-msg form-msg--success\" hx-on:htmx:load=\"location.reload()\""@
}

/// The attributes of an error message.
pub open spec fn error_attrs() -> Seq<char> {
    "class=\"form-msg form-msg--error\""@
}

/// The `div` that shows a form's feedback `msg`.
pub open spec fn form_message_html(success: bool, msg: Seq<char>) -> Seq<char> {
    "<div "@ + (if success {
        success_attrs()
    } else {
        error_attrs()
    }) + ">"@ + msg + "</div>"@
}

/// Feedback on a submitted form.
pub enum FormMessage<'a> {
    Success(&'a str),
    Failure(&'a str),
}

impl<'a> FormMessage<'a> {
    pub open spec fn is_success(&self) -> bool {
        self is Success
    }

    pub open spec fn text(&self) -> Seq<char> {
        match self {
            FormMessage::Success(m) => m@,
            FormMessage::Failure(m) => m@,
        }
    }

    /// The message as an HTML fragment.
    pub fn to_html(&self) -> (r: String)
        ensures
            r@ == form_message_html(self.is_success(), self.text()),
    {
        let (attrs, msg) = match self {
            FormMessage::Success(m) => (
                "class=\"form-msg form-msg--success\" hx-on:htmx:load=\"location.reload()\"",
                *m,
            ),
            FormMessage::Failure(m) => ("class=\"form-msg form-msg--error\"", *m),
        };
        String::from_str("<div ").concat(attrs).concat(">").concat(msg).concat("</div>")
    }

    /// The reply that shows the message.
    pub fn reply(&self) -> (r: Reply)
        ensures
            r.is_html(200, form_message_html(self.is_success(), self.text())),
    {
        Reply::Html { status: 200, body: self.to_html() }
    }
}

/// The text of the reply to a template that failed to render.
pub open spec fn render_failure_text(err: Seq<char>) -> Seq<char> {
    "Failed to render template. Error: "@ + err
}

/// A page made from a template.
pub struct HtmlTemplate<T>(pub T);

impl<T> HtmlTemplate<T> {
    /// The reply to the page, given what rendering its template gave: the
    /// HTML, or a server error that quotes the rendering error.
    pub fn reply(&self, rendered: Result<String, String>) -> (r: Reply)
        ensures
            match rendered {
                Ok(html) => r.is_html(200, html@),
                Err(e) => r.is_text(500, render_failure_text(e@)),
            },
    {
        match rendered {
            Ok(html) => Reply::Html { status: 200, body: html },
            Err(e) => Reply::Text {
                status: 500,
                body: String::from_str("Failed to render template. Error: ").concat(e.as_str()),
            },
        }
    }
}

} // verus!
