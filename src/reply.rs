use vstd::prelude::*;

use crate::form::FormError;

verus! {

/// Status of a reply that carries the rendered text.
pub const STATUS_OK: u16 = 200;

/// Status of a reply to a form that names no single item.
pub const STATUS_UNPROCESSABLE: u16 = 422;

/// Status of a reply to a request whose rendering failed.
pub const STATUS_INTERNAL_ERROR: u16 = 500;

/// What is sent back for one request: a status, whether the body is HTML
/// (otherwise plain text), and the body.
pub struct Reply {
    pub status: u16,
    pub html: bool,
    pub body: String,
}

/// The status sent for a render outcome.
pub open spec fn render_status(rendered: Result<Seq<char>, Seq<char>>) -> u16 {
    match rendered {
        Ok(_) => STATUS_OK,
        Err(_) => STATUS_INTERNAL_ERROR,
    }
}

/// The body sent for a render outcome: the rendered text, or a message that
/// embeds the renderer's description of its failure.
pub open spec fn render_body(rendered: Result<Seq<char>, Seq<char>>) -> Seq<char> {
    match rendered {
        Ok(text) => text,
        Err(description) => "Failed to render template. Error: "@ + description,
    }
}

/// The views of a render outcome.
pub open spec fn outcome_view(rendered: Result<String, String>) -> Result<Seq<char>, Seq<char>> {
    match rendered {
        Ok(text) => Ok(text@),
        Err(description) => Err(description@),
    }
}

/// Turns the outcome of rendering a view into the reply: the text as HTML with
/// a success status, or an internal-failure status with the error described.
pub fn render_reply(rendered: Result<String, String>) -> (r: Reply)
    ensures
        r.status == render_status(outcome_view(rendered)),
        r.html == rendered is Ok,
        r.body@ == render_body(outcome_view(rendered)),
{
    match rendered {
        Ok(text) => Reply { status: STATUS_OK, html: true, body: text },
        Err(description) => {
            let mut body = String::from_str("Failed to render template. Error: ");
            body.append(description.as_str());
            Reply { status: STATUS_INTERNAL_ERROR, html: false, body }
        },
    }
}

/// The reply to a form that names no single item: a client failure, with the
/// reason in plain text.
pub fn malformed_reply(e: FormError) -> (r: Reply)
    ensures
        r.status == STATUS_UNPROCESSABLE,
        !r.html,
        r.body@ == "Failed to deserialize form body: "@ + match e {
            FormError::MissingField => "missing field `todo`"@,
            FormError::DuplicateField => "duplicate field `todo`"@,
        },
{
    let mut body = String::from_str("Failed to deserialize form body: ");
    let reason = e.message();
    body.append(reason.as_str());
    Reply { status: STATUS_UNPROCESSABLE, html: false, body }
}

} // verus!
