use vstd::prelude::*;
use vstd::string::StringExecFns;

verus! {

/// An HTTP response as the render adapter produces it: a status code, a
/// content type, and a body.
#[derive(Debug)]
pub struct HttpResponse {
    pub status: u16,
    pub content_type: String,
    pub body: String,
}

/// The render outcome with both sides taken as character sequences.
pub open spec fn outcome_view(outcome: Result<String, String>) -> Result<Seq<char>, Seq<char>> {
    match outcome {
        Ok(html) => Ok(html@),
        Err(e) => Err(e@),
    }
}

/// The status the adapter answers with: 200 for a rendered page, 500 for a
/// render failure.
pub open spec fn spec_status_for(outcome: Result<Seq<char>, Seq<char>>) -> int {
    match outcome {
        Ok(_) => 200,
        Err(_) => 500,
    }
}

/// The body the adapter answers with: the rendered markup on success, and
/// on failure `Template error: ` followed by the failure's description.
pub open spec fn spec_body_for(outcome: Result<Seq<char>, Seq<char>>) -> Seq<char> {
    match outcome {
        Ok(html) => html,
        Err(e) => "Template error: "@ + e,
    }
}

/// The content type the adapter answers with: HTML for a rendered page,
/// plain text for a failure diagnostic.
pub open spec fn spec_content_type_for(outcome: Result<Seq<char>, Seq<char>>) -> Seq<char> {
    match outcome {
        Ok(_) => "text/html; charset=utf-8"@,
        Err(_) => "text/plain; charset=utf-8"@,
    }
}

/// `r` is exactly the response the adapter owes for this render outcome.
pub open spec fn response_for(r: HttpResponse, outcome: Result<Seq<char>, Seq<char>>) -> bool {
    &&& r.status == spec_status_for(outcome)
    &&& r.body@ == spec_body_for(outcome)
    &&& r.content_type@ == spec_content_type_for(outcome)
}

/// The render adapter: converts a template engine's outcome into an HTTP
/// response. Success becomes 200 with the markup as an HTML body; failure
/// becomes 500 with a plain-text diagnostic quoting the error's description.
pub fn render_to_response(outcome: Result<String, String>) -> (r: HttpResponse)
    ensures
        response_for(r, outcome_view(outcome)),
{
    match outcome {
        Ok(html) => HttpResponse {
            status: 200,
            content_type: "text/html; charset=utf-8".to_owned(),
            body: html,
        },
        Err(e) => HttpResponse {
            status: 500,
            content_type: "text/plain; charset=utf-8".to_owned(),
            body: "Template error: ".to_owned().concat(e.as_str()),
        },
    }
}

/// Responses carry no hidden state: any two responses that the adapter's
/// contract allows for the same render outcome agree in status, body and
/// content type, so repeated requests are answered identically.
pub proof fn lemma_response_idempotent(
    r1: HttpResponse,
    r2: HttpResponse,
    outcome: Result<Seq<char>, Seq<char>>,
)
    requires
        response_for(r1, outcome),
        response_for(r2, outcome),
    ensures
        r1.status == r2.status,
        r1.body@ == r2.body@,
        r1.content_type@ == r2.content_type@,
{
}

} // verus!
