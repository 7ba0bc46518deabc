//! The responses of the service: a status line and a content, each fixed text
//! but for the JSON of the reads.

use vstd::prelude::*;
use vstd::string::*;

verus! {

/// The status line, with its header, of a response that carries data or
/// confirms a change.
pub const OK_RESPONSE: &'static str = "HTTP/1.1 200 OK\r\nContent-Type: application/json\r\n\r\n";

/// The status line of a response to a request for a contact that the table
/// does not hold, or for a route that the service does not have.
pub const NOT_FOUND: &'static str = "HTTP/1.1 400 NOT FOUND\r\n\r\n";

/// The status line of a response to a request that could not be read, or
/// that the table could not serve.
pub const INTERNAL_ERROR: &'static str = "HTTP/1.1 500 INTERNAL ERROR\r\n\r\n";

/// What goes back to the client: the status line and, right behind it, the
/// content.
#[derive(Clone, Debug, PartialEq, Eq)]
pub struct Response {
    pub status_line: String,
    pub content: String,
}

/// A response as contracts see it.
pub ghost struct ResponseView {
    pub status_line: Seq<char>,
    pub content: Seq<char>,
}

impl View for Response {
    type V = ResponseView;

    open spec fn view(&self) -> ResponseView {
        ResponseView { status_line: self.status_line@, content: self.content@ }
    }
}

/// The response that carries `json`.
pub open spec fn found(json: Seq<char>) -> ResponseView {
    ResponseView { status_line: OK_RESPONSE@, content: json }
}

/// The confirmation of an insert.
pub open spec fn created() -> ResponseView {
    ResponseView { status_line: OK_RESPONSE@, content: "Contact created"@ }
}

/// The confirmation of an update.
pub open spec fn updated() -> ResponseView {
    ResponseView { status_line: OK_RESPONSE@, content: "Contact updated"@ }
}

/// The confirmation of a delete.
pub open spec fn deleted() -> ResponseView {
    ResponseView { status_line: OK_RESPONSE@, content: "Contact deleted"@ }
}

/// The response to a request for a contact that the table does not hold.
pub open spec fn contact_not_found() -> ResponseView {
    ResponseView { status_line: NOT_FOUND@, content: "Contact not found"@ }
}

/// The response to a request for a route that the service does not have.
pub open spec fn no_route() -> ResponseView {
    ResponseView { status_line: NOT_FOUND@, content: "404 not found"@ }
}

/// The response to a request that could not be read or served.
pub open spec fn internal_error() -> ResponseView {
    ResponseView { status_line: INTERNAL_ERROR@, content: "Internal error"@ }
}

/// The three status lines differ from one another, and so do the fixed
/// responses: none can be taken for another. A response that carries JSON
/// differs from a contact not found, from a missing route and from an
/// internal error, whatever the JSON.
pub proof fn lemma_fixed_responses_differ()
    ensures
        OK_RESPONSE@ != NOT_FOUND@,
        OK_RESPONSE@ != INTERNAL_ERROR@,
        NOT_FOUND@ != INTERNAL_ERROR@,
        created() != updated(),
        created() != deleted(),
        updated() != deleted(),
        contact_not_found() != no_route(),
        forall|json: Seq<char>|
            #![trigger found(json)]
            found(json) != contact_not_found() && found(json) != no_route() && found(json)
                != internal_error(),
{
    reveal_strlit("HTTP/1.1 200 OK\r\nContent-Type: application/json\r\n\r\n");
    reveal_strlit("HTTP/1.1 400 NOT FOUND\r\n\r\n");
    reveal_strlit("HTTP/1.1 500 INTERNAL ERROR\r\n\r\n");
    assert(OK_RESPONSE@[9] == '2');
    assert(NOT_FOUND@[9] == '4');
    assert(INTERNAL_ERROR@[9] == '5');
    reveal_strlit("Contact created");
    reveal_strlit("Contact updated");
    reveal_strlit("Contact deleted");
    assert("Contact created"@[8] == 'c');
    assert("Contact updated"@[8] == 'u');
    assert("Contact deleted"@[8] == 'd');
    reveal_strlit("Contact not found");
    reveal_strlit("404 not found");
    assert("Contact not found"@[0] == 'C');
    assert("404 not found"@[0] == '4');
}

impl Response {
    /// The response with this status line and content.
    pub fn new(status_line: &str, content: &str) -> (response: Response)
        ensures
            response@ == (ResponseView { status_line: status_line@, content: content@ }),
    {
        Response { status_line: status_line.to_owned(), content: content.to_owned() }
    }

    /// The response that carries `json`.
    pub fn found(json: String) -> (response: Response)
        ensures
            response@ == found(json@),
    {
        Response { status_line: OK_RESPONSE.to_owned(), content: json }
    }

    /// The text to send: the status line and the content, nothing between
    /// them and nothing added.
    pub fn into_text(self) -> (text: String)
        ensures
            text@ == self@.status_line + self@.content,
    {
        self.status_line.concat(self.content.as_str())
    }
}

} // verus!
