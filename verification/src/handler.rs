//! The request cycle: from a request to the statement that it calls for, and
//! from what the table answered to the response.
//!
//! The table is not reached from here. A caller hands in the request, runs
//! the statement that comes back, and hands in the outcome for the response.

use crate::contact::{contact_json, contacts_json, list_to_json, Contact, ContactView};
use crate::request::{get_id, id_text, id_value, parse_id};
use crate::response::{
    contact_not_found, created, deleted, found, internal_error, lemma_fixed_responses_differ,
    no_route, updated, Response, ResponseView, INTERNAL_ERROR, NOT_FOUND, OK_RESPONSE,
};
use crate::statement::{Outcome, OutcomeView, Statement, StatementView};
use crate::text::{chars_of, starts_with};
use vstd::prelude::*;

verus! {

/// The routes of the service.
#[derive(Clone, Copy, Debug, PartialEq, Eq)]
pub enum Route {
    /// `POST /contacts`: add a contact.
    Create,
    /// `GET /contacts/` and an identifier: read one contact.
    GetOne,
    /// `GET /contacts`: read all contacts.
    ListAll,
    /// `PUT /contacts/` and an identifier: replace the fields of a contact.
    Update,
    /// `DELETE /contacts/` and an identifier: remove a contact.
    Delete,
    /// Anything else.
    Unknown,
}

/// The route of a request: the first of the five whose text the request
/// begins with, in the order of `Route`, so that a read of one contact is
/// tried before the read of all.
pub open spec fn route_of(request: Seq<char>) -> Route {
    if "POST /contacts"@.is_prefix_of(request) {
        Route::Create
    } else if "GET /contacts/"@.is_prefix_of(request) {
        Route::GetOne
    } else if "GET /contacts"@.is_prefix_of(request) {
        Route::ListAll
    } else if "PUT /contacts/"@.is_prefix_of(request) {
        Route::Update
    } else if "DELETE /contacts/"@.is_prefix_of(request) {
        Route::Delete
    } else {
        Route::Unknown
    }
}

/// The route of `request`.
pub fn route(request: &str) -> (route: Route)
    ensures
        route == route_of(request@),
{
    let chars = chars_of(request);
    if starts_with(&chars, "POST /contacts") {
        Route::Create
    } else if starts_with(&chars, "GET /contacts/") {
        Route::GetOne
    } else if starts_with(&chars, "GET /contacts") {
        Route::ListAll
    } else if starts_with(&chars, "PUT /contacts/") {
        Route::Update
    } else if starts_with(&chars, "DELETE /contacts/") {
        Route::Delete
    } else {
        Route::Unknown
    }
}

/// What to do about a request: answer at once, or run a statement first.
#[derive(Clone, Debug, PartialEq, Eq)]
pub enum Step {
    /// Send this response; the table is not asked.
    Reply(Response),
    /// Run this statement, and phrase the response from its outcome.
    Run(Statement),
}

/// A step as contracts see it.
pub ghost enum StepView {
    Reply(ResponseView),
    Run(StatementView),
}

impl View for Step {
    type V = StepView;

    open spec fn view(&self) -> StepView {
        match self {
            Step::Reply(response) => StepView::Reply(response@),
            Step::Run(statement) => StepView::Run(statement@),
        }
    }
}

/// The step for a create: insert the three fields of the decoded body,
/// whatever identifier it carries. A body that did not decode is an internal
/// error.
pub open spec fn create_step(body: Option<ContactView>) -> StepView {
    match body {
        Some(c) => StepView::Run(
            StatementView::Insert { name: c.name, email: c.email, phone: c.phone },
        ),
        None => StepView::Reply(internal_error()),
    }
}

/// The step for a read of one contact: select by the identifier in the path.
/// A path without a well-formed identifier is an internal error.
pub open spec fn get_step(request: Seq<char>) -> StepView {
    match id_value(id_text(request)) {
        Some(id) => StepView::Run(StatementView::SelectOne { id }),
        None => StepView::Reply(internal_error()),
    }
}

/// The step for an update: replace the three fields of the row with the
/// identifier in the path by those of the decoded body. A path without a
/// well-formed identifier, or a body that did not decode, is an internal
/// error.
pub open spec fn update_step(request: Seq<char>, body: Option<ContactView>) -> StepView {
    match (id_value(id_text(request)), body) {
        (Some(id), Some(c)) => StepView::Run(
            StatementView::Update { id, name: c.name, email: c.email, phone: c.phone },
        ),
        _ => StepView::Reply(internal_error()),
    }
}

/// The step for a delete: delete by the identifier in the path. A path
/// without a well-formed identifier is an internal error.
pub open spec fn delete_step(request: Seq<char>) -> StepView {
    match id_value(id_text(request)) {
        Some(id) => StepView::Run(StatementView::Delete { id }),
        None => StepView::Reply(internal_error()),
    }
}

/// The step for a request, by its route. `body` is what decoding the body
/// of the request gave, none where it did not decode.
pub open spec fn first_step(request: Seq<char>, body: Option<ContactView>) -> StepView {
    match route_of(request) {
        Route::Create => create_step(body),
        Route::GetOne => get_step(request),
        Route::ListAll => StepView::Run(StatementView::SelectAll),
        Route::Update => update_step(request, body),
        Route::Delete => delete_step(request),
        Route::Unknown => StepView::Reply(no_route()),
    }
}

/// The response to a request whose statement had this outcome.
///
/// A failure is an internal error, whatever the statement. An insert and an
/// update are confirmed whatever the number of rows; a delete is confirmed
/// where it removed a row, and is a contact not found where it removed none.
/// A read answers with the JSON of what it found, or with contact not found.
/// An outcome that is not one of its statement is an internal error.
pub open spec fn response_to(statement: StatementView, outcome: OutcomeView) -> ResponseView {
    match (statement, outcome) {
        (StatementView::Insert { .. }, OutcomeView::Affected(_)) => created(),
        (StatementView::SelectOne { .. }, OutcomeView::One(Some(row))) => found(contact_json(row)),
        (StatementView::SelectOne { .. }, OutcomeView::One(None)) => contact_not_found(),
        (StatementView::SelectAll, OutcomeView::Many(rows)) => found(contacts_json(rows)),
        (StatementView::Update { .. }, OutcomeView::Affected(_)) => updated(),
        (StatementView::Delete { .. }, OutcomeView::Affected(rows)) => if rows == 0 {
            contact_not_found()
        } else {
            deleted()
        },
        _ => internal_error(),
    }
}

/// A request on a route that names a contact, whose path holds no
/// well-formed identifier, is answered with an internal error, not with a
/// contact not found; no statement is run for it.
pub proof fn lemma_malformed_id_is_internal_error(request: Seq<char>, body: Option<ContactView>)
    requires
        route_of(request) == Route::GetOne || route_of(request) == Route::Update || route_of(
            request,
        ) == Route::Delete,
        id_value(id_text(request)) is None,
    ensures
        first_step(request, body) == StepView::Reply(internal_error()),
        internal_error() != contact_not_found(),
{
    lemma_fixed_responses_differ();
}

/// A request on a route that reads a body, whose body did not decode, is
/// answered with an internal error; no statement is run for it.
pub proof fn lemma_malformed_body_is_internal_error(request: Seq<char>)
    requires
        route_of(request) == Route::Create || route_of(request) == Route::Update,
    ensures
        first_step(request, None) == StepView::Reply(internal_error()),
{
}

/// An update is confirmed whatever the number of rows that it changed, none
/// included.
pub proof fn lemma_update_is_confirmed(statement: StatementView, rows: u64)
    requires
        statement is Update,
    ensures
        response_to(statement, OutcomeView::Affected(rows)) == updated(),
        updated() != contact_not_found(),
        updated() != internal_error(),
{
    lemma_fixed_responses_differ();
}

/// Every response has one of the three status lines: a request that is
/// answered at once is a miss or an internal error, and the answer to an
/// outcome is a success, a contact not found or an internal error.
pub proof fn lemma_status_line_is_one_of_three(
    request: Seq<char>,
    body: Option<ContactView>,
    statement: StatementView,
    outcome: OutcomeView,
)
    ensures
        first_step(request, body) matches StepView::Reply(reply) ==> reply == no_route() || reply
            == internal_error(),
        response_to(statement, outcome).status_line == OK_RESPONSE@ || response_to(
            statement,
            outcome,
        ) == contact_not_found() || response_to(statement, outcome) == internal_error(),
{
}

/// The response that reports an internal error.
fn reply_internal_error() -> (response: Response)
    ensures
        response@ == internal_error(),
{
    Response::new(INTERNAL_ERROR, "Internal error")
}

/// The response that reports a contact not found.
fn reply_contact_not_found() -> (response: Response)
    ensures
        response@ == contact_not_found(),
{
    Response::new(NOT_FOUND, "Contact not found")
}

/// Handles a create, given what decoding the body of the request gave.
pub fn handle_post_request(body: Option<Contact>) -> (step: Step)
    ensures
        step@ == create_step(body.deep_view()),
{
    match body {
        Some(contact) => Step::Run(
            Statement::Insert { name: contact.name, email: contact.email, phone: contact.phone },
        ),
        None => Step::Reply(reply_internal_error()),
    }
}

/// Handles a read of one contact.
pub fn handle_get_request(request: &str) -> (step: Step)
    ensures
        step@ == get_step(request@),
{
    match parse_id(get_id(request)) {
        Some(id) => Step::Run(Statement::SelectOne { id }),
        None => Step::Reply(reply_internal_error()),
    }
}

/// Handles a read of all contacts. Nothing of the request is looked at.
pub fn handle_get_all_request(_request: &str) -> (step: Step)
    ensures
        step@ == StepView::Run(StatementView::SelectAll),
{
    Step::Run(Statement::SelectAll)
}

/// Handles an update, given what decoding the body of the request gave.
pub fn handle_put_request(request: &str, body: Option<Contact>) -> (step: Step)
    ensures
        step@ == update_step(request@, body.deep_view()),
{
    match (parse_id(get_id(request)), body) {
        (Some(id), Some(contact)) => Step::Run(
            Statement::Update {
                id,
                name: contact.name,
                email: contact.email,
                phone: contact.phone,
            },
        ),
        _ => Step::Reply(reply_internal_error()),
    }
}

/// Handles a delete.
pub fn handle_delete_request(request: &str) -> (step: Step)
    ensures
        step@ == delete_step(request@),
{
    match parse_id(get_id(request)) {
        Some(id) => Step::Run(Statement::Delete { id }),
        None => Step::Reply(reply_internal_error()),
    }
}

/// Handles one request: finds its route and hands it to the handler of that
/// route. `body` is what decoding the body of the request gave, none where
/// it did not decode; only a create and an update look at it.
pub fn handle_client(request: &str, body: Option<Contact>) -> (step: Step)
    ensures
        step@ == first_step(request@, body.deep_view()),
{
    match route(request) {
        Route::Create => handle_post_request(body),
        Route::GetOne => handle_get_request(request),
        Route::ListAll => handle_get_all_request(request),
        Route::Update => handle_put_request(request, body),
        Route::Delete => handle_delete_request(request),
        Route::Unknown => Step::Reply(Response::new(NOT_FOUND, "404 not found")),
    }
}

/// Phrases the response to a request from the outcome of its statement.
pub fn conclude(statement: &Statement, outcome: Outcome) -> (response: Response)
    ensures
        response@ == response_to(statement@, outcome@),
{
    match (statement, outcome) {
        (Statement::Insert { .. }, Outcome::Affected(_)) => Response::new(
            OK_RESPONSE,
            "Contact created",
        ),
        (Statement::SelectOne { .. }, Outcome::One(Some(row))) => Response::found(row.to_json()),
        (Statement::SelectOne { .. }, Outcome::One(None)) => reply_contact_not_found(),
        (Statement::SelectAll, Outcome::Many(rows)) => Response::found(list_to_json(&rows)),
        (Statement::Update { .. }, Outcome::Affected(_)) => Response::new(
            OK_RESPONSE,
            "Contact updated",
        ),
        (Statement::Delete { .. }, Outcome::Affected(rows)) => {
            if rows == 0 {
                reply_contact_not_found()
            } else {
                Response::new(OK_RESPONSE, "Contact deleted")
            }
        },
        _ => reply_internal_error(),
    }
}

} // verus!
