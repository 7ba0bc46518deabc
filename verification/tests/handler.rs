use contacts_api::contact::Contact;
use contacts_api::handler::{
    conclude, handle_client, handle_delete_request, handle_get_all_request, handle_get_request,
    handle_post_request, handle_put_request, route, Route, Step,
};
use contacts_api::response::{Response, INTERNAL_ERROR, NOT_FOUND, OK_RESPONSE};
use contacts_api::statement::{Outcome, Statement, CREATE_TABLE};

fn ana() -> Contact {
    Contact { id: None, name: "Ana".to_string(), email: "a@x.com".to_string(), phone: "555".to_string() }
}

fn insert_ana() -> Statement {
    Statement::Insert { name: "Ana".to_string(), email: "a@x.com".to_string(), phone: "555".to_string() }
}

fn update_ana(id: i32) -> Statement {
    Statement::Update { id, name: "Ana".to_string(), email: "a@x.com".to_string(), phone: "555".to_string() }
}

fn response(status_line: &str, content: &str) -> Response {
    Response { status_line: status_line.to_string(), content: content.to_string() }
}

fn internal_error() -> Response {
    response("HTTP/1.1 500 INTERNAL ERROR\r\n\r\n", "Internal error")
}

fn contact_not_found() -> Response {
    response("HTTP/1.1 400 NOT FOUND\r\n\r\n", "Contact not found")
}

#[test]
fn status_lines_are_the_fixed_three() {
    assert_eq!(OK_RESPONSE, "HTTP/1.1 200 OK\r\nContent-Type: application/json\r\n\r\n");
    assert_eq!(NOT_FOUND, "HTTP/1.1 400 NOT FOUND\r\n\r\n");
    assert_eq!(INTERNAL_ERROR, "HTTP/1.1 500 INTERNAL ERROR\r\n\r\n");
}

#[test]
fn route_goes_by_the_leading_text() {
    assert_eq!(route("POST /contacts HTTP/1.1\r\n\r\n{}"), Route::Create);
    assert_eq!(route("GET /contacts/5 HTTP/1.1"), Route::GetOne);
    assert_eq!(route("GET /contacts HTTP/1.1"), Route::ListAll);
    assert_eq!(route("PUT /contacts/5 HTTP/1.1"), Route::Update);
    assert_eq!(route("DELETE /contacts/5 HTTP/1.1"), Route::Delete);
}

#[test]
fn route_tries_one_contact_before_all() {
    assert_eq!(route("GET /contacts/"), Route::GetOne);
    assert_eq!(route("GET /contacts"), Route::ListAll);
    assert_eq!(route("GET /contactsX"), Route::ListAll);
    assert_eq!(route("GET /contacts?x=/1"), Route::ListAll);
    assert_eq!(route("POST /contacts/9"), Route::Create);
    assert_eq!(route("POST /contactsX"), Route::Create);
}

#[test]
fn route_is_unknown_for_anything_else() {
    assert_eq!(route(""), Route::Unknown);
    assert_eq!(route("GET /"), Route::Unknown);
    assert_eq!(route("GET /contact"), Route::Unknown);
    assert_eq!(route("get /contacts"), Route::Unknown);
    assert_eq!(route(" GET /contacts"), Route::Unknown);
    assert_eq!(route("PUT /contacts"), Route::Unknown);
    assert_eq!(route("DELETE /contacts"), Route::Unknown);
    assert_eq!(route("PATCH /contacts/1"), Route::Unknown);
    assert_eq!(route("POST /contact"), Route::Unknown);
}

#[test]
fn create_inserts_the_fields_of_the_body() {
    assert_eq!(handle_post_request(Some(ana())), Step::Run(insert_ana()));
}

#[test]
fn create_ignores_the_id_of_the_body() {
    let mut with_id = ana();
    with_id.id = Some(99);
    assert_eq!(handle_post_request(Some(with_id)), Step::Run(insert_ana()));
}

#[test]
fn create_without_a_decoded_body_is_an_internal_error() {
    assert_eq!(handle_post_request(None), Step::Reply(internal_error()));
    assert_eq!(handle_client("POST /contacts HTTP/1.1\r\n\r\n{not json", None), Step::Reply(internal_error()));
}

#[test]
fn get_selects_by_the_id_of_the_path() {
    assert_eq!(handle_get_request("GET /contacts/12 HTTP/1.1\r\n\r\n"), Step::Run(Statement::SelectOne { id: 12 }));
    assert_eq!(handle_get_request("GET /contacts/-3 HTTP/1.1"), Step::Run(Statement::SelectOne { id: -3 }));
    assert_eq!(handle_get_request("GET /contacts/+4"), Step::Run(Statement::SelectOne { id: 4 }));
}

#[test]
fn get_with_a_malformed_id_is_an_internal_error() {
    assert_eq!(handle_get_request("GET /contacts/abc HTTP/1.1"), Step::Reply(internal_error()));
    assert_eq!(handle_get_request("GET /contacts/ HTTP/1.1"), Step::Reply(internal_error()));
    assert_eq!(handle_get_request("GET /contacts/ 7 HTTP/1.1"), Step::Reply(internal_error()));
    assert_eq!(handle_get_request("GET /contacts HTTP/1.1"), Step::Reply(internal_error()));
    assert_eq!(handle_get_request("GET /contacts/1.5 HTTP/1.1"), Step::Reply(internal_error()));
    assert_eq!(handle_get_request("GET /contacts/2147483648 HTTP/1.1"), Step::Reply(internal_error()));
    assert_eq!(handle_client("GET /contacts/x1 HTTP/1.1", None), Step::Reply(internal_error()));
}

#[test]
fn get_all_selects_every_row_whatever_the_request() {
    assert_eq!(handle_get_all_request("GET /contacts HTTP/1.1"), Step::Run(Statement::SelectAll));
    assert_eq!(handle_get_all_request(""), Step::Run(Statement::SelectAll));
    assert_eq!(handle_client("GET /contacts HTTP/1.1\r\n\r\n", Some(ana())), Step::Run(Statement::SelectAll));
}

#[test]
fn put_updates_the_row_of_the_path_with_the_body() {
    assert_eq!(handle_put_request("PUT /contacts/7 HTTP/1.1\r\n\r\n{}", Some(ana())), Step::Run(update_ana(7)));
    let mut with_id = ana();
    with_id.id = Some(99);
    assert_eq!(handle_put_request("PUT /contacts/7 HTTP/1.1\r\n\r\n{}", Some(with_id)), Step::Run(update_ana(7)));
}

#[test]
fn put_with_a_malformed_id_or_body_is_an_internal_error() {
    assert_eq!(handle_put_request("PUT /contacts/x HTTP/1.1", Some(ana())), Step::Reply(internal_error()));
    assert_eq!(handle_put_request("PUT /contacts/7 HTTP/1.1", None), Step::Reply(internal_error()));
    assert_eq!(handle_put_request("PUT /contacts/x HTTP/1.1", None), Step::Reply(internal_error()));
    assert_eq!(handle_client("PUT /contacts/7 HTTP/1.1", None), Step::Reply(internal_error()));
    assert_eq!(handle_client("PUT /contacts/ HTTP/1.1", Some(ana())), Step::Reply(internal_error()));
}

#[test]
fn delete_deletes_by_the_id_of_the_path() {
    assert_eq!(handle_delete_request("DELETE /contacts/1 HTTP/1.1"), Step::Run(Statement::Delete { id: 1 }));
}

#[test]
fn delete_with_a_malformed_id_is_an_internal_error() {
    assert_eq!(handle_delete_request("DELETE /contacts/one HTTP/1.1"), Step::Reply(internal_error()));
    assert_eq!(handle_delete_request("DELETE /contacts/ 5/x HTTP/1.1"), Step::Reply(internal_error()));
    assert_eq!(handle_client("DELETE /contacts/ HTTP/1.1", None), Step::Reply(internal_error()));
}

#[test]
fn client_is_handed_to_the_handler_of_its_route() {
    assert_eq!(handle_client("POST /contacts HTTP/1.1\r\n\r\n{}", Some(ana())), Step::Run(insert_ana()));
    assert_eq!(handle_client("GET /contacts/5 HTTP/1.1", None), Step::Run(Statement::SelectOne { id: 5 }));
    assert_eq!(handle_client("GET /contacts HTTP/1.1", None), Step::Run(Statement::SelectAll));
    assert_eq!(handle_client("PUT /contacts/5 HTTP/1.1\r\n\r\n{}", Some(ana())), Step::Run(update_ana(5)));
    assert_eq!(handle_client("DELETE /contacts/5 HTTP/1.1", None), Step::Run(Statement::Delete { id: 5 }));
}

#[test]
fn client_on_no_route_gets_the_fixed_miss() {
    let miss = response("HTTP/1.1 400 NOT FOUND\r\n\r\n", "404 not found");
    assert_eq!(handle_client("HEAD / HTTP/1.1", None), Step::Reply(miss.clone()));
    assert_eq!(handle_client("", Some(ana())), Step::Reply(miss.clone()));
    assert_eq!(handle_client("PUT /contacts", Some(ana())), Step::Reply(miss));
}

#[test]
fn insert_is_confirmed() {
    let ok = response("HTTP/1.1 200 OK\r\nContent-Type: application/json\r\n\r\n", "Contact created");
    assert_eq!(conclude(&insert_ana(), Outcome::Affected(1)), ok);
}

#[test]
fn read_of_one_answers_with_its_json_or_not_found() {
    let mut row = ana();
    row.id = Some(1);
    assert_eq!(
        conclude(&Statement::SelectOne { id: 1 }, Outcome::One(Some(row))),
        response(
            "HTTP/1.1 200 OK\r\nContent-Type: application/json\r\n\r\n",
            "{\"id\":1,\"name\":\"Ana\",\"email\":\"a@x.com\",\"phone\":\"555\"}"
        )
    );
    assert_eq!(conclude(&Statement::SelectOne { id: 1 }, Outcome::One(None)), contact_not_found());
}

#[test]
fn read_of_all_answers_with_the_json_array() {
    let mut row = ana();
    row.id = Some(4);
    assert_eq!(
        conclude(&Statement::SelectAll, Outcome::Many(vec![row])),
        response(
            "HTTP/1.1 200 OK\r\nContent-Type: application/json\r\n\r\n",
            "[{\"id\":4,\"name\":\"Ana\",\"email\":\"a@x.com\",\"phone\":\"555\"}]"
        )
    );
    assert_eq!(
        conclude(&Statement::SelectAll, Outcome::Many(Vec::new())),
        response("HTTP/1.1 200 OK\r\nContent-Type: application/json\r\n\r\n", "[]")
    );
}

#[test]
fn update_is_confirmed_whatever_it_matched() {
    let ok = response("HTTP/1.1 200 OK\r\nContent-Type: application/json\r\n\r\n", "Contact updated");
    assert_eq!(conclude(&update_ana(1), Outcome::Affected(1)), ok);
    assert_eq!(conclude(&update_ana(1), Outcome::Affected(0)), ok);
}

#[test]
fn delete_is_confirmed_only_where_it_removed_a_row() {
    let ok = response("HTTP/1.1 200 OK\r\nContent-Type: application/json\r\n\r\n", "Contact deleted");
    assert_eq!(conclude(&Statement::Delete { id: 1 }, Outcome::Affected(1)), ok);
    assert_eq!(conclude(&Statement::Delete { id: 1 }, Outcome::Affected(0)), contact_not_found());
}

#[test]
fn failure_is_an_internal_error_for_every_statement() {
    assert_eq!(conclude(&insert_ana(), Outcome::Failed), internal_error());
    assert_eq!(conclude(&Statement::SelectOne { id: 1 }, Outcome::Failed), internal_error());
    assert_eq!(conclude(&Statement::SelectAll, Outcome::Failed), internal_error());
    assert_eq!(conclude(&update_ana(1), Outcome::Failed), internal_error());
    assert_eq!(conclude(&Statement::Delete { id: 1 }, Outcome::Failed), internal_error());
}

#[test]
fn outcome_of_another_statement_is_an_internal_error() {
    assert_eq!(conclude(&insert_ana(), Outcome::One(None)), internal_error());
    assert_eq!(conclude(&insert_ana(), Outcome::Many(Vec::new())), internal_error());
    assert_eq!(conclude(&Statement::SelectOne { id: 1 }, Outcome::Affected(1)), internal_error());
    assert_eq!(conclude(&Statement::SelectOne { id: 1 }, Outcome::Many(Vec::new())), internal_error());
    assert_eq!(conclude(&Statement::SelectAll, Outcome::Affected(0)), internal_error());
    assert_eq!(conclude(&Statement::SelectAll, Outcome::One(Some(ana()))), internal_error());
    assert_eq!(conclude(&update_ana(1), Outcome::One(None)), internal_error());
    assert_eq!(conclude(&Statement::Delete { id: 1 }, Outcome::Many(Vec::new())), internal_error());
}

#[test]
fn response_text_is_the_status_line_and_the_content() {
    assert_eq!(
        response("HTTP/1.1 400 NOT FOUND\r\n\r\n", "Contact not found").into_text(),
        "HTTP/1.1 400 NOT FOUND\r\n\r\nContact not found"
    );
    assert_eq!(Response::new("a", "b").into_text(), "ab");
    assert_eq!(Response::new("", "").into_text(), "");
    assert_eq!(
        Response::found("[]".to_string()).into_text(),
        "HTTP/1.1 200 OK\r\nContent-Type: application/json\r\n\r\n[]"
    );
}

#[test]
fn statements_have_their_sql() {
    assert_eq!(insert_ana().sql(), "INSERT INTO contacts (name, email, phone) VALUES ($1, $2, $3)");
    assert_eq!(Statement::SelectOne { id: 1 }.sql(), "SELECT * FROM contacts WHERE id = $1");
    assert_eq!(Statement::SelectAll.sql(), "SELECT id, name, email, phone FROM contacts");
    assert_eq!(update_ana(1).sql(), "UPDATE contacts SET name = $1, email = $2, phone = $3 WHERE id = $4");
    assert_eq!(Statement::Delete { id: 1 }.sql(), "DELETE FROM contacts WHERE id = $1");
    assert_eq!(
        CREATE_TABLE,
        "CREATE TABLE IF NOT EXISTS contacts (id SERIAL PRIMARY KEY, name VARCHAR NOT NULL, email VARCHAR NOT NULL, phone VARCHAR NOT NULL)"
    );
}
