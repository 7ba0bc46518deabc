//! The contacts table as the service takes it to be, and what follows for
//! requests that come one after another.
//!
//! The table itself lives outside this crate. `Table::runs` states what a
//! table is taken to do with each statement; nothing here proves that of any
//! database. The laws below hold of every table that does so.

use crate::contact::{contact_json, contacts_json, ContactView};
use crate::handler::{first_step, response_to, route_of, Route, StepView};
use crate::request::{id_text, id_value};
use crate::response::{
    contact_not_found, created, deleted, found, internal_error, lemma_fixed_responses_differ,
    updated, ResponseView,
};
use crate::statement::{OutcomeView, StatementView};
use vstd::prelude::*;

verus! {

/// What a row holds besides its identifier.
pub ghost struct Fields {
    pub name: Seq<char>,
    pub email: Seq<char>,
    pub phone: Seq<char>,
}

/// What the table holds: the fields of each row, under its identifier. No
/// identifier has two rows.
pub ghost struct Table {
    pub rows: Map<i32, Fields>,
}

impl Table {
    /// Whether the table holds a row with this identifier.
    pub open spec fn holds(self, id: i32) -> bool {
        self.rows.dom().contains(id)
    }

    /// The row with this identifier, as a contact.
    pub open spec fn row(self, id: i32) -> ContactView {
        ContactView {
            id: Some(id),
            name: self.rows[id].name,
            email: self.rows[id].email,
            phone: self.rows[id].phone,
        }
    }

    /// The table with the row of `id` set to `fields`.
    pub open spec fn with(self, id: i32, fields: Fields) -> Table {
        Table { rows: self.rows.insert(id, fields) }
    }

    /// The table without the row of `id`.
    pub open spec fn without(self, id: i32) -> Table {
        Table { rows: self.rows.remove(id) }
    }

    /// Whether `rows` is a listing of the table: its rows and no others, each
    /// once, in whatever order.
    pub open spec fn lists(self, rows: Seq<ContactView>) -> bool {
        &&& forall|i: int|
            0 <= i < rows.len() ==> (#[trigger] rows[i]).id is Some && self.holds(rows[i].id->0)
                && rows[i] == self.row(rows[i].id->0)
        &&& forall|id: i32| #[trigger]
            self.holds(id) ==> exists|i: int| 0 <= i < rows.len() && (#[trigger] rows[i]).id == Some(id)
        &&& forall|i: int, j: int|
            0 <= i < j < rows.len() ==> (#[trigger] rows[i]).id != (#[trigger] rows[j]).id
    }

    /// Whether the table, asked to run `statement`, may answer `outcome` and
    /// be `after` from there on.
    ///
    /// Any statement may fail, and leaves the table as it was. Otherwise: an
    /// insert adds one row, under a positive identifier that no row had; the
    /// reads leave the table as it was, and give the row, or say that there is
    /// none, or list the table; an update and a delete change the row of their
    /// identifier and report one row, or find none and report none.
    pub open spec fn runs(self, statement: StatementView, outcome: OutcomeView, after: Table) -> bool {
        ||| outcome is Failed && after == self
        ||| match statement {
            StatementView::Insert { name, email, phone } => {
                &&& outcome == OutcomeView::Affected(1)
                &&& exists|id: i32|
                    id > 0 && !self.holds(id) && after == #[trigger] self.with(
                        id,
                        Fields { name, email, phone },
                    )
            },
            StatementView::SelectOne { id } => {
                &&& after == self
                &&& outcome == OutcomeView::One(
                    if self.holds(id) {
                        Some(self.row(id))
                    } else {
                        None
                    },
                )
            },
            StatementView::SelectAll => {
                &&& after == self
                &&& outcome matches OutcomeView::Many(rows)
                &&& self.lists(rows)
            },
            StatementView::Update { id, name, email, phone } => if self.holds(id) {
                outcome == OutcomeView::Affected(1) && after == self.with(
                    id,
                    Fields { name, email, phone },
                )
            } else {
                outcome == OutcomeView::Affected(0) && after == self
            },
            StatementView::Delete { id } => if self.holds(id) {
                outcome == OutcomeView::Affected(1) && after == self.without(id)
            } else {
                outcome == OutcomeView::Affected(0) && after == self
            },
        }
    }

    /// Whether the service, with the table as `self`, may answer `request`
    /// with `response` and leave the table as `after`. `body` is what
    /// decoding the body of the request gave.
    pub open spec fn serves(
        self,
        request: Seq<char>,
        body: Option<ContactView>,
        response: ResponseView,
        after: Table,
    ) -> bool {
        match first_step(request, body) {
            StepView::Reply(reply) => response == reply && after == self,
            StepView::Run(statement) => exists|outcome: OutcomeView|
                #[trigger] self.runs(statement, outcome, after) && response == response_to(
                    statement,
                    outcome,
                ),
        }
    }
}

/// Whether two contacts have the same name, email and phone.
pub open spec fn same_fields(a: ContactView, b: ContactView) -> bool {
    a.name == b.name && a.email == b.email && a.phone == b.phone
}

/// Whether `request` names the contact `id` in its path.
pub open spec fn names(request: Seq<char>, id: i32) -> bool {
    id_value(id_text(request)) == Some(id)
}

/// A create that is served without an internal error is confirmed, and has
/// added one row to the table: the fields of the payload, under a positive
/// identifier that no row had.
pub proof fn lemma_create_adds_a_row(
    before: Table,
    create: Seq<char>,
    payload: ContactView,
    confirmation: ResponseView,
    after: Table,
)
    requires
        route_of(create) == Route::Create,
        before.serves(create, Some(payload), confirmation, after),
        confirmation != internal_error(),
    ensures
        confirmation == created(),
        exists|id: i32|
            id > 0 && !before.holds(id) && after == #[trigger] before.with(
                id,
                Fields { name: payload.name, email: payload.email, phone: payload.phone },
            ),
{
    lemma_fixed_responses_differ();
}

/// A read of a contact that is served without an internal error leaves the
/// table as it was, and carries the row that the table holds for the
/// contact, or says that the contact was not found where it holds none.
pub proof fn lemma_read_shows_the_row(
    table: Table,
    get: Seq<char>,
    body: Option<ContactView>,
    reading: ResponseView,
    after: Table,
    id: i32,
)
    requires
        route_of(get) == Route::GetOne,
        names(get, id),
        table.serves(get, body, reading, after),
        reading != internal_error(),
    ensures
        after == table,
        table.holds(id) ==> reading == found(contact_json(table.row(id))),
        !table.holds(id) ==> reading == contact_not_found(),
{
    lemma_fixed_responses_differ();
}

/// A read of all contacts that is served without an internal error leaves
/// the table as it was, and lists every row that the table holds.
pub proof fn lemma_listing_shows_every_row(
    table: Table,
    list: Seq<char>,
    body: Option<ContactView>,
    listing: ResponseView,
    after: Table,
)
    requires
        route_of(list) == Route::ListAll,
        table.serves(list, body, listing, after),
        listing != internal_error(),
    ensures
        after == table,
        exists|rows: Seq<ContactView>| #[trigger]
            table.lists(rows) && listing == found(contacts_json(rows)),
{
    lemma_fixed_responses_differ();
}

/// A request leaves the rows of other contacts alone: unless it is an update
/// or a delete of contact `id`, the table holds the row of `id` after it as
/// it did before.
pub proof fn lemma_other_requests_keep_the_row(
    before: Table,
    request: Seq<char>,
    body: Option<ContactView>,
    response: ResponseView,
    after: Table,
    id: i32,
)
    requires
        before.holds(id),
        before.serves(request, body, response, after),
        !(route_of(request) == Route::Update && names(request, id)),
        !(route_of(request) == Route::Delete && names(request, id)),
    ensures
        after.holds(id),
        after.row(id) == before.row(id),
{
}

/// A create that is served without an internal error is confirmed, and a
/// read of all contacts served right after it lists a contact with the name,
/// email and phone of the payload, under a positive identifier.
pub proof fn lemma_created_contact_is_listed(
    before: Table,
    create: Seq<char>,
    payload: ContactView,
    confirmation: ResponseView,
    between: Table,
    list: Seq<char>,
    body: Option<ContactView>,
    listing: ResponseView,
    after: Table,
)
    requires
        route_of(create) == Route::Create,
        before.serves(create, Some(payload), confirmation, between),
        confirmation != internal_error(),
        route_of(list) == Route::ListAll,
        between.serves(list, body, listing, after),
        listing != internal_error(),
    ensures
        confirmation == created(),
        exists|rows: Seq<ContactView>, i: int|
            listing == found(contacts_json(rows)) && 0 <= i < rows.len() && same_fields(
                #[trigger] rows[i],
                payload,
            ) && rows[i].id is Some && rows[i].id->0 > 0,
{
    lemma_fixed_responses_differ();
    let fields = Fields { name: payload.name, email: payload.email, phone: payload.phone };
    // The identifier that the insert chose, and the place of its row in the listing.
    let id = choose|id: i32|
        id > 0 && !before.holds(id) && between == #[trigger] before.with(id, fields);
    assert(between.holds(id));
    let listed = choose|outcome: OutcomeView|
        #[trigger] between.runs(StatementView::SelectAll, outcome, after) && listing
            == response_to(StatementView::SelectAll, outcome);
    let rows = listed->Many_0;
    let i = choose|i: int| 0 <= i < rows.len() && (#[trigger] rows[i]).id == Some(id);
    assert(rows[i] == between.row(id));
}

/// A contact that was created reads back: where a create is served without
/// an internal error and gives the contact the identifier `id` (the table
/// has a row for it after the create, and had none before), a read of
/// contact `id` served right after it carries the name, email and phone of
/// the payload, under that identifier.
pub proof fn lemma_created_contact_reads_back(
    before: Table,
    create: Seq<char>,
    payload: ContactView,
    confirmation: ResponseView,
    between: Table,
    id: i32,
    get: Seq<char>,
    body: Option<ContactView>,
    reading: ResponseView,
    after: Table,
)
    requires
        route_of(create) == Route::Create,
        before.serves(create, Some(payload), confirmation, between),
        confirmation != internal_error(),
        !before.holds(id),
        between.holds(id),
        route_of(get) == Route::GetOne,
        names(get, id),
        between.serves(get, body, reading, after),
        reading != internal_error(),
    ensures
        id > 0,
        reading == found(
            contact_json(
                ContactView {
                    id: Some(id),
                    name: payload.name,
                    email: payload.email,
                    phone: payload.phone,
                },
            ),
        ),
{
    // The insert added one row, so the new identifier is the one it chose.
    lemma_fixed_responses_differ();
}

/// An update shows in the next read: where an update of a contact that the
/// table holds is served without an internal error, it is confirmed, and a
/// read of that contact served right after it carries the name, email and
/// phone of the payload.
pub proof fn lemma_updated_contact_reads_back(
    before: Table,
    update: Seq<char>,
    payload: ContactView,
    confirmation: ResponseView,
    between: Table,
    id: i32,
    get: Seq<char>,
    body: Option<ContactView>,
    reading: ResponseView,
    after: Table,
)
    requires
        before.holds(id),
        route_of(update) == Route::Update,
        names(update, id),
        before.serves(update, Some(payload), confirmation, between),
        confirmation != internal_error(),
        route_of(get) == Route::GetOne,
        names(get, id),
        between.serves(get, body, reading, after),
        reading != internal_error(),
    ensures
        confirmation == updated(),
        reading == found(
            contact_json(
                ContactView {
                    id: Some(id),
                    name: payload.name,
                    email: payload.email,
                    phone: payload.phone,
                },
            ),
        ),
{
    lemma_fixed_responses_differ();
}

/// A contact that was deleted is gone: where a delete is served without an
/// internal error, a read of that contact served right after it says that
/// the contact was not found, whether the table held it before or not.
pub proof fn lemma_deleted_contact_is_not_found(
    before: Table,
    delete: Seq<char>,
    sent: Option<ContactView>,
    answer: ResponseView,
    between: Table,
    id: i32,
    get: Seq<char>,
    body: Option<ContactView>,
    reading: ResponseView,
    after: Table,
)
    requires
        route_of(delete) == Route::Delete,
        names(delete, id),
        before.serves(delete, sent, answer, between),
        answer != internal_error(),
        route_of(get) == Route::GetOne,
        names(get, id),
        between.serves(get, body, reading, after),
        reading != internal_error(),
    ensures
        before.holds(id) ==> answer == deleted(),
        reading == contact_not_found(),
{
    lemma_fixed_responses_differ();
}

/// A delete of a contact that the table does not hold is no success: served
/// without an internal error, it says that the contact was not found, and
/// leaves the table as it was.
pub proof fn lemma_delete_of_absent_contact_is_not_found(
    before: Table,
    delete: Seq<char>,
    body: Option<ContactView>,
    answer: ResponseView,
    after: Table,
    id: i32,
)
    requires
        !before.holds(id),
        route_of(delete) == Route::Delete,
        names(delete, id),
        before.serves(delete, body, answer, after),
        answer != internal_error(),
    ensures
        answer == contact_not_found(),
        answer != deleted(),
        after == before,
{
    lemma_fixed_responses_differ();
}

/// An update of a contact that the table does not hold is confirmed like any
/// other: served without an internal error, it answers with the confirmation
/// of an update, not with a contact not found, and leaves the table as it was.
pub proof fn lemma_update_of_absent_contact_is_confirmed(
    before: Table,
    update: Seq<char>,
    payload: ContactView,
    answer: ResponseView,
    after: Table,
    id: i32,
)
    requires
        !before.holds(id),
        route_of(update) == Route::Update,
        names(update, id),
        before.serves(update, Some(payload), answer, after),
        answer != internal_error(),
    ensures
        answer == updated(),
        answer != contact_not_found(),
        after == before,
{
    lemma_fixed_responses_differ();
}

} // verus!
