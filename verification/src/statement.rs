//! The statements that the service runs on the contacts table, and what the
//! table answers.

use crate::contact::{views, Contact, ContactView};
use vstd::prelude::*;

verus! {

/// The statement that makes the contacts table where there is none yet.
pub const CREATE_TABLE: &'static str =
    "CREATE TABLE IF NOT EXISTS contacts (id SERIAL PRIMARY KEY, name VARCHAR NOT NULL, email VARCHAR NOT NULL, phone VARCHAR NOT NULL)";

/// The one statement that a request calls for.
#[derive(Clone, Debug, PartialEq, Eq)]
pub enum Statement {
    /// Add a row with these fields; the table gives it its identifier.
    Insert { name: String, email: String, phone: String },
    /// Read the row with this identifier.
    SelectOne { id: i32 },
    /// Read every row.
    SelectAll,
    /// Replace the three fields of the row with this identifier.
    Update { id: i32, name: String, email: String, phone: String },
    /// Remove the row with this identifier.
    Delete { id: i32 },
}

/// A statement as contracts see it.
pub ghost enum StatementView {
    Insert { name: Seq<char>, email: Seq<char>, phone: Seq<char> },
    SelectOne { id: i32 },
    SelectAll,
    Update { id: i32, name: Seq<char>, email: Seq<char>, phone: Seq<char> },
    Delete { id: i32 },
}

impl View for Statement {
    type V = StatementView;

    open spec fn view(&self) -> StatementView {
        match self {
            Statement::Insert { name, email, phone } => StatementView::Insert {
                name: name@,
                email: email@,
                phone: phone@,
            },
            Statement::SelectOne { id } => StatementView::SelectOne { id: *id },
            Statement::SelectAll => StatementView::SelectAll,
            Statement::Update { id, name, email, phone } => StatementView::Update {
                id: *id,
                name: name@,
                email: email@,
                phone: phone@,
            },
            Statement::Delete { id } => StatementView::Delete { id: *id },
        }
    }
}

/// The SQL of a statement, its values left to the numbered parameters: the
/// text fields in the order name, email, phone, and the identifier last.
pub open spec fn sql_text(statement: StatementView) -> Seq<char> {
    match statement {
        StatementView::Insert { .. } => "INSERT INTO contacts (name, email, phone) VALUES ($1, $2, $3)"@,
        StatementView::SelectOne { .. } => "SELECT * FROM contacts WHERE id = $1"@,
        StatementView::SelectAll => "SELECT id, name, email, phone FROM contacts"@,
        StatementView::Update { .. } => "UPDATE contacts SET name = $1, email = $2, phone = $3 WHERE id = $4"@,
        StatementView::Delete { .. } => "DELETE FROM contacts WHERE id = $1"@,
    }
}

impl Statement {
    /// The SQL of this statement.
    pub fn sql(&self) -> (text: &'static str)
        ensures
            text@ == sql_text(self@),
    {
        match self {
            Statement::Insert { .. } => "INSERT INTO contacts (name, email, phone) VALUES ($1, $2, $3)",
            Statement::SelectOne { .. } => "SELECT * FROM contacts WHERE id = $1",
            Statement::SelectAll => "SELECT id, name, email, phone FROM contacts",
            Statement::Update { .. } => "UPDATE contacts SET name = $1, email = $2, phone = $3 WHERE id = $4",
            Statement::Delete { .. } => "DELETE FROM contacts WHERE id = $1",
        }
    }
}

/// What came of running a statement.
#[derive(Clone, Debug, PartialEq, Eq)]
pub enum Outcome {
    /// The table could not be reached, or it refused the statement.
    Failed,
    /// The statement changed this many rows.
    Affected(u64),
    /// The row that was asked for, if the table holds it.
    One(Option<Contact>),
    /// Every row, in the order in which the table gave them.
    Many(Vec<Contact>),
}

/// An outcome as contracts see it.
pub ghost enum OutcomeView {
    Failed,
    Affected(u64),
    One(Option<ContactView>),
    Many(Seq<ContactView>),
}

impl View for Outcome {
    type V = OutcomeView;

    open spec fn view(&self) -> OutcomeView {
        match self {
            Outcome::Failed => OutcomeView::Failed,
            Outcome::Affected(rows) => OutcomeView::Affected(*rows),
            Outcome::One(row) => OutcomeView::One(row.deep_view()),
            Outcome::Many(rows) => OutcomeView::Many(views(rows@)),
        }
    }
}

} // verus!
