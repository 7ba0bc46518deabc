//! Request handling for a small contacts service over HTTP: one table of
//! contacts, and five routes to create, read, list, update and delete them.
//!
//! The crate holds what the service decides, and leaves the socket and the
//! database to its caller. A caller reads the bytes of a request, has
//! [`request::request_text`] make text of them, and hands the text to
//! [`handler::handle_client`], together with what decoding its body gave. What
//! comes back is a [`handler::Step`]: a response to send at once, or the one
//! [`statement::Statement`] to run on the table. The caller runs the statement
//! and hands its [`statement::Outcome`] to [`handler::conclude`] for the response,
//! whose text [`response::Response::into_text`] gives.
//!
//! - [`text`]: character classes and scans.
//! - [`request`]: the text of a request, the identifier in its path, and its
//!   body.
//! - [`contact`]: the contact record and its JSON text, whose strings and
//!   numbers `serde_json` writes.
//! - [`response`]: the fixed status lines and responses.
//! - [`statement`]: the statements and their outcomes.
//! - [`handler`]: from request to statement, and from outcome to response.
//! - [`table`]: what the table is taken to do, and the laws of requests that
//!   follow one another.

pub mod contact;
pub mod handler;
pub mod request;
pub mod response;
pub mod statement;
pub mod table;
pub mod text;
