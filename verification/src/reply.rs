//! What a request is answered: an HTTP status with a text message, and the
//! three ways a read of one row can end.
use vstd::prelude::*;

verus! {

/// An answer made of an HTTP status code and a plain-text body.
#[derive(Clone, Debug)]
pub struct TextReply {
    pub status: u16,
    pub message: String,
}

/// `r` is the answer with status `status` and body `message`.
pub open spec fn is_reply(r: TextReply, status: u16, message: Seq<char>) -> bool {
    r.status == status && r.message@ == message
}

/// The answer with the given status and body.
pub fn reply(status: u16, message: &str) -> (r: TextReply)
    ensures
        is_reply(r, status, message@),
{
    TextReply { status, message: message.to_owned() }
}

/// The outcome of reading at most one row: the row, no row, or a failure of
/// the database.
#[derive(Clone, Debug)]
pub enum Lookup<T> {
    Found(T),
    Missing,
    Failed,
}

/// `message` followed by `detail`.
pub fn with_detail(status: u16, message: &str, detail: &str) -> (r: TextReply)
    ensures
        is_reply(r, status, message@ + detail@),
{
    let mut text = message.to_owned();
    text.append(detail);
    TextReply { status, message: text }
}

/// A list read from the database, or `500` with `Erreur BDD` where the read
/// failed (`None`).
pub fn listing_or_db_error<T>(read: Option<Vec<T>>) -> (r: Result<Vec<T>, TextReply>)
    ensures
        match read {
            Some(rows) => r == Ok::<Vec<T>, TextReply>(rows),
            None => r is Err && is_reply(r->Err_0, INTERNAL_SERVER_ERROR, "Erreur BDD"@),
        },
{
    match read {
        Some(rows) => Ok(rows),
        None => Err(reply(INTERNAL_SERVER_ERROR, "Erreur BDD")),
    }
}

/// `200 OK`
pub const OK: u16 = 200;

/// `201 Created`
pub const CREATED: u16 = 201;

/// `400 Bad Request`
pub const BAD_REQUEST: u16 = 400;

/// `401 Unauthorized`
pub const UNAUTHORIZED: u16 = 401;

/// `404 Not Found`
pub const NOT_FOUND: u16 = 404;

/// `500 Internal Server Error`
pub const INTERNAL_SERVER_ERROR: u16 = 500;

} // verus!
