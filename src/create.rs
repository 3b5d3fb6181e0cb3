use vstd::prelude::*;

use crate::message::{Message, NewMessage};

verus! {

/// The statement that stores a payload without expiration.
pub const INSERT_TEXT_SQL: &'static str = "insert into messages (text) values (?)";

/// The statement that stores a payload with its expiration.
pub const INSERT_TEXT_EXPIRY_SQL: &'static str = "insert into messages (text, expires_at) values (?, ?)";

/// The insert statement for `payload`: the expiration column is written only
/// when the payload carries one, so that it stays unset otherwise.
pub fn insert_sql(payload: &NewMessage) -> (r: &'static str)
    ensures
        payload.expires_at is Some ==> r@ == INSERT_TEXT_EXPIRY_SQL@,
        payload.expires_at is None ==> r@ == INSERT_TEXT_SQL@,
{
    match payload.expires_at {
        Some(_) => INSERT_TEXT_EXPIRY_SQL,
        None => INSERT_TEXT_SQL,
    }
}

/// The body of a successful create: the message as stored, or, when reading
/// it back failed, the payload as it was submitted.
pub enum CreatedBody {
    Stored(Message),
    Echoed(NewMessage),
}

/// Decides the body of a create once the insert has succeeded. A failed
/// read-back never fails the request.
pub fn created_body(submitted: NewMessage, read_back: Option<Message>) -> (r: CreatedBody)
    ensures
        r == match read_back {
            Some(m) => CreatedBody::Stored(m),
            None => CreatedBody::Echoed(submitted),
        },
{
    match read_back {
        Some(m) => CreatedBody::Stored(m),
        None => CreatedBody::Echoed(submitted),
    }
}

} // verus!
