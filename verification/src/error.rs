//! The error answers of the user account API, each with a `{"msg": ...}` body.
use crate::reply::{is_message, message, Field, Reply, Status};
use vstd::prelude::*;

verus! {

/// 404 with `{"msg": msg}`.
pub fn not_found(msg: &str) -> (r: Reply)
    ensures
        is_message(r, Status::NotFound, Field::Msg, msg@),
{
    message(Status::NotFound, Field::Msg, msg)
}

/// 500 with `{"msg": msg}`, where `msg` is the text of the database error.
pub fn server_error(msg: &str) -> (r: Reply)
    ensures
        is_message(r, Status::InternalServerError, Field::Msg, msg@),
{
    message(Status::InternalServerError, Field::Msg, msg)
}

/// 400 with `{"msg": msg}`.
pub fn no_fields_to_update(msg: &str) -> (r: Reply)
    ensures
        is_message(r, Status::BadRequest, Field::Msg, msg@),
{
    message(Status::BadRequest, Field::Msg, msg)
}

} // verus!
