//! The answers that the HTTP services send: a status and a small body.
use crate::models::UserData;
use vstd::prelude::*;

verus! {

/// HTTP status of an answer.
#[derive(Clone, Copy, Debug, PartialEq, Eq, Structural)]
pub enum Status {
    Success,
    TemporaryRedirect,
    BadRequest,
    Unauthorized,
    NotFound,
    InternalServerError,
}

/// The numeric HTTP code of a status.
pub open spec fn status_code(s: Status) -> u16 {
    match s {
        Status::Success => 200,
        Status::TemporaryRedirect => 307,
        Status::BadRequest => 400,
        Status::Unauthorized => 401,
        Status::NotFound => 404,
        Status::InternalServerError => 500,
    }
}

impl Status {
    /// The numeric HTTP code of this status.
    pub fn code(&self) -> (c: u16)
        ensures
            c == status_code(*self),
    {
        match self {
            Status::Success => 200,
            Status::TemporaryRedirect => 307,
            Status::BadRequest => 400,
            Status::Unauthorized => 401,
            Status::NotFound => 404,
            Status::InternalServerError => 500,
        }
    }
}

} // verus!

verus! {

/// The one key of a JSON object body such as `{"msg": "..."}`.
#[derive(Clone, Copy, Debug, PartialEq, Eq, Structural)]
pub enum Field {
    Msg,
    Error,
    Token,
    Status,
    ShortUrl,
}

/// The JSON key that a field is written under.
pub open spec fn field_name(f: Field) -> Seq<char> {
    match f {
        Field::Msg => "msg"@,
        Field::Error => "error"@,
        Field::Token => "token"@,
        Field::Status => "status"@,
        Field::ShortUrl => "short_url"@,
    }
}

impl Field {
    /// The JSON key that this field is written under.
    pub fn name(&self) -> (r: &'static str)
        ensures
            r@ == field_name(*self),
    {
        match self {
            Field::Msg => "msg",
            Field::Error => "error",
            Field::Token => "token",
            Field::Status => "status",
            Field::ShortUrl => "short_url",
        }
    }
}

/// What an answer carries.
#[derive(Clone, Debug, PartialEq, Eq)]
pub enum Body {
    /// A JSON object with one string field.
    Message(Field, String),
    /// One user, as JSON.
    User(UserData),
    /// A list of users, as JSON.
    Users(Vec<UserData>),
    /// No body: a redirect to this location.
    Location(String),
}

/// An HTTP answer.
#[derive(Clone, Debug, PartialEq, Eq)]
pub struct Reply {
    pub status: Status,
    pub body: Body,
}

/// `r` has status `status` and the body `{field: text}`.
pub open spec fn is_message(r: Reply, status: Status, field: Field, text: Seq<char>) -> bool {
    &&& r.status == status
    &&& r.body matches Body::Message(f, t)
    &&& f == field
    &&& t@ == text
}

/// An answer with a one-field JSON body.
pub fn message(status: Status, field: Field, text: &str) -> (r: Reply)
    ensures
        is_message(r, status, field, text@),
{
    Reply { status, body: Body::Message(field, String::from_str(text)) }
}

/// The answer of the health check: 200 and `{"status": "ok"}`.
pub fn check_health() -> (r: Reply)
    ensures
        is_message(r, Status::Success, Field::Status, "ok"@),
{
    message(Status::Success, Field::Status, "ok")
}

} // verus!
