//! What the user account API answers. Each handler of the service reads or
//! writes the database and then hands the outcome, with the database error
//! rendered as text, to the function of the same name here.
use crate::auth::{
    hash_password, is_default_argon2_phc, is_phc_string, max_password_bytes, password_matches,
    phc_parses, verify_password,
};
use crate::error::{no_fields_to_update, not_found, server_error};
use crate::ids::{is_v4_uuid, new_v4_uuid};
use crate::models::{LoginUser, NewUser, RegisterUser, UpdateUser, UserData, UserData2};
use crate::reply::{is_message, message, Body, Field, Reply, Status};
use vstd::prelude::*;

verus! {

/// What a login does next: answer now, or issue a token for this user id
/// (see `auth::generate_token`) and answer with it (see `token_issued`).
#[derive(Clone, Debug, PartialEq, Eq)]
pub enum LoginStep {
    Respond(Reply),
    IssueToken(u128),
}

/// The login rule: `step` is what a login with `password` does after the
/// lookup of the user by email gave `lookup`.
pub open spec fn login_step(
    password: Seq<char>,
    lookup: Result<Option<UserData2>, String>,
    step: LoginStep,
) -> bool {
    match lookup {
        Err(e) => step matches LoginStep::Respond(r) && is_message(
            r,
            Status::InternalServerError,
            Field::Msg,
            e@,
        ),
        Ok(None) => step matches LoginStep::Respond(r) && is_message(
            r,
            Status::NotFound,
            Field::Msg,
            "User not found"@,
        ),
        Ok(Some(u)) => if password_matches(password, u.password@) {
            step matches LoginStep::IssueToken(id) && id == u.id
        } else {
            step matches LoginStep::Respond(r) && is_message(
                r,
                Status::Unauthorized,
                Field::Error,
                "Password is incorrect"@,
            )
        },
    }
}

/// Decides a login from the lookup of the user by email. The stored hash of
/// a user that was found must be a PHC string.
pub fn login(payload: &LoginUser, lookup: Result<Option<UserData2>, String>) -> (step: LoginStep)
    requires
        lookup matches Ok(Some(u)) ==> phc_parses(u.password@),
    ensures
        login_step(payload.password@, lookup, step),
{
    match lookup {
        Ok(Some(user)) => {
            if !verify_password(payload.password.as_str(), user.password.as_str()) {
                return LoginStep::Respond(
                    message(Status::Unauthorized, Field::Error, "Password is incorrect"),
                );
            }
            LoginStep::IssueToken(user.id)
        },
        Ok(None) => LoginStep::Respond(not_found("User not found")),
        Err(e) => LoginStep::Respond(server_error(e.as_str())),
    }
}

/// Decides a login like `login`, for any lookup: `None` when the stored
/// hash of the user that was found is not a PHC string.
pub fn login_checked(payload: &LoginUser, lookup: Result<Option<UserData2>, String>) -> (r: Option<
    LoginStep,
>)
    ensures
        r is None <==> (lookup matches Ok(Some(u)) && !phc_parses(u.password@)),
        r matches Some(step) ==> login_step(payload.password@, lookup, step),
{
    let well_formed = match &lookup {
        Ok(Some(user)) => is_phc_string(user.password.as_str()),
        _ => true,
    };
    if well_formed {
        Some(login(payload, lookup))
    } else {
        None
    }
}

/// 200 with `{"token": token}`: the answer to a login once its token is
/// encoded.
pub fn token_issued(token: &str) -> (r: Reply)
    ensures
        is_message(r, Status::Success, Field::Token, token@),
{
    message(Status::Success, Field::Token, token)
}

/// The answer to the listing of all users: 200 with the users, or 500 with
/// the error.
pub open spec fn answers_listing(result: Result<Vec<UserData>, String>, r: Reply) -> bool {
    match result {
        Ok(users) => r.status == Status::Success && r.body == Body::Users(users),
        Err(e) => is_message(r, Status::InternalServerError, Field::Msg, e@),
    }
}

/// The answer to the listing of all users.
pub fn get_users(result: Result<Vec<UserData>, String>) -> (r: Reply)
    ensures
        answers_listing(result, r),
{
    match result {
        Ok(users) => Reply { status: Status::Success, body: Body::Users(users) },
        Err(e) => server_error(e.as_str()),
    }
}

/// `payload` registered as `rec`: a fresh version 4 id, the name and email
/// unchanged, and a PHC hash that the password verifies against.
pub open spec fn registration_of(payload: RegisterUser, rec: NewUser) -> bool {
    &&& is_v4_uuid(rec.id)
    &&& rec.name == payload.name
    &&& rec.email == payload.email
    &&& phc_parses(rec.password_hash@)
    &&& password_matches(payload.password@, rec.password_hash@)
    &&& is_default_argon2_phc(rec.password_hash@)
}

/// The row that a registration inserts: a fresh random id and the Argon2
/// hash of the password in place of the password.
pub fn register(payload: RegisterUser) -> (rec: NewUser)
    requires
        vstd::utf8::encode_utf8(payload.password@).len() <= max_password_bytes(),
    ensures
        registration_of(payload, rec),
{
    let password_hash = hash_password(payload.password.as_str());
    let id = new_v4_uuid();
    NewUser { id, name: payload.name, email: payload.email, password_hash }
}

/// The answer to an insert that returns the new user: 200 with the user, or
/// 500 with the error.
pub open spec fn answers_insert(result: Result<UserData, String>, r: Reply) -> bool {
    match result {
        Ok(user) => r.status == Status::Success && r.body == Body::User(user),
        Err(e) => is_message(r, Status::InternalServerError, Field::Msg, e@),
    }
}

/// The answer to a registration, from the insert that returns the new user.
pub fn registered(result: Result<UserData, String>) -> (r: Reply)
    ensures
        answers_insert(result, r),
{
    match result {
        Ok(user) => Reply { status: Status::Success, body: Body::User(user) },
        Err(e) => server_error(e.as_str()),
    }
}

/// The answer to a query that returns at most one user: the user, 404 with
/// `{"msg": "user not found"}`, or 500 with the error.
pub open spec fn answers_user_query(result: Result<Option<UserData>, String>, r: Reply) -> bool {
    match result {
        Ok(Some(user)) => r.status == Status::Success && r.body == Body::User(user),
        Ok(None) => is_message(r, Status::NotFound, Field::Msg, "user not found"@),
        Err(e) => is_message(r, Status::InternalServerError, Field::Msg, e@),
    }
}

fn user_query_reply(result: Result<Option<UserData>, String>) -> (r: Reply)
    ensures
        answers_user_query(result, r),
{
    match result {
        Ok(Some(user)) => Reply { status: Status::Success, body: Body::User(user) },
        Ok(None) => not_found("user not found"),
        Err(e) => server_error(e.as_str()),
    }
}

/// The answer to the lookup of the signed-in user.
pub fn get_user(result: Result<Option<UserData>, String>) -> (r: Reply)
    ensures
        answers_user_query(result, r),
{
    user_query_reply(result)
}

/// The answer to the deletion of the signed-in user, from the delete that
/// returns the deleted row.
pub fn delete_user(result: Result<Option<UserData>, String>) -> (r: Reply)
    ensures
        answers_user_query(result, r),
{
    user_query_reply(result)
}

/// An update answers before any query exactly when neither the name nor the
/// email is given, and then with 400 `{"msg": "no fields to update"}`.
pub open spec fn early_update_answer(new_details: UpdateUser, r: Option<Reply>) -> bool {
    &&& r is Some <==> (new_details.name is None && new_details.email is None)
    &&& r matches Some(reply) ==> is_message(
        reply,
        Status::BadRequest,
        Field::Msg,
        "no fields to update"@,
    )
}

/// The answer to an update that changes nothing, given before any query:
/// `Some` exactly when neither the name nor the email is given.
pub fn update_user(new_details: &UpdateUser) -> (r: Option<Reply>)
    ensures
        early_update_answer(*new_details, r),
{
    if new_details.name.is_none() && new_details.email.is_none() {
        Some(no_fields_to_update("no fields to update"))
    } else {
        None
    }
}

/// The answer to an update that was run, from the update that returns the
/// changed row.
pub fn updated_user(result: Result<Option<UserData>, String>) -> (r: Reply)
    ensures
        answers_user_query(result, r),
{
    user_query_reply(result)
}

/// A registration stores the name and the email as they were given, in
/// their own columns, and stores no password but a hash that the given
/// password checks out against.
pub proof fn registration_keeps_name_and_email(payload: RegisterUser, rec: NewUser)
    requires
        registration_of(payload, rec),
    ensures
        rec.name == payload.name,
        rec.email == payload.email,
        rec.name@ == payload.name@,
        rec.email@ == payload.email@,
        phc_parses(rec.password_hash@),
        password_matches(payload.password@, rec.password_hash@),
{
}

/// Whatever the user, a query that returns a row answers 200 with exactly
/// that row; 404 "user not found" comes only from a query that found no
/// row, and 500 only from a failed query, with its error.
pub proof fn found_user_is_returned(result: Result<Option<UserData>, String>, r: Reply)
    requires
        answers_user_query(result, r),
    ensures
        result matches Ok(Some(user)) ==> r.status == Status::Success && r.body == Body::User(user),
        r.status == Status::NotFound ==> result matches Ok(None),
        r.status == Status::InternalServerError ==> result is Err,
        r.status == Status::Success ==> (result matches Ok(Some(user)) && r.body == Body::User(user)),
{
}

/// Whatever the users, a listing that succeeds answers 200 with every user
/// it read, in order; an answer other than 200 comes only from a failed
/// listing, and carries its error.
pub proof fn listing_returns_all_users(result: Result<Vec<UserData>, String>, r: Reply)
    requires
        answers_listing(result, r),
    ensures
        result matches Ok(users) ==> r.status == Status::Success && r.body == Body::Users(users),
        r.status != Status::Success ==> (result matches Err(e) && r.status
            == Status::InternalServerError && (r.body matches Body::Message(_, t) && t@ == e@)),
{
}

/// Whatever the new user, an insert that succeeds answers 200 with the row
/// it returned; otherwise 500 with the error.
pub proof fn insert_returns_the_new_user(result: Result<UserData, String>, r: Reply)
    requires
        answers_insert(result, r),
    ensures
        result matches Ok(user) ==> r.status == Status::Success && r.body == Body::User(user),
        result matches Err(e) ==> r.status == Status::InternalServerError && (r.body matches Body::Message(_, t) && t@ == e@),
{
}

/// An update that gives a name or an email always reaches the database; only
/// an update that gives neither is refused, with 400.
pub proof fn update_with_a_field_reaches_the_database(new_details: UpdateUser, r: Option<Reply>)
    requires
        early_update_answer(new_details, r),
    ensures
        new_details.name is Some ==> r is None,
        new_details.email is Some ==> r is None,
        r matches Some(reply) ==> reply.status == Status::BadRequest,
        (new_details.name is None && new_details.email is None) ==> r is Some,
{
}

/// A login issues a token exactly when the user was found and the password
/// matches the stored hash, and then for that user's id.
pub proof fn login_issues_token_exactly_on_a_match(
    password: Seq<char>,
    lookup: Result<Option<UserData2>, String>,
    step: LoginStep,
)
    requires
        login_step(password, lookup, step),
    ensures
        step is IssueToken <==> (lookup matches Ok(Some(u)) && password_matches(password, u.password@)),
        step matches LoginStep::IssueToken(id) ==> (lookup matches Ok(Some(u)) && id == u.id),
{
}

/// A user who registered with a password and logs in with the same password
/// is issued a token for the id that was registered.
pub proof fn registered_password_logs_in(
    payload: RegisterUser,
    rec: NewUser,
    attempt: LoginUser,
    step: LoginStep,
)
    requires
        registration_of(payload, rec),
        attempt.password@ == payload.password@,
        login_step(
            attempt.password@,
            Ok(Some(UserData2 { id: rec.id, password: rec.password_hash })),
            step,
        ),
    ensures
        phc_parses(rec.password_hash@),
        step matches LoginStep::IssueToken(id) && id == rec.id,
{
}

} // verus!
