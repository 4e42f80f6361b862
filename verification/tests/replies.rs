use backend_core::error::{no_fields_to_update, not_found, server_error};
use backend_core::reply::{check_health, Body, Field, Reply, Status};

fn msg(status: Status, field: Field, text: &str) -> Reply {
    Reply { status, body: Body::Message(field, text.to_string()) }
}

#[test]
fn status_codes_are_the_http_codes() {
    assert_eq!(Status::Success.code(), 200);
    assert_eq!(Status::TemporaryRedirect.code(), 307);
    assert_eq!(Status::BadRequest.code(), 400);
    assert_eq!(Status::Unauthorized.code(), 401);
    assert_eq!(Status::NotFound.code(), 404);
    assert_eq!(Status::InternalServerError.code(), 500);
}

#[test]
fn field_names_are_the_json_keys() {
    assert_eq!(Field::Msg.name(), "msg");
    assert_eq!(Field::Error.name(), "error");
    assert_eq!(Field::Token.name(), "token");
    assert_eq!(Field::Status.name(), "status");
    assert_eq!(Field::ShortUrl.name(), "short_url");
}

#[test]
fn health_check_answers_ok() {
    assert_eq!(check_health(), msg(Status::Success, Field::Status, "ok"));
}

#[test]
fn not_found_is_404_with_msg() {
    assert_eq!(not_found("user not found"), msg(Status::NotFound, Field::Msg, "user not found"));
}

#[test]
fn server_error_is_500_with_the_error_text() {
    assert_eq!(
        server_error("pool timed out while waiting for an open connection"),
        msg(
            Status::InternalServerError,
            Field::Msg,
            "pool timed out while waiting for an open connection"
        )
    );
}

#[test]
fn no_fields_to_update_is_400_with_msg() {
    assert_eq!(
        no_fields_to_update("no fields to update"),
        msg(Status::BadRequest, Field::Msg, "no fields to update")
    );
}
