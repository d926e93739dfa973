use slack_client::errors::SlackApiError;
use slack_client::response::{
    delete_form_pairs, delete_outcome, interpret_delete_response, interpret_post_response,
    post_outcome,
};

#[test]
fn post_success_yields_server_ts() {
    let body = "{\"ok\":true,\"message\":{\"ts\":\"1234.5678\"}}";
    let result = interpret_post_response(200, body);
    assert_eq!(result, Ok("1234.5678".to_string()));
}

#[test]
fn post_without_message_id_is_invalid() {
    let result = interpret_post_response(200, "{\"ok\":true}");
    assert_eq!(
        result,
        Err(SlackApiError::InvalidArgument("No message ID in response".to_string()))
    );
}

#[test]
fn post_with_non_string_ts_is_invalid() {
    let result = interpret_post_response(200, "{\"message\":{\"ts\":7}}");
    assert_eq!(
        result,
        Err(SlackApiError::InvalidArgument("No message ID in response".to_string()))
    );
}

#[test]
fn post_with_malformed_body_is_invalid() {
    let result = interpret_post_response(200, "not json at all");
    assert_eq!(
        result,
        Err(SlackApiError::InvalidArgument("No message ID in response".to_string()))
    );
}

#[test]
fn post_http_failure_is_never_success() {
    let body = "{\"ok\":true,\"message\":{\"ts\":\"1234.5678\"}}";
    let result = interpret_post_response(500, body);
    assert_eq!(result, Err(SlackApiError::HttpRequestFailed("HTTP status 500".to_string())));
    let redirect = interpret_post_response(301, body);
    assert_eq!(redirect, Err(SlackApiError::HttpRequestFailed("HTTP status 301".to_string())));
}

#[test]
fn delete_ok_true_succeeds() {
    let result = interpret_delete_response(200, "{\"ok\":true}");
    assert_eq!(result, Ok(()));
}

#[test]
fn delete_ok_false_fails_as_invalid() {
    let result = interpret_delete_response(200, "{\"ok\":false}");
    assert_eq!(
        result,
        Err(SlackApiError::InvalidArgument("Failed to delete message".to_string()))
    );
}

#[test]
fn delete_missing_ok_fails_as_invalid() {
    let result = interpret_delete_response(200, "{}");
    assert_eq!(
        result,
        Err(SlackApiError::InvalidArgument("Failed to delete message".to_string()))
    );
}

#[test]
fn delete_http_failure_reports_status() {
    let result = interpret_delete_response(404, "{\"ok\":true}");
    assert_eq!(result, Err(SlackApiError::HttpRequestFailed("HTTP status 404".to_string())));
}

#[test]
fn extraction_reads_expected_paths() {
    assert_eq!(
        interpret_post_response(200, "{\"message\":{\"ts\":\"9.9\"}}"),
        Ok("9.9".to_string())
    );
    assert_eq!(
        interpret_post_response(200, "{\"message\":{}}"),
        Err(SlackApiError::InvalidArgument("No message ID in response".to_string()))
    );
    assert_eq!(interpret_delete_response(200, "{\"ok\":true}"), Ok(()));
    assert_eq!(
        interpret_delete_response(200, "{\"ok\":\"yes\"}"),
        Err(SlackApiError::InvalidArgument("Failed to delete message".to_string()))
    );
}

#[test]
fn outcomes_are_exact() {
    assert_eq!(post_outcome(Some("1.2".to_string())), Ok("1.2".to_string()));
    assert_eq!(
        post_outcome(None),
        Err(SlackApiError::InvalidArgument("No message ID in response".to_string()))
    );
    assert_eq!(delete_outcome(Some(true)), Ok(()));
    assert_eq!(
        delete_outcome(Some(false)),
        Err(SlackApiError::InvalidArgument("Failed to delete message".to_string()))
    );
    assert_eq!(
        delete_outcome(None),
        Err(SlackApiError::InvalidArgument("Failed to delete message".to_string()))
    );
}

#[test]
fn delete_form_has_exactly_channel_and_ts() {
    let pairs = delete_form_pairs("C123".to_string(), "1234.5678".to_string());
    assert_eq!(pairs.len(), 2);
    assert_eq!(pairs[0].0, "channel");
    assert_eq!(pairs[0].1, "C123");
    assert_eq!(pairs[1].0, "ts");
    assert_eq!(pairs[1].1, "1234.5678");
}

#[test]
fn error_descriptions_name_the_kind() {
    let invalid = SlackApiError::InvalidArgument("bad".to_string());
    assert_eq!(invalid.describe(), "Invalid argument: bad");
    let http = SlackApiError::HttpRequestFailed("boom".to_string());
    assert_eq!(http.describe(), "HTTP request failed: boom");
}
