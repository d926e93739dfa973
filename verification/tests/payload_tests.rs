use slack_client::chat::{
    post_message_payload, ChatPostMessageArguments, ChatPostMessageAttachment,
    ChatPostMessageField,
};
use slack_client::errors::SlackApiError;
use slack_client::json::{render_value, JsonValue};

fn args_with_channel(channel: &str) -> ChatPostMessageArguments {
    let mut args = ChatPostMessageArguments::default();
    args.channel = channel.to_string();
    args
}

fn payload_json(args: &ChatPostMessageArguments) -> serde_json::Value {
    let bytes = post_message_payload(args).expect("payload should build");
    let text = String::from_utf8(bytes).expect("payload should be UTF-8");
    serde_json::from_str(&text).expect("payload should be valid JSON")
}

#[test]
fn missing_payload_fields_are_rejected() {
    // No text, no blocks, no attachments: rejected before anything is built,
    // so no request body ever exists for such arguments.
    let args = args_with_channel("C123");
    let result = post_message_payload(&args);
    assert_eq!(
        result.unwrap_err(),
        SlackApiError::InvalidArgument("text, attachments, or blocks is required".to_string())
    );
}

#[test]
fn text_only_payload_has_exactly_two_keys() {
    let mut args = args_with_channel("C123");
    args.text = Some("hello".to_string());
    let v = payload_json(&args);
    let obj = v.as_object().expect("payload is an object");
    assert_eq!(obj.len(), 2);
    assert_eq!(v["channel"].as_str(), Some("C123"));
    assert_eq!(v["text"].as_str(), Some("hello"));
}

#[test]
fn omitted_optional_fields_are_wholly_absent() {
    let mut args = args_with_channel("C9");
    args.text = Some("hi".to_string());
    args.username = Some("bot".to_string());
    let v = payload_json(&args);
    let obj = v.as_object().expect("payload is an object");
    assert!(obj.contains_key("channel"));
    assert!(obj.contains_key("text"));
    assert!(obj.contains_key("username"));
    assert!(!obj.contains_key("blocks"));
    assert!(!obj.contains_key("attachments"));
    assert!(!obj.contains_key("icon_emoji"));
    assert!(!obj.contains_key("icon_url"));
    assert!(!obj.contains_key("link_names"));
    assert!(!obj.contains_key("metadata"));
    assert!(!obj.contains_key("mrkdwn"));
    assert!(!obj.contains_key("parse"));
    assert!(!obj.contains_key("reply_broadcast"));
    assert!(!obj.contains_key("thread_ts"));
    assert_eq!(obj.len(), 3);
}

#[test]
fn string_escaping_round_trips() {
    let mut args = args_with_channel("C1");
    let tricky = "he said \"hi\\there\"\nnew line\ttab\u{1}control";
    args.text = Some(tricky.to_string());
    let v = payload_json(&args);
    assert_eq!(v["text"].as_str(), Some(tricky));
}

#[test]
fn non_ascii_text_round_trips() {
    let mut args = args_with_channel("C1");
    let text = "grüße aus München — ¡hola! 你好";
    args.text = Some(text.to_string());
    let v = payload_json(&args);
    assert_eq!(v["text"].as_str(), Some(text));
}

#[test]
fn boolean_fields_serialize_as_booleans() {
    let mut args = args_with_channel("C1");
    args.text = Some("x".to_string());
    args.mrkdwn = Some(false);
    args.reply_broadcast = Some(true);
    let v = payload_json(&args);
    assert_eq!(v["mrkdwn"].as_bool(), Some(false));
    assert_eq!(v["reply_broadcast"].as_bool(), Some(true));
}

#[test]
fn attachment_fields_serialize_and_omit() {
    let mut att = ChatPostMessageAttachment::default();
    att.title = Some("report".to_string());
    att.ts = Some(-42);
    att.fields = Some(vec![ChatPostMessageField {
        title: "cpu".to_string(),
        value: "93%".to_string(),
        short: true,
    }]);
    let mut args = args_with_channel("C1");
    args.attachments = Some(vec![att]);
    let v = payload_json(&args);
    let atts = v["attachments"].as_array().expect("attachments is an array");
    assert_eq!(atts.len(), 1);
    let a = atts[0].as_object().expect("attachment is an object");
    assert_eq!(a.len(), 3);
    assert_eq!(atts[0]["title"].as_str(), Some("report"));
    assert_eq!(atts[0]["ts"].as_i64(), Some(-42));
    assert!(!a.contains_key("color"));
    assert!(!a.contains_key("fallback"));
    let fields = atts[0]["fields"].as_array().expect("fields is an array");
    assert_eq!(fields.len(), 1);
    assert_eq!(fields[0]["title"].as_str(), Some("cpu"));
    assert_eq!(fields[0]["value"].as_str(), Some("93%"));
    assert_eq!(fields[0]["short"].as_bool(), Some(true));
}

#[test]
fn empty_attachment_serializes_as_empty_object() {
    let mut args = args_with_channel("C1");
    args.attachments = Some(vec![ChatPostMessageAttachment::default()]);
    let v = payload_json(&args);
    let atts = v["attachments"].as_array().expect("attachments is an array");
    assert_eq!(atts.len(), 1);
    assert_eq!(atts[0].as_object().expect("attachment is an object").len(), 0);
}

#[test]
fn blocks_serialize_as_given_structures() {
    let block = JsonValue::Obj(vec![
        ("type".to_string(), JsonValue::Str("section".to_string())),
        ("count".to_string(), JsonValue::Int(3)),
        (
            "tags".to_string(),
            JsonValue::Arr(vec![
                JsonValue::Str("a".to_string()),
                JsonValue::Bool(true),
                JsonValue::Null,
            ]),
        ),
    ]);
    let mut args = args_with_channel("C1");
    args.blocks = Some(vec![block]);
    let v = payload_json(&args);
    let blocks = v["blocks"].as_array().expect("blocks is an array");
    assert_eq!(blocks.len(), 1);
    assert_eq!(blocks[0]["type"].as_str(), Some("section"));
    assert_eq!(blocks[0]["count"].as_i64(), Some(3));
    let tags = blocks[0]["tags"].as_array().expect("tags is an array");
    assert_eq!(tags[0].as_str(), Some("a"));
    assert_eq!(tags[1].as_bool(), Some(true));
    assert!(tags[2].is_null());
}

#[test]
fn integer_rendering_handles_extremes() {
    let min = render_value(&JsonValue::Int(i64::MIN));
    assert_eq!(String::from_utf8(min).unwrap(), "-9223372036854775808");
    let max = render_value(&JsonValue::Int(i64::MAX));
    assert_eq!(String::from_utf8(max).unwrap(), "9223372036854775807");
    let zero = render_value(&JsonValue::Int(0));
    assert_eq!(String::from_utf8(zero).unwrap(), "0");
}

#[test]
fn every_set_field_reaches_the_payload() {
    let mut args = args_with_channel("C1");
    args.text = Some("t".to_string());
    args.blocks = Some(vec![JsonValue::Null]);
    args.attachments = Some(vec![ChatPostMessageAttachment::default()]);
    args.icon_emoji = Some(":tada:".to_string());
    args.icon_url = Some("https://example.test/i.png".to_string());
    args.link_names = Some(true);
    args.metadata = Some(vec![]);
    args.mrkdwn = Some(true);
    args.parse = Some("full".to_string());
    args.reply_broadcast = Some(false);
    args.thread_ts = Some("1.2".to_string());
    args.username = Some("bot".to_string());
    let v = payload_json(&args);
    let obj = v.as_object().expect("payload is an object");
    assert_eq!(obj.len(), 13);
    for key in [
        "channel",
        "text",
        "blocks",
        "attachments",
        "icon_emoji",
        "icon_url",
        "link_names",
        "metadata",
        "mrkdwn",
        "parse",
        "reply_broadcast",
        "thread_ts",
        "username",
    ] {
        assert!(obj.contains_key(key), "missing key {key}");
    }
    assert_eq!(v["metadata"].as_array().map(|a| a.len()), Some(0));
}

#[test]
fn text_only_arguments_carry_channel_and_text() {
    let args = ChatPostMessageArguments::text_only("C77".to_string(), "ping".to_string());
    assert_eq!(args.channel, "C77");
    assert_eq!(args.text.as_deref(), Some("ping"));
    assert!(args.blocks.is_none());
    assert!(args.attachments.is_none());
    let v = payload_json(&args);
    assert_eq!(v.as_object().unwrap().len(), 2);
    assert_eq!(v["channel"].as_str(), Some("C77"));
    assert_eq!(v["text"].as_str(), Some("ping"));
}
