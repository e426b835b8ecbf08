use ari::messages::{ArgValue, ClientMessage, FunctionCall};
use ari::tools::{
    Action, ToolInvocation, action_of, delete_message_status, edit_message_status, get_string_arg,
    name_of, react_to_message_status, responses_for, send_message_status, validate_batch,
    validate_call,
};

fn call(id: &str, name: &str, args: Vec<(&str, ArgValue)>) -> FunctionCall {
    FunctionCall {
        id: id.to_string(),
        name: name.to_string(),
        args: args.into_iter().map(|(k, v)| (k.to_string(), v)).collect(),
    }
}

fn s(text: &str) -> ArgValue {
    ArgValue::Str(text.to_string())
}

#[test]
fn get_string_arg_finds_string_values_only() {
    let args = vec![
        ("flag".to_string(), ArgValue::Bool(true)),
        ("channel_id".to_string(), s("123")),
    ];
    assert_eq!(get_string_arg(&args, "channel_id"), Some(&"123".to_string()));
    assert_eq!(get_string_arg(&args, "flag"), None);
    assert_eq!(get_string_arg(&args, "missing"), None);
}

#[test]
fn validate_accepts_a_complete_send_call() {
    let c = call("1", "discord_send_message", vec![("channel_id", s("123")), ("content", s("hello"))]);
    match validate_call(&c) {
        Some(ToolInvocation::Send { id, channel_id, content }) => {
            assert_eq!(id, "1");
            assert_eq!(channel_id, "123");
            assert_eq!(content, "hello");
        },
        other => panic!("expected a send invocation, got {other:?}"),
    }
}

#[test]
fn missing_content_is_skipped_and_answers_nothing() {
    let c = call("1", "discord_send_message", vec![("channel_id", s("123"))]);
    assert_eq!(validate_call(&c), None);
    let batch = validate_batch(&vec![c]);
    assert!(batch.is_empty());
}

#[test]
fn mistyped_required_argument_is_skipped() {
    let c = call(
        "1",
        "discord_send_message",
        vec![("channel_id", s("123")), ("content", ArgValue::Bool(true))],
    );
    assert_eq!(validate_call(&c), None);
}

#[test]
fn unknown_tool_is_skipped() {
    let c = call("1", "discord_shout", vec![("channel_id", s("123"))]);
    assert_eq!(validate_call(&c), None);
}

#[test]
fn validate_accepts_react_edit_and_delete() {
    let react = call(
        "r",
        "discord_react_to_message",
        vec![("channel_id", s("1")), ("message_id", s("2")), ("emoji", s("🦀"))],
    );
    assert!(matches!(validate_call(&react), Some(ToolInvocation::React { .. })));
    let edit = call(
        "e",
        "discord_edit_message",
        vec![("channel_id", s("1")), ("message_id", s("2")), ("new_content", s("x"))],
    );
    assert!(matches!(validate_call(&edit), Some(ToolInvocation::Edit { .. })));
    let delete = call(
        "d",
        "discord_delete_message",
        vec![("channel_id", s("1")), ("message_id", s("2"))],
    );
    assert!(matches!(validate_call(&delete), Some(ToolInvocation::Delete { .. })));
}

#[test]
fn batch_keeps_call_order_and_skips_only_invalid_calls() {
    let calls = vec![
        call("1", "discord_send_message", vec![("channel_id", s("10")), ("content", s("a"))]),
        call("2", "discord_send_message", vec![("channel_id", s("10"))]),
        call("3", "discord_delete_message", vec![("channel_id", s("10")), ("message_id", s("20"))]),
    ];
    let batch = validate_batch(&calls);
    assert_eq!(batch.len(), 2);
    assert!(matches!(&batch[0], ToolInvocation::Send { id, .. } if id == "1"));
    assert!(matches!(&batch[1], ToolInvocation::Delete { id, .. } if id == "3"));
}

#[test]
fn responses_match_invocations_one_to_one_in_order() {
    let calls = vec![
        call("1", "discord_send_message", vec![("channel_id", s("10")), ("content", s("a"))]),
        call("2", "discord_delete_message", vec![("channel_id", s("10")), ("message_id", s("20"))]),
    ];
    let batch = validate_batch(&calls);
    let statuses = vec!["first".to_string(), "second".to_string()];
    let responses = responses_for(&batch, &statuses);
    assert_eq!(responses.len(), 2);
    let expected = [
        ("1", "discord_send_message", "first"),
        ("2", "discord_delete_message", "second"),
    ];
    for (message, (id, name, output)) in responses.iter().zip(expected) {
        match message {
            ClientMessage::ToolResponse(tr) => {
                assert_eq!(tr.function_responses.len(), 1);
                assert_eq!(tr.function_responses[0].id, id);
                assert_eq!(tr.function_responses[0].name, name);
                assert_eq!(tr.function_responses[0].output, output);
            },
            other => panic!("expected a tool response, got {other:?}"),
        }
    }
}

#[test]
fn name_of_reports_the_registered_tool() {
    let inv = ToolInvocation::Delete {
        id: "d".to_string(),
        channel_id: "1".to_string(),
        message_id: "2".to_string(),
    };
    assert_eq!(name_of(&inv), "discord_delete_message");
}

#[test]
fn action_of_parses_identifiers() {
    let inv = ToolInvocation::Send {
        id: "1".to_string(),
        channel_id: "123".to_string(),
        content: "hello".to_string(),
    };
    assert_eq!(
        action_of(&inv),
        Ok(Action::SendMessage { channel_id: 123, content: "hello".to_string() }),
    );
}

#[test]
fn action_of_reports_the_bad_identifier() {
    let bad_channel = ToolInvocation::Send {
        id: "1".to_string(),
        channel_id: "abc".to_string(),
        content: "hello".to_string(),
    };
    assert_eq!(action_of(&bad_channel), Err("failed to parse channel_id".to_string()));
    let bad_message = ToolInvocation::React {
        id: "2".to_string(),
        channel_id: "123".to_string(),
        message_id: "0".to_string(),
        emoji: "x".to_string(),
    };
    assert_eq!(action_of(&bad_message), Err("failed to parse message_id".to_string()));
}

#[test]
fn send_status_success_names_channel_and_new_message() {
    let status = send_message_status("123", &Ok("900".to_string()), "555");
    assert_eq!(status, "successfully sent your message to channel_id=123 message_id=900");
    assert!(status.contains("123"));
    assert!(status.contains("900"));
}

#[test]
fn send_status_failure_reports_error_and_suggests_trigger_channel() {
    let status = send_message_status("123", &Err("missing access".to_string()), "555");
    assert_eq!(
        status,
        "failed to send your message to channel_id=123, maybe try again with channel_id=555? \
         heres the error: missing access",
    );
    assert!(status.contains("missing access"));
    assert!(status.contains("555"));
}

#[test]
fn react_and_edit_statuses_confirm_or_suggest() {
    let ok = react_to_message_status("1", "2", &Ok(()), "3", "4");
    assert_eq!(ok, "successfully reacted to channel_id=1 message_id=2");
    let failed = react_to_message_status("1", "2", &Err("nope".to_string()), "3", "4");
    assert_eq!(
        failed,
        "failed to react to channel_id=1 message_id=2, maybe try again with channel_id=3 \
         message_id=4? heres the error: nope",
    );
    assert_eq!(edit_message_status("1", "2", &Ok(()), "3", "4"), ok);
    assert_eq!(edit_message_status("1", "2", &Err("nope".to_string()), "3", "4"), failed);
}

#[test]
fn delete_status_confirms_or_reports() {
    assert_eq!(
        delete_message_status("1", "2", &Ok(())),
        "successfully deleted message channel_id=1 message_id=2",
    );
    assert_eq!(
        delete_message_status("1", "2", &Err("gone".to_string())),
        "failed to delete message channel_id=1 message_id=2, heres the error: gone",
    );
}
