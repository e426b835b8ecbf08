use ari::messages::{
    ClientMessage, Modality, PartData, client_content_message, context_text, extract_single_text,
    setup_message, tool_response_message,
};
use ari::schema::tool_registry;

#[test]
fn context_round_trip_reproduces_text() {
    let text = context_text(
        "alice",
        "general",
        "12:30:00 Monday, January, 05 2, 2026",
        "42",
        "7",
        "hi",
    );
    let expected = "A new message by alice in #general 12:30:00 Monday, January, 05 2, 2026: \
                    channel_id=42 message_id=7 content=\"hi\"";
    assert_eq!(text, expected);
    let message = client_content_message(text.clone());
    let extracted = extract_single_text(&message);
    assert_eq!(extracted, Some(&text));
}

#[test]
fn context_text_quotes_and_escapes_content() {
    let text = context_text("bob", "dev", "t", "1", "2", "a\"b\\c\nd");
    assert!(text.ends_with("content=\"a\\\"b\\\\c\\nd\""));
}

#[test]
fn client_content_closes_the_turn() {
    let m = client_content_message("x".to_string());
    match &m {
        ClientMessage::ClientContent(cc) => {
            assert!(cc.turn_complete);
            assert_eq!(cc.turns.len(), 1);
            assert_eq!(cc.turns[0].parts.len(), 1);
            assert!(!cc.turns[0].parts[0].thought);
        },
        _ => panic!("expected client content"),
    }
}

#[test]
fn extract_single_text_rejects_other_shapes() {
    let m = tool_response_message("1".to_string(), "n".to_string(), "out".to_string());
    assert_eq!(extract_single_text(&m), None);
}

#[test]
fn setup_message_declares_model_modality_instruction_and_tools() {
    let m = setup_message("gemini-2.0-flash-live-001", "be kind", tool_registry());
    match &m {
        ClientMessage::Setup(s) => {
            assert_eq!(s.model, "models/gemini-2.0-flash-live-001");
            let gc = s.generation_config.as_ref().unwrap();
            assert_eq!(gc.response_modalities, vec![Modality::Text]);
            let si = s.system_instruction.as_ref().unwrap();
            assert_eq!(si.parts.len(), 1);
            match si.parts[0].data.as_ref().unwrap() {
                PartData::Text(t) => assert_eq!(t, "be kind"),
                _ => panic!("expected a text part"),
            }
            assert_eq!(s.tools.len(), 2);
            assert!(s.tools[0].code_execution);
            assert!(s.tools[0].function_declarations.is_empty());
            assert!(!s.tools[1].code_execution);
            let names: Vec<&str> = s.tools[1]
                .function_declarations
                .iter()
                .map(|d| d.name.as_str())
                .collect();
            assert_eq!(
                names,
                vec![
                    "discord_send_message",
                    "discord_react_to_message",
                    "discord_edit_message",
                    "discord_delete_message",
                ],
            );
        },
        _ => panic!("expected a setup message"),
    }
}

#[test]
fn tool_response_message_carries_id_name_and_output() {
    let m = tool_response_message("call-7".to_string(), "discord_send_message".to_string(), "ok".to_string());
    match &m {
        ClientMessage::ToolResponse(tr) => {
            assert_eq!(tr.function_responses.len(), 1);
            assert_eq!(tr.function_responses[0].id, "call-7");
            assert_eq!(tr.function_responses[0].name, "discord_send_message");
            assert_eq!(tr.function_responses[0].output, "ok");
        },
        _ => panic!("expected a tool response"),
    }
}
