use ari::auth::Authentication;
use ari::router::{ChatEvent, should_respond};
use ari::schema::{SchemaKind, fields, new_schema, required, tool_registry};

fn event(author_id: u64, mentions: Vec<u64>, replied_author: Option<u64>) -> ChatEvent {
    ChatEvent {
        author_id,
        channel_id: 10,
        message_id: 20,
        author_name: "alice".to_string(),
        channel_name: "general".to_string(),
        content: "hi".to_string(),
        mentions,
        replied_author,
    }
}

const SELF_ID: u64 = 99;

#[test]
fn own_messages_are_never_answered() {
    assert!(!should_respond(&event(SELF_ID, vec![SELF_ID], Some(SELF_ID)), SELF_ID));
}

#[test]
fn mentions_are_answered() {
    assert!(should_respond(&event(1, vec![2, SELF_ID], None), SELF_ID));
}

#[test]
fn replies_to_own_messages_are_answered() {
    assert!(should_respond(&event(1, vec![], Some(SELF_ID)), SELF_ID));
}

#[test]
fn unrelated_messages_are_ignored() {
    assert!(!should_respond(&event(1, vec![2, 3], Some(4)), SELF_ID));
}

#[test]
fn authentication_keeps_the_key() {
    let auth = Authentication::new("test-api-key");
    assert_eq!(auth.key, "test-api-key");
}

#[test]
fn new_schema_is_bare() {
    let schema = new_schema(SchemaKind::Str);
    assert_eq!(schema.kind, SchemaKind::Str);
    assert!(schema.properties.is_empty());
    assert!(schema.required.is_empty());
}

#[test]
fn fields_and_required_keep_order() {
    let props = fields(vec![("a", new_schema(SchemaKind::Str)), ("b", new_schema(SchemaKind::Object))]);
    assert_eq!(props.len(), 2);
    assert_eq!(props[0].0, "a");
    assert_eq!(props[0].1.kind, SchemaKind::Str);
    assert_eq!(props[1].0, "b");
    assert_eq!(props[1].1.kind, SchemaKind::Object);
    assert_eq!(required(vec!["a", "b"]), vec!["a".to_string(), "b".to_string()]);
}

#[test]
fn registry_requires_the_documented_fields() {
    let tools = tool_registry();
    assert_eq!(tools.len(), 2);
    let expectations: [(&str, &[&str]); 4] = [
        ("discord_send_message", &["channel_id", "content"]),
        ("discord_react_to_message", &["channel_id", "message_id", "emoji"]),
        ("discord_edit_message", &["channel_id", "message_id", "new_content"]),
        ("discord_delete_message", &["channel_id", "message_id"]),
    ];
    for (decl, (name, keys)) in tools[1].function_declarations.iter().zip(expectations) {
        assert_eq!(decl.name, name);
        let schema = decl.parameters.as_ref().unwrap();
        assert_eq!(schema.kind, SchemaKind::Object);
        let required_keys: Vec<&str> = schema.required.iter().map(|k| k.as_str()).collect();
        assert_eq!(required_keys, keys);
        let property_keys: Vec<&str> = schema.properties.iter().map(|p| p.0.as_str()).collect();
        assert_eq!(property_keys, keys);
        for (_, property) in &schema.properties {
            assert_eq!(property.kind, SchemaKind::Str);
        }
    }
}
