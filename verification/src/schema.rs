use vstd::prelude::*;

verus! {

/// The value kind a schema describes, as in the generative-language API's
/// `Type` enumeration.
#[derive(Clone, Copy, Debug, PartialEq, Eq, Structural)]
pub enum SchemaKind {
    Unspecified,
    Str,
    Number,
    Integer,
    Boolean,
    Array,
    Object,
}

/// A parameter schema: a kind, and for object schemas the named properties
/// and the list of required property names.
#[derive(Debug, PartialEq)]
pub struct Schema {
    pub kind: SchemaKind,
    pub properties: Vec<(String, Schema)>,
    pub required: Vec<String>,
}

/// A schema of the given kind with no properties and no required names.
pub fn new_schema(kind: SchemaKind) -> (schema: Schema)
    ensures
        schema.kind == kind,
        schema.properties@.len() == 0,
        schema.required@.len() == 0,
{
    Schema { kind, properties: Vec::new(), required: Vec::new() }
}

/// Turn a list of named schemas into owned property entries, keeping order
/// and pairing.
pub fn fields(entries: Vec<(&str, Schema)>) -> (r: Vec<(String, Schema)>)
    ensures
        r@.len() == entries@.len(),
        forall|i: int|
            0 <= i < entries@.len() ==> r@[i].0@ == entries@[i].0@ && r@[i].1 == entries@[i].1,
{
    let ghost orig = entries@;
    let mut entries = entries;
    let mut r: Vec<(String, Schema)> = Vec::new();
    while entries.len() > 0
        invariant
            r@.len() + entries@.len() == orig.len(),
            entries@ == orig.skip(r@.len() as int),
            forall|i: int| 0 <= i < r@.len() ==> r@[i].0@ == orig[i].0@ && r@[i].1 == orig[i].1,
        decreases entries@.len(),
    {
        let (key, value) = entries.remove(0);
        let ghost done = r@.len() as int;
        r.push((key.to_owned(), value));
        proof {
            assert(orig.skip(done)[0] == orig[done]);
            assert(orig.skip(done).skip(1) =~= orig.skip(done + 1));
        }
    }
    r
}

/// Turn a list of field names into owned strings, keeping order.
pub fn required(names: Vec<&str>) -> (r: Vec<String>)
    ensures
        r@.len() == names@.len(),
        forall|i: int| 0 <= i < names@.len() ==> r@[i]@ == names@[i]@,
{
    let mut r: Vec<String> = Vec::new();
    let mut i: usize = 0;
    while i < names.len()
        invariant
            i <= names@.len(),
            r@.len() == i,
            forall|j: int| 0 <= j < i ==> r@[j]@ == names@[j]@,
        decreases names@.len() - i,
    {
        r.push(names[i].to_owned());
        i += 1;
    }
    r
}

/// One callable function advertised to the model: a name, a description,
/// and an object schema of its parameters.
#[derive(Debug, PartialEq)]
pub struct FunctionDeclaration {
    pub name: String,
    pub description: String,
    pub parameters: Option<Schema>,
}

/// One tool entry of the setup message: either the built-in code-execution
/// tool or a set of function declarations.
#[derive(Debug, PartialEq)]
pub struct Tool {
    pub code_execution: bool,
    pub function_declarations: Vec<FunctionDeclaration>,
}

/// The declaration advertises `name` and an object schema whose properties
/// are exactly the string-typed fields named by `keys`, all required.
pub open spec fn declares(fd: FunctionDeclaration, name: Seq<char>, keys: Seq<Seq<char>>) -> bool {
    &&& fd.name@ == name
    &&& fd.parameters matches Some(p)
        && p.kind is Object
        && p.required@.len() == keys.len()
        && (forall|i: int| 0 <= i < keys.len() ==> p.required@[i]@ == keys[i])
        && p.properties@.len() == keys.len()
        && (forall|i: int|
            0 <= i < keys.len() ==> p.properties@[i].0@ == keys[i] && p.properties@[i].1.kind
                is Str)
}

/// A declaration whose parameters are exactly the string-typed required
/// fields named by `keys`.
fn declaration(name: &str, description: &str, keys: Vec<&str>) -> (fd: FunctionDeclaration)
    ensures
        declares(fd, name@, keys@.map_values(|k: &str| k@)),
        fd.description@ == description@,
{
    let mut entries: Vec<(&str, Schema)> = Vec::new();
    let mut i: usize = 0;
    while i < keys.len()
        invariant
            i <= keys@.len(),
            entries@.len() == i,
            forall|j: int|
                0 <= j < i ==> entries@[j].0@ == keys@[j]@ && entries@[j].1.kind is Str,
        decreases keys@.len() - i,
    {
        entries.push((keys[i], new_schema(SchemaKind::Str)));
        i += 1;
    }
    let ghost ent = entries@;
    let ghost ks = keys@;
    let properties = fields(entries);
    let required = required(keys);
    proof {
        let m = ks.map_values(|k: &str| k@);
        assert(m.len() == ks.len());
        assert forall|j: int| 0 <= j < ks.len() implies m[j] == ks[j]@ by {}
        assert forall|j: int| 0 <= j < ks.len() implies required@[j]@ == m[j] by {}
        assert forall|j: int|
            0 <= j < ks.len() implies properties@[j].0@ == m[j] && properties@[j].1.kind is Str by {
            assert(properties@[j].0@ == ent[j].0@);
            assert(properties@[j].1 == ent[j].1);
            assert(ent[j].0@ == ks[j]@);
            assert(ent[j].1.kind is Str);
        }
    }
    FunctionDeclaration {
        name: name.to_owned(),
        description: description.to_owned(),
        parameters: Some(Schema { kind: SchemaKind::Object, properties, required }),
    }
}

/// The full tool registry sent with the setup message: the code-execution
/// tool, then the four chat-surface functions with their required
/// string-typed parameters.
pub fn tool_registry() -> (r: Vec<Tool>)
    ensures
        r@.len() == 2,
        r@[0].code_execution,
        r@[0].function_declarations@.len() == 0,
        !r@[1].code_execution,
        r@[1].function_declarations@.len() == 4,
        declares(
            r@[1].function_declarations@[0],
            "discord_send_message"@,
            seq!["channel_id"@, "content"@],
        ),
        declares(
            r@[1].function_declarations@[1],
            "discord_react_to_message"@,
            seq!["channel_id"@, "message_id"@, "emoji"@],
        ),
        declares(
            r@[1].function_declarations@[2],
            "discord_edit_message"@,
            seq!["channel_id"@, "message_id"@, "new_content"@],
        ),
        declares(
            r@[1].function_declarations@[3],
            "discord_delete_message"@,
            seq!["channel_id"@, "message_id"@],
        ),
{
    let keys_send = vec!["channel_id", "content"];
    let ghost ks_send = keys_send@;
    let send = declaration("discord_send_message", "send a message in a channel", keys_send);
    let keys_react = vec!["channel_id", "message_id", "emoji"];
    let ghost ks_react = keys_react@;
    let react = declaration(
        "discord_react_to_message",
        "react to a message with a single unicode emoji",
        keys_react,
    );
    let keys_edit = vec!["channel_id", "message_id", "new_content"];
    let ghost ks_edit = keys_edit@;
    let edit = declaration("discord_edit_message", "edit one of your own messages", keys_edit);
    let keys_delete = vec!["channel_id", "message_id"];
    let ghost ks_delete = keys_delete@;
    let delete = declaration("discord_delete_message", "delete a message", keys_delete);
    proof {
        assert(ks_send.map_values(|k: &str| k@) =~= seq!["channel_id"@, "content"@]);
        assert(ks_react.map_values(|k: &str| k@) =~= seq![
            "channel_id"@,
            "message_id"@,
            "emoji"@,
        ]);
        assert(ks_edit.map_values(|k: &str| k@) =~= seq![
            "channel_id"@,
            "message_id"@,
            "new_content"@,
        ]);
        assert(ks_delete.map_values(|k: &str| k@) =~= seq!["channel_id"@, "message_id"@]);
    }
    let code_tool = Tool { code_execution: true, function_declarations: Vec::new() };
    let function_tool = Tool {
        code_execution: false,
        function_declarations: vec![send, react, edit, delete],
    };
    vec![code_tool, function_tool]
}

/// The tool registry of the batch path: the send tool alone, taking the
/// one message to post. The triggering event fixes the channel, so the
/// declaration has a single required string field.
pub fn batch_tool_registry() -> (r: Vec<Tool>)
    ensures
        r@.len() == 1,
        !r@[0].code_execution,
        r@[0].function_declarations@.len() == 1,
        declares(r@[0].function_declarations@[0], "discord_send_message"@, seq!["message"@]),
{
    let keys = vec!["message"];
    let ghost ks = keys@;
    let send = declaration("discord_send_message", "send a message in a channel", keys);
    proof {
        assert(ks.map_values(|k: &str| k@) =~= seq!["message"@]);
    }
    vec![Tool { code_execution: false, function_declarations: vec![send] }]
}

} // verus!
