use crate::schema::Tool;
use vstd::prelude::*;

verus! {

/// One value of a tool call's argument map. The protocol logic only ever
/// reads string-valued arguments; a value of any other kind (number,
/// structure, list) is carried as `Other` and counts as mistyped wherever a
/// string is required.
#[derive(Clone, Debug, PartialEq)]
pub enum ArgValue {
    Str(String),
    Bool(bool),
    Other,
}

/// A model-issued request to run one named tool: a correlation id, the tool
/// name, and a key-value argument map.
#[derive(Clone, Debug, PartialEq)]
pub struct FunctionCall {
    pub id: String,
    pub name: String,
    pub args: Vec<(String, ArgValue)>,
}

/// The payload of one content part.
#[derive(Clone, Debug, PartialEq)]
pub enum PartData {
    Text(String),
    InlineData { mime_type: String, data: Vec<u8> },
    FunctionCall(FunctionCall),
    Other,
}

/// One part of a content turn. `thought` marks model-internal reasoning
/// text that is not meant as an answer.
#[derive(Clone, Debug, PartialEq)]
pub struct Part {
    pub thought: bool,
    pub data: Option<PartData>,
}

/// One bounded unit of conversational content from either side.
#[derive(Clone, Debug, PartialEq)]
pub struct Content {
    pub role: String,
    pub parts: Vec<Part>,
}

/// Generation settings declared at setup. Only the response modalities are
/// read by this logic.
#[derive(Clone, Copy, Debug, PartialEq, Eq, Structural)]
pub enum Modality {
    Unspecified,
    Text,
    Image,
    Audio,
}

#[derive(Clone, Debug, PartialEq)]
pub struct GenerationConfig {
    pub response_modalities: Vec<Modality>,
}

/// The mandatory first client message: model name, generation settings,
/// system instruction and the tool registry.
#[derive(Debug, PartialEq)]
pub struct Setup {
    pub model: String,
    pub generation_config: Option<GenerationConfig>,
    pub system_instruction: Option<Content>,
    pub tools: Vec<Tool>,
}

/// Client content: one or more turns and the turn-completion flag.
#[derive(Clone, Debug, PartialEq)]
pub struct ClientContent {
    pub turns: Vec<Content>,
    pub turn_complete: bool,
}

/// The correlated result for one function call. The response map carries a
/// single `output` entry holding the status text.
#[derive(Clone, Debug, PartialEq)]
pub struct FunctionResponse {
    pub id: String,
    pub name: String,
    pub output: String,
}

/// The results sent back for a batch of function calls.
#[derive(Clone, Debug, PartialEq)]
pub struct ToolResponse {
    pub function_responses: Vec<FunctionResponse>,
}

/// Every message a client can send on the duplex stream.
#[derive(Debug, PartialEq)]
pub enum ClientMessage {
    Setup(Setup),
    ClientContent(ClientContent),
    ToolResponse(ToolResponse),
}

/// Server content: an optional model turn plus the two terminal flags.
#[derive(Clone, Debug, PartialEq)]
pub struct ServerContent {
    pub model_turn: Option<Content>,
    pub turn_complete: bool,
    pub interrupted: bool,
}

/// A batch of function calls to answer, in order.
#[derive(Clone, Debug, PartialEq)]
pub struct ToolCall {
    pub function_calls: Vec<FunctionCall>,
}

/// Every message the server can send on the duplex stream; kinds this logic
/// does not act on arrive as `Other`.
#[derive(Clone, Debug, PartialEq)]
pub enum ServerMessage {
    ServerContent(ServerContent),
    ToolCall(ToolCall),
    Other,
}

/// A content value holding exactly one non-thought text part with the given
/// text.
pub open spec fn is_single_text_content(c: Content, text: Seq<char>) -> bool {
    &&& c.parts@.len() == 1
    &&& !c.parts@[0].thought
    &&& c.parts@[0].data matches Some(PartData::Text(t)) && t@ == text
}

/// A client-content message carrying one turn of one text part and closing
/// the turn.
pub open spec fn is_context_message(m: ClientMessage, text: Seq<char>) -> bool {
    &&& m matches ClientMessage::ClientContent(cc)
    &&& cc.turn_complete
    &&& cc.turns@.len() == 1
    &&& is_single_text_content(cc.turns@[0], text)
}

/// The text of a client-content message of one turn and one text part, if
/// it has that shape.
pub open spec fn single_text_of(m: ClientMessage) -> Option<Seq<char>> {
    match m {
        ClientMessage::ClientContent(cc) => {
            if cc.turns@.len() == 1 && cc.turns@[0].parts@.len() == 1 {
                match cc.turns@[0].parts@[0].data {
                    Some(PartData::Text(t)) => Some(t@),
                    _ => None,
                }
            } else {
                None
            }
        },
        _ => None,
    }
}

/// A content value of one non-thought text part.
pub fn single_text_content(text: String) -> (c: Content)
    ensures
        is_single_text_content(c, text@),
{
    Content {
        role: String::new(),
        parts: vec![Part { thought: false, data: Some(PartData::Text(text)) }],
    }
}

/// The client-content message for one triggering context: a single text
/// part and `turn_complete` set.
pub fn client_content_message(text: String) -> (m: ClientMessage)
    ensures
        is_context_message(m, text@),
{
    let content = single_text_content(text);
    ClientMessage::ClientContent(ClientContent { turns: vec![content], turn_complete: true })
}

/// Read back the single text part of a client-content message, if the
/// message has that shape.
pub fn extract_single_text(m: &ClientMessage) -> (r: Option<&String>)
    ensures
        match single_text_of(*m) {
            Some(t) => r matches Some(s) && s@ == t,
            None => r is None,
        },
{
    match m {
        ClientMessage::ClientContent(cc) => {
            if cc.turns.len() == 1 {
                let content = &cc.turns[0];
                if content.parts.len() == 1 {
                    match &content.parts[0].data {
                        Some(PartData::Text(t)) => Some(t),
                        _ => None,
                    }
                } else {
                    None
                }
            } else {
                None
            }
        },
        _ => None,
    }
}

/// Round trip: a client-content message built from one text part carries
/// exactly that text, so extracting the single text part reproduces the
/// string the message was built from, verbatim.
pub proof fn lemma_client_content_round_trip(m: ClientMessage, text: Seq<char>)
    requires
        is_context_message(m, text),
    ensures
        single_text_of(m) == Some(text),
{
}

/// The setup message: the model path, a text-only response modality, the
/// system instruction as one text part, and the given tool registry.
pub fn setup_message(model: &str, system_instruction: &str, tools: Vec<Tool>) -> (m: ClientMessage)
    ensures
        m matches ClientMessage::Setup(s),
        m matches ClientMessage::Setup(s) ==> {
            &&& s.model@ == "models/"@ + model@
            &&& s.generation_config matches Some(gc) && gc.response_modalities@ == seq![
                Modality::Text,
            ]
            &&& s.system_instruction matches Some(c) && is_single_text_content(
                c,
                system_instruction@,
            )
            &&& s.tools@ == tools@
        },
{
    let mut model_path: String = String::from_str("models/");
    model_path.append(model);
    let m = ClientMessage::Setup(
        Setup {
            model: model_path,
            generation_config: Some(GenerationConfig { response_modalities: vec![Modality::Text] }),
            system_instruction: Some(single_text_content(system_instruction.to_owned())),
            tools,
        },
    );
    proof {
        assert(m matches ClientMessage::Setup(s) ==> s.generation_config matches Some(gc)
            && gc.response_modalities@ =~= seq![Modality::Text]);
    }
    m
}

/// The tool-response message answering one function call: a single
/// response whose `output` entry holds the status text.
pub fn tool_response_message(id: String, name: String, output: String) -> (m: ClientMessage)
    ensures
        m matches ClientMessage::ToolResponse(tr),
        m matches ClientMessage::ToolResponse(tr) ==> {
            &&& tr.function_responses@.len() == 1
            &&& tr.function_responses@[0].id@ == id@
            &&& tr.function_responses@[0].name@ == name@
            &&& tr.function_responses@[0].output@ == output@
        },
{
    ClientMessage::ToolResponse(
        ToolResponse { function_responses: vec![FunctionResponse { id, name, output }] },
    )
}

/// The context line summarizing one triggering chat event: who wrote, in
/// which channel, when, the two identifiers, and the message content in
/// quoted form.
pub open spec fn context_line(
    author: Seq<char>,
    channel_name: Seq<char>,
    time: Seq<char>,
    channel_id: Seq<char>,
    message_id: Seq<char>,
    content: Seq<char>,
) -> Seq<char> {
    "A new message by "@ + author + " in #"@ + channel_name + " "@ + time + ": channel_id="@
        + channel_id + " message_id="@ + message_id + " content="@ + crate::text::quoted(content)
}

/// Format the context line for one triggering chat event.
pub fn context_text(
    author: &str,
    channel_name: &str,
    time: &str,
    channel_id: &str,
    message_id: &str,
    content: &str,
) -> (r: String)
    ensures
        r@ == context_line(author@, channel_name@, time@, channel_id@, message_id@, content@),
{
    let mut r: String = String::from_str("A new message by ");
    r.append(author);
    r.append(" in #");
    r.append(channel_name);
    r.append(" ");
    r.append(time);
    r.append(": channel_id=");
    r.append(channel_id);
    r.append(" message_id=");
    r.append(message_id);
    r.append(" content=");
    let quoted_content = crate::text::quote(content);
    r.append(quoted_content.as_str());
    r
}

} // verus!
