use vstd::prelude::*;

verus! {

/// A JSON-like value, as a model hands over the arguments of a tool call.
/// Numbers that are not non-negative integers keep their textual form.
#[derive(Debug)]
pub enum ArgValue {
    Null,
    Bool(bool),
    Unsigned(u64),
    Number(String),
    Text(String),
    List(Vec<ArgValue>),
    Object(Vec<(String, ArgValue)>),
}

/// The value under the first entry whose key is `key`.
pub open spec fn entry_lookup(entries: Seq<(String, ArgValue)>, key: Seq<char>) -> Option<ArgValue>
    decreases entries.len(),
{
    if entries.len() == 0 {
        None
    } else if entries[0].0@ == key {
        Some(entries[0].1)
    } else {
        entry_lookup(entries.drop_first(), key)
    }
}

/// The field `key` of an object; nothing for any other value.
pub open spec fn field_of(v: ArgValue, key: Seq<char>) -> Option<ArgValue> {
    match v {
        ArgValue::Object(entries) => entry_lookup(entries@, key),
        _ => None,
    }
}

/// The string held by a text value.
pub open spec fn text_of(v: Option<ArgValue>) -> Option<String> {
    match v {
        Some(ArgValue::Text(s)) => Some(s),
        _ => None,
    }
}

/// The number held by an unsigned integer value.
pub open spec fn unsigned_of(v: Option<ArgValue>) -> Option<u64> {
    match v {
        Some(ArgValue::Unsigned(n)) => Some(n),
        _ => None,
    }
}

/// The strings among a list of values, in order.
pub open spec fn texts_in(items: Seq<ArgValue>) -> Seq<String>
    decreases items.len(),
{
    if items.len() == 0 {
        Seq::empty()
    } else {
        let rest = texts_in(items.drop_last());
        match items.last() {
            ArgValue::Text(s) => rest.push(s),
            _ => rest,
        }
    }
}

/// The strings of a list value; empty for any other value.
pub open spec fn string_list_of(v: Option<ArgValue>) -> Seq<String> {
    match v {
        Some(ArgValue::List(items)) => texts_in(items@),
        _ => Seq::empty(),
    }
}

/// The value behind an optional reference.
pub open spec fn deref_opt<T>(o: Option<&T>) -> Option<T> {
    match o {
        Some(v) => Some(*v),
        None => None,
    }
}

impl ArgValue {
    /// The field `key` of an object value.
    pub fn get(&self, key: &str) -> (r: Option<&ArgValue>)
        ensures
            deref_opt(r) == field_of(*self, key@),
    {
        match self {
            ArgValue::Object(entries) => {
                let wanted = String::from_str(key);
                let mut i: usize = 0;
                assert(entries@.subrange(0, entries@.len() as int) =~= entries@);
                while i < entries.len()
                    invariant
                        i <= entries@.len(),
                        wanted@ == key@,
                        field_of(*self, key@) == entry_lookup(entries@, key@),
                        entry_lookup(entries@, key@) == entry_lookup(entries@.subrange(i as int, entries@.len() as int), key@),
                    decreases entries.len() - i,
                {
                    let ghost rest = entries@.subrange(i as int, entries@.len() as int);
                    assert(rest.drop_first() =~= entries@.subrange(i + 1, entries@.len() as int));
                    assert(rest[0] == entries@[i as int]);
                    if entries[i].0 == wanted {
                        assert(entry_lookup(rest, key@) == Some(entries@[i as int].1));
                        return Some(&entries[i].1);
                    }
                    i = i + 1;
                }
                assert(entries@.subrange(i as int, entries@.len() as int).len() == 0);
                None
            },
            _ => None,
        }
    }

    /// The string of a text value.
    pub fn as_str(&self) -> (r: Option<&String>)
        ensures
            deref_opt(r) == text_of(Some(*self)),
    {
        match self {
            ArgValue::Text(s) => Some(s),
            _ => None,
        }
    }

    /// The number of an unsigned integer value.
    pub fn as_u64(&self) -> (r: Option<u64>)
        ensures
            r == unsigned_of(Some(*self)),
    {
        match self {
            ArgValue::Unsigned(n) => Some(*n),
            _ => None,
        }
    }
}

/// Copies the strings out of a list of values, skipping every other value.
pub fn collect_texts(items: &Vec<ArgValue>) -> (r: Vec<String>)
    ensures
        r@ == texts_in(items@),
{
    let mut r: Vec<String> = Vec::new();
    let mut i: usize = 0;
    while i < items.len()
        invariant
            i <= items@.len(),
            r@ == texts_in(items@.subrange(0, i as int)),
        decreases items.len() - i,
    {
        assert(items@.subrange(0, i + 1).drop_last() =~= items@.subrange(0, i as int));
        match &items[i] {
            ArgValue::Text(s) => {
                r.push(s.clone());
            },
            _ => {},
        }
        i = i + 1;
    }
    assert(items@.subrange(0, i as int) =~= items@);
    r
}

/// The name of a requested tool and the arguments the model gave it.
#[derive(Debug)]
pub struct FunctionCall {
    pub name: String,
    pub arguments: ArgValue,
}

/// A model's request to run one tool.
#[derive(Debug)]
pub struct ToolCall {
    pub function: FunctionCall,
}

/// One message of a conversation: its role, its text, and the tool requests that
/// an assistant message carries.
#[derive(Debug)]
pub struct ChatMessage {
    pub role: String,
    pub content: String,
    pub tool_calls: Option<Vec<ToolCall>>,
}

/// A message as values: role, text and tool requests.
pub struct Turn {
    pub role: Seq<char>,
    pub content: Seq<char>,
    pub tool_calls: Option<Seq<ToolCall>>,
}

impl View for ChatMessage {
    type V = Turn;

    open spec fn view(&self) -> Turn {
        Turn {
            role: self.role@,
            content: self.content@,
            tool_calls: match self.tool_calls {
                Some(v) => Some(v@),
                None => None,
            },
        }
    }
}

impl ChatMessage {
    /// A message of the given role that carries no tool request.
    pub fn plain(role: &str, content: String) -> (r: ChatMessage)
        ensures
            r@ == (Turn { role: role@, content: content@, tool_calls: None }),
    {
        ChatMessage { role: String::from_str(role), content, tool_calls: None }
    }
}

/// One parameter of a tool: its name, its JSON type, what it is for, the type of
/// its items when it is a list, and whether the model must give it.
#[derive(Debug)]
pub struct ToolParameter {
    pub name: String,
    pub param_type: String,
    pub description: String,
    pub items_type: Option<String>,
    pub required: bool,
}

/// The declaration of a tool that a model may request.
#[derive(Debug)]
pub struct ToolFunction {
    pub name: String,
    pub description: String,
    pub parameters: Vec<ToolParameter>,
}

/// A tool offered to the model.
#[derive(Debug)]
pub struct Tool {
    pub tool_type: String,
    pub function: ToolFunction,
}

/// A plain completion request.
#[derive(Debug)]
pub struct OllamaRequest {
    pub model: String,
    pub prompt: String,
    pub stream: Option<bool>,
}

/// A chat request: the model, the conversation so far and the tools offered.
#[derive(Debug)]
pub struct ChatRequest {
    pub model: String,
    pub messages: Vec<ChatMessage>,
    pub stream: bool,
    pub tools: Vec<Tool>,
}

/// The answer to a plain completion request.
#[derive(Debug)]
pub struct OllamaResponse {
    pub model: String,
    pub response: String,
    pub done: bool,
}

/// The answer to a chat request: one assistant message.
#[derive(Debug)]
pub struct ChatResponse {
    pub model: String,
    pub message: ChatMessage,
    pub done: bool,
}

/// Why the model could not be asked.
#[derive(Debug)]
pub enum OllamaError {
    /// The request did not reach the model, or its answer did not parse.
    RequestError(String),
    /// The model's server answered with a failure status.
    ApiError(String),
}

/// The text that describes a gateway error.
pub open spec fn gateway_error_text(e: OllamaError) -> Seq<char> {
    match e {
        OllamaError::RequestError(m) => "Failed to send request to Ollama: "@ + m@,
        OllamaError::ApiError(m) => "Ollama API error: "@ + m@,
    }
}

impl OllamaError {
    /// The text that describes this error.
    pub fn message(&self) -> (r: String)
        ensures
            r@ == gateway_error_text(*self),
    {
        match self {
            OllamaError::RequestError(m) => String::from_str("Failed to send request to Ollama: ").concat(m.as_str()),
            OllamaError::ApiError(m) => String::from_str("Ollama API error: ").concat(m.as_str()),
        }
    }
}

} // verus!
