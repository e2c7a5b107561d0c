use vstd::prelude::*;
use crate::llm::{
    ArgValue, ChatMessage, OllamaError, Tool, ToolCall, ToolFunction, ToolParameter, Turn,
    collect_texts, field_of, gateway_error_text, string_list_of, text_of, unsigned_of,
};
use crate::python_invoker::{PythonInvokerError, PythonScriptResult, invoker_error_text, render_run_report, run_report};
use crate::websearch::{SearchResult, WebSearchError, hits_text, render_results, search_error_text};

verus! {

/// An incoming chat request: the user's message and the model to ask.
#[derive(Debug)]
pub struct ChatRequest {
    pub message: String,
    pub model: String,
}

/// The body of the reply to a chat request.
#[derive(Debug)]
pub struct ChatApiResponse {
    pub response: String,
}

/// How many search results a search asks for when the model names no count.
pub const DEFAULT_SEARCH_COUNT: u64 = 5;

/// The instructions used when none are supplied.
pub open spec fn default_prompt() -> Seq<char> {
    "You are a helpful assistant."@
}

/// The system instructions with the time of the request appended.
pub open spec fn system_text(prompt: Seq<char>, now: Seq<char>) -> Seq<char> {
    prompt + " Current date and time: "@ + now
}

/// A parameter as values: name, type, description, item type and whether it is required.
pub open spec fn param_sig(p: ToolParameter) -> (Seq<char>, Seq<char>, Seq<char>, Option<Seq<char>>, bool) {
    (
        p.name@,
        p.param_type@,
        p.description@,
        match p.items_type {
            Some(t) => Some(t@),
            None => None,
        },
        p.required,
    )
}

/// The declared parameters of the search tool.
pub open spec fn websearch_params() -> Seq<(Seq<char>, Seq<char>, Seq<char>, Option<Seq<char>>, bool)> {
    seq![
        ("query"@, "string"@, "The search query to do web search on."@, None, true),
        ("count"@, "number"@, "Optional field to mention how many web search results are needed"@, None, false),
    ]
}

/// The declared parameters of the script tool.
pub open spec fn python_invoker_params() -> Seq<(Seq<char>, Seq<char>, Seq<char>, Option<Seq<char>>, bool)> {
    seq![
        ("script"@, "string"@, "The Python script to execute."@, None, true),
        ("args"@, "array"@, "Optional arguments to pass to the script."@, Some("string"@), false),
    ]
}

/// A tool declaration with the given name, description and parameters.
pub open spec fn declares(
    t: Tool,
    name: Seq<char>,
    description: Seq<char>,
    params: Seq<(Seq<char>, Seq<char>, Seq<char>, Option<Seq<char>>, bool)>,
) -> bool {
    &&& t.tool_type@ == "function"@
    &&& t.function.name@ == name
    &&& t.function.description@ == description
    &&& t.function.parameters@.map_values(|p: ToolParameter| param_sig(p)) == params
}

fn parameter(name: &str, param_type: &str, description: &str, items_type: Option<&str>, required: bool) -> (r: ToolParameter)
    ensures
        param_sig(r) == (name@, param_type@, description@, match items_type {
            Some(t) => Some(t@),
            None => None,
        }, required),
{
    ToolParameter {
        name: String::from_str(name),
        param_type: String::from_str(param_type),
        description: String::from_str(description),
        items_type: match items_type {
            Some(t) => Some(String::from_str(t)),
            None => None,
        },
        required,
    }
}

/// A tool request that the loop will run.
#[derive(Debug)]
pub enum ToolInvocation {
    Search { query: String, count: u64 },
    Script { script: String, args: Vec<String> },
}

/// A tool request as values.
pub enum Request {
    Search { query: Seq<char>, count: u64 },
    Script { script: Seq<char>, args: Seq<Seq<char>> },
}

impl View for ToolInvocation {
    type V = Request;

    open spec fn view(&self) -> Request {
        match self {
            ToolInvocation::Search { query, count } => Request::Search { query: query@, count: *count },
            ToolInvocation::Script { script, args } => Request::Script {
                script: script@,
                args: args@.map_values(|s: String| s@),
            },
        }
    }
}

/// What the loop does with an assistant message.
pub enum Plan {
    /// The message is the final answer.
    Answer,
    /// A tool is to be run.
    Run(Request),
    /// The requested tool cannot run on the arguments given.
    Reject(Seq<char>),
}

/// The failure text when a search request lacks its query.
pub open spec fn missing_query_text() -> Seq<char> {
    "Web search failed: missing or empty argument `query`"@
}

/// The failure text when a script request lacks its script.
pub open spec fn missing_script_text() -> Seq<char> {
    "Python script execution failed: missing or empty argument `script`"@
}

/// The first tool request of a message, if it carries any.
pub open spec fn first_request(t: Turn) -> Option<ToolCall> {
    match t.tool_calls {
        Some(calls) => if calls.len() > 0 {
            Some(calls[0])
        } else {
            None
        },
        None => None,
    }
}

/// The plan for an assistant message. Only its first tool request counts; a request
/// for a tool that is not offered counts as no request.
pub open spec fn plan_of(t: Turn) -> Plan {
    match first_request(t) {
        None => Plan::Answer,
        Some(c) => {
            let args = c.function.arguments;
            if c.function.name@ == "websearch"@ {
                match text_of(field_of(args, "query"@)) {
                    Some(q) => if q@.len() > 0 {
                        Plan::Run(
                            Request::Search {
                                query: q@,
                                count: match unsigned_of(field_of(args, "count"@)) {
                                    Some(n) => n,
                                    None => DEFAULT_SEARCH_COUNT,
                                },
                            },
                        )
                    } else {
                        Plan::Reject(missing_query_text())
                    },
                    None => Plan::Reject(missing_query_text()),
                }
            } else if c.function.name@ == "python_invoker"@ {
                match text_of(field_of(args, "script"@)) {
                    Some(s) => if s@.len() > 0 {
                        Plan::Run(
                            Request::Script {
                                script: s@,
                                args: string_list_of(field_of(args, "args"@)).map_values(|x: String| x@),
                            },
                        )
                    } else {
                        Plan::Reject(missing_script_text())
                    },
                    None => Plan::Reject(missing_script_text()),
                }
            } else {
                Plan::Answer
            }
        },
    }
}

/// The plan of a message, as `Ok(None)` for an answer, `Ok(Some(..))` for a tool to
/// run and `Err(..)` for a request that cannot run.
pub open spec fn planned(r: Result<Option<ToolInvocation>, String>, t: Turn) -> bool {
    match plan_of(t) {
        Plan::Answer => r matches Ok(None),
        Plan::Run(q) => r matches Ok(Some(inv)) && inv@ == q,
        Plan::Reject(m) => r matches Err(e) && e@ == m,
    }
}

fn search_request(args: &ArgValue) -> (r: Result<Option<ToolInvocation>, String>)
    ensures
        match text_of(field_of(*args, "query"@)) {
            Some(q) => if q@.len() > 0 {
                r matches Ok(Some(inv)) && inv@ == (Request::Search {
                    query: q@,
                    count: match unsigned_of(field_of(*args, "count"@)) {
                        Some(n) => n,
                        None => DEFAULT_SEARCH_COUNT,
                    },
                })
            } else {
                r matches Err(e) && e@ == missing_query_text()
            },
            None => r matches Err(e) && e@ == missing_query_text(),
        },
{
    let query = match args.get("query") {
        Some(v) => v.as_str(),
        None => None,
    };
    match query {
        Some(q) => {
            if q.as_str().is_empty() {
                return Err(String::from_str("Web search failed: missing or empty argument `query`"));
            }
            let count = match args.get("count") {
                Some(v) => match v.as_u64() {
                    Some(n) => n,
                    None => DEFAULT_SEARCH_COUNT,
                },
                None => DEFAULT_SEARCH_COUNT,
            };
            Ok(Some(ToolInvocation::Search { query: q.clone(), count }))
        },
        None => Err(String::from_str("Web search failed: missing or empty argument `query`")),
    }
}

fn script_request(args: &ArgValue) -> (r: Result<Option<ToolInvocation>, String>)
    ensures
        match text_of(field_of(*args, "script"@)) {
            Some(s) => if s@.len() > 0 {
                r matches Ok(Some(inv)) && inv@ == (Request::Script {
                    script: s@,
                    args: string_list_of(field_of(*args, "args"@)).map_values(|x: String| x@),
                })
            } else {
                r matches Err(e) && e@ == missing_script_text()
            },
            None => r matches Err(e) && e@ == missing_script_text(),
        },
{
    let script = match args.get("script") {
        Some(v) => v.as_str(),
        None => None,
    };
    match script {
        Some(s) => {
            if s.as_str().is_empty() {
                return Err(String::from_str("Python script execution failed: missing or empty argument `script`"));
            }
            let list = match args.get("args") {
                Some(v) => match v {
                    ArgValue::List(items) => collect_texts(items),
                    _ => Vec::new(),
                },
                None => Vec::new(),
            };
            Ok(Some(ToolInvocation::Script { script: s.clone(), args: list }))
        },
        None => Err(String::from_str("Python script execution failed: missing or empty argument `script`")),
    }
}

/// Decides what to do with an assistant message: answer, run its first tool
/// request, or fail on a request whose required argument is missing.
pub fn plan_tool_call(msg: &ChatMessage) -> (r: Result<Option<ToolInvocation>, String>)
    ensures
        planned(r, msg@),
{
    match &msg.tool_calls {
        Some(calls) => {
            if calls.len() == 0 {
                return Ok(None);
            }
            let call = &calls[0];
            let websearch = String::from_str("websearch");
            let python_invoker = String::from_str("python_invoker");
            if call.function.name == websearch {
                search_request(&call.function.arguments)
            } else if call.function.name == python_invoker {
                script_request(&call.function.arguments)
            } else {
                Ok(None)
            }
        },
        None => Ok(None),
    }
}

/// What a tool run came to.
#[derive(Debug)]
pub enum ToolEvent {
    SearchDone(Result<Vec<SearchResult>, WebSearchError>),
    ScriptDone(Result<PythonScriptResult, PythonInvokerError>),
}

/// The text a tool run hands back to the model, or the failure it ends the request with.
pub open spec fn outcome_of(e: ToolEvent) -> Result<Seq<char>, Seq<char>> {
    match e {
        ToolEvent::SearchDone(Ok(v)) => Ok(hits_text(v@.map_values(|x: SearchResult| x@))),
        ToolEvent::SearchDone(Err(err)) => Err("Web search failed: "@ + search_error_text(err)),
        ToolEvent::ScriptDone(Ok(res)) => Ok(run_report(res.exit_code, res.stdout@, res.stderr@)),
        ToolEvent::ScriptDone(Err(err)) => Err("Python script execution failed: "@ + invoker_error_text(err)),
    }
}

/// Renders what a tool run came to.
pub fn tool_outcome(e: &ToolEvent) -> (r: Result<String, String>)
    ensures
        match (r, outcome_of(*e)) {
            (Ok(a), Ok(b)) => a@ == b,
            (Err(a), Err(b)) => a@ == b,
            _ => false,
        },
{
    match e {
        ToolEvent::SearchDone(Ok(v)) => Ok(render_results(v)),
        ToolEvent::SearchDone(Err(err)) => Err(String::from_str("Web search failed: ").concat(err.message().as_str())),
        ToolEvent::ScriptDone(Ok(res)) => Ok(render_run_report(res.exit_code, res.stdout.as_str(), res.stderr.as_str())),
        ToolEvent::ScriptDone(Err(err)) => Err(
            String::from_str("Python script execution failed: ").concat(err.message().as_str()),
        ),
    }
}

/// Where a conversation stands.
#[derive(Debug, Clone, Copy, PartialEq, Eq, Structural)]
pub enum Phase {
    AwaitingModel,
    ProcessingTool,
    Done,
    Failed,
}

/// One chat request's conversation: the model asked, the messages so far, where
/// it stands, and the assistant message whose tool request is being run.
#[derive(Debug)]
pub struct ChatLoop {
    pub model: String,
    pub messages: Vec<ChatMessage>,
    pub phase: Phase,
    pub pending: Option<ChatMessage>,
}

/// A conversation as values.
pub struct LoopView {
    pub transcript: Seq<Turn>,
    pub phase: Phase,
    pub pending: Option<Turn>,
}

impl View for ChatLoop {
    type V = LoopView;

    open spec fn view(&self) -> LoopView {
        LoopView {
            transcript: self.messages@.map_values(|m: ChatMessage| m@),
            phase: self.phase,
            pending: match self.pending {
                Some(m) => Some(m@),
                None => None,
            },
        }
    }
}

/// What the host is to do next.
#[derive(Debug)]
pub enum Action {
    /// Send the messages to the model, with both tools offered.
    CallModel,
    /// Run the tool.
    Invoke(ToolInvocation),
    /// Reply with this final answer.
    Finish(String),
    /// Reply with this failure, as a server error.
    Fail(String),
}

/// An action as values.
pub enum Step {
    CallModel,
    Invoke(Request),
    Finish(Seq<char>),
    Fail(Seq<char>),
}

impl View for Action {
    type V = Step;

    open spec fn view(&self) -> Step {
        match self {
            Action::CallModel => Step::CallModel,
            Action::Invoke(inv) => Step::Invoke(inv@),
            Action::Finish(s) => Step::Finish(s@),
            Action::Fail(s) => Step::Fail(s@),
        }
    }
}

/// The body of a failure reply.
pub open spec fn failure_text(m: Seq<char>) -> Seq<char> {
    "Error: "@ + m
}

/// The message that carries a tool's output back to the model.
pub open spec fn tool_turn(text: Seq<char>) -> Turn {
    Turn { role: "tool"@, content: text, tool_calls: None }
}

/// A model reply as values: the message, or the text of the failure.
pub open spec fn reply_of(r: Result<ChatMessage, OllamaError>) -> Result<Turn, Seq<char>> {
    match r {
        Ok(m) => Ok(m@),
        Err(e) => Err(gateway_error_text(e)),
    }
}

/// The conversation after a model reply, and what is done next.
pub open spec fn model_step(s: LoopView, reply: Result<Turn, Seq<char>>) -> (LoopView, Step) {
    match reply {
        Err(m) => (LoopView { phase: Phase::Failed, ..s }, Step::Fail(failure_text(m))),
        Ok(t) => match plan_of(t) {
            Plan::Answer => (LoopView { phase: Phase::Done, ..s }, Step::Finish(t.content)),
            Plan::Reject(m) => (LoopView { phase: Phase::Failed, ..s }, Step::Fail(failure_text(m))),
            Plan::Run(q) => (
                LoopView { phase: Phase::ProcessingTool, pending: Some(t), ..s },
                Step::Invoke(q),
            ),
        },
    }
}

/// The conversation after a tool run, and what is done next. On success the
/// assistant message and the tool's output join the transcript.
pub open spec fn tool_step(s: LoopView, outcome: Result<Seq<char>, Seq<char>>) -> (LoopView, Step) {
    match outcome {
        Ok(text) => (
            LoopView {
                transcript: s.transcript.push(s.pending.unwrap()).push(tool_turn(text)),
                phase: Phase::AwaitingModel,
                pending: None,
            },
            Step::CallModel,
        ),
        Err(m) => (LoopView { phase: Phase::Failed, pending: None, ..s }, Step::Fail(failure_text(m))),
    }
}

impl ChatLoop {
    /// The pending message is there exactly while a tool runs.
    pub open spec fn well_formed(&self) -> bool {
        (self.phase == Phase::ProcessingTool) == self.pending.is_some()
    }

    /// Takes the model's reply. A failure ends the request; a message without a
    /// tool request to run is the answer; otherwise its first tool request is run.
    pub fn on_model_reply(&mut self, reply: Result<ChatMessage, OllamaError>) -> (r: Action)
        requires
            old(self).well_formed(),
            old(self).phase == Phase::AwaitingModel,
        ensures
            final(self).well_formed(),
            final(self).model == old(self).model,
            (final(self)@, r@) == model_step(old(self)@, reply_of(reply)),
    {
        match reply {
            Err(e) => {
                self.phase = Phase::Failed;
                Action::Fail(String::from_str("Error: ").concat(e.message().as_str()))
            },
            Ok(msg) => {
                match plan_tool_call(&msg) {
                    Ok(None) => {
                        self.phase = Phase::Done;
                        Action::Finish(msg.content)
                    },
                    Ok(Some(inv)) => {
                        self.phase = Phase::ProcessingTool;
                        self.pending = Some(msg);
                        Action::Invoke(inv)
                    },
                    Err(m) => {
                        self.phase = Phase::Failed;
                        Action::Fail(String::from_str("Error: ").concat(m.as_str()))
                    },
                }
            },
        }
    }

    /// Takes what the tool run came to. A failure ends the request; otherwise the
    /// assistant message and the tool's output join the transcript and the model
    /// is asked again.
    pub fn on_tool_event(&mut self, event: ToolEvent) -> (r: Action)
        requires
            old(self).well_formed(),
            old(self).phase == Phase::ProcessingTool,
        ensures
            final(self).well_formed(),
            final(self).model == old(self).model,
            (final(self)@, r@) == tool_step(old(self)@, outcome_of(event)),
    {
        let pending = self.pending.take();
        match tool_outcome(&event) {
            Ok(text) => {
                match pending {
                    Some(assistant) => {
                        let ghost before = self.messages@;
                        let ghost t = assistant@;
                        self.messages.push(assistant);
                        let tool = ChatMessage::plain("tool", text);
                        proof { reveal_strlit("tool"); }
                        self.messages.push(tool);
                        assert(self.messages@.map_values(|m: ChatMessage| m@) =~= before.map_values(
                            |m: ChatMessage| m@,
                        ).push(t).push(tool_turn(text@)));
                    },
                    None => {},
                }
                self.phase = Phase::AwaitingModel;
                Action::CallModel
            },
            Err(m) => {
                self.phase = Phase::Failed;
                Action::Fail(String::from_str("Error: ").concat(m.as_str()))
            },
        }
    }
}

/// The chat service's settings: the instructions that open every conversation.
#[derive(Debug)]
pub struct QueryHandler {
    pub system_prompt: String,
}

impl QueryHandler {
    /// A handler with the instructions read at start-up, or the default ones when
    /// none could be read.
    pub fn new(prompt: Option<String>) -> (r: Self)
        ensures
            r.system_prompt@ == match prompt {
                Some(p) => p@,
                None => default_prompt(),
            },
    {
        match prompt {
            Some(p) => QueryHandler { system_prompt: p },
            None => QueryHandler { system_prompt: String::from_str("You are a helpful assistant.") },
        }
    }

    /// The declaration of the web search tool.
    pub fn create_websearch_tool() -> (r: Tool)
        ensures
            declares(r, "websearch"@, "Get search results from web for latest events, news."@, websearch_params()),
    {
        let mut parameters: Vec<ToolParameter> = Vec::new();
        parameters.push(parameter("query", "string", "The search query to do web search on.", None, true));
        parameters.push(
            parameter("count", "number", "Optional field to mention how many web search results are needed", None, false),
        );
        let r = Tool {
            tool_type: String::from_str("function"),
            function: ToolFunction {
                name: String::from_str("websearch"),
                description: String::from_str("Get search results from web for latest events, news."),
                parameters,
            },
        };
        assert(r.function.parameters@.map_values(|p: ToolParameter| param_sig(p)) =~= websearch_params());
        r
    }

    /// The declaration of the script tool.
    pub fn create_python_invoker_tool() -> (r: Tool)
        ensures
            declares(
                r,
                "python_invoker"@,
                "Executes a python script provided as a string and returns its output."@,
                python_invoker_params(),
            ),
    {
        let mut parameters: Vec<ToolParameter> = Vec::new();
        parameters.push(parameter("script", "string", "The Python script to execute.", None, true));
        parameters.push(parameter("args", "array", "Optional arguments to pass to the script.", Some("string"), false));
        let r = Tool {
            tool_type: String::from_str("function"),
            function: ToolFunction {
                name: String::from_str("python_invoker"),
                description: String::from_str("Executes a python script provided as a string and returns its output."),
                parameters,
            },
        };
        assert(r.function.parameters@.map_values(|p: ToolParameter| param_sig(p)) =~= python_invoker_params());
        r
    }

    /// The tools offered to the model on every call: search, then script.
    pub fn declared_tools() -> (r: Vec<Tool>)
        ensures
            r@.len() == 2,
            declares(r@[0], "websearch"@, "Get search results from web for latest events, news."@, websearch_params()),
            declares(
                r@[1],
                "python_invoker"@,
                "Executes a python script provided as a string and returns its output."@,
                python_invoker_params(),
            ),
    {
        let mut r: Vec<Tool> = Vec::new();
        r.push(Self::create_websearch_tool());
        r.push(Self::create_python_invoker_tool());
        r
    }

    /// Opens the conversation for a request made at `now`: the instructions with
    /// the time, then the user's message. The model is to be asked first.
    pub fn start_chat(&self, req: ChatRequest, now: &str) -> (r: ChatLoop)
        ensures
            r.well_formed(),
            r.model == req.model,
            r@ == (LoopView {
                transcript: seq![
                    Turn { role: "system"@, content: system_text(self.system_prompt@, now@), tool_calls: None },
                    Turn { role: "user"@, content: req.message@, tool_calls: None },
                ],
                phase: Phase::AwaitingModel,
                pending: None,
            }),
    {
        let text = self.system_prompt.clone().concat(" Current date and time: ").concat(now);
        let mut messages: Vec<ChatMessage> = Vec::new();
        messages.push(ChatMessage::plain("system", text));
        messages.push(ChatMessage::plain("user", req.message));
        let r = ChatLoop { model: req.model, messages, phase: Phase::AwaitingModel, pending: None };
        assert(r@.transcript =~= seq![
            Turn { role: "system"@, content: system_text(self.system_prompt@, now@), tool_calls: None },
            Turn { role: "user"@, content: req.message@, tool_calls: None },
        ]);
        r
    }
}

} // verus!
