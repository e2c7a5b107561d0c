use chat_agent::handler::{
    plan_tool_call, tool_outcome, Action, ChatLoop, ChatRequest, Phase, QueryHandler, ToolEvent, ToolInvocation,
};
use chat_agent::llm::{ArgValue, ChatMessage, FunctionCall, OllamaError, ToolCall};
use chat_agent::python_invoker::{PythonInvoker, PythonInvokerError};
use chat_agent::websearch::{SearchResult, WebSearchError};

fn call(name: &str, args: Vec<(&str, ArgValue)>) -> ToolCall {
    ToolCall {
        function: FunctionCall {
            name: name.to_string(),
            arguments: ArgValue::Object(args.into_iter().map(|(k, v)| (k.to_string(), v)).collect()),
        },
    }
}

fn assistant(content: &str, calls: Option<Vec<ToolCall>>) -> ChatMessage {
    ChatMessage { role: "assistant".to_string(), content: content.to_string(), tool_calls: calls }
}

fn text(s: &str) -> ArgValue {
    ArgValue::Text(s.to_string())
}

fn start(message: &str) -> ChatLoop {
    let handler = QueryHandler::new(Some("Be brief.".to_string()));
    let req = ChatRequest { message: message.to_string(), model: "x".to_string() };
    handler.start_chat(req, "2024-01-01T00:00:00+00:00")
}

fn hit(title: &str, url: &str, content: &str) -> SearchResult {
    SearchResult { title: title.to_string(), url: url.to_string(), content: content.to_string() }
}

#[test]
fn handler_default_prompt() {
    assert_eq!(QueryHandler::new(None).system_prompt, "You are a helpful assistant.");
    assert_eq!(QueryHandler::new(Some("custom".to_string())).system_prompt, "custom");
}

#[test]
fn declared_tools_are_search_then_script() {
    let tools = QueryHandler::declared_tools();
    assert_eq!(tools.len(), 2);
    assert_eq!(tools[0].tool_type, "function");
    assert_eq!(tools[0].function.name, "websearch");
    assert_eq!(tools[0].function.parameters[0].name, "query");
    assert!(tools[0].function.parameters[0].required);
    assert!(!tools[0].function.parameters[1].required);
    assert_eq!(tools[1].function.name, "python_invoker");
    assert_eq!(tools[1].function.parameters[1].items_type.as_deref(), Some("string"));
}

#[test]
fn start_seeds_system_and_user() {
    let lp = start("hello");
    assert_eq!(lp.messages.len(), 2);
    assert_eq!(lp.messages[0].role, "system");
    assert_eq!(lp.messages[0].content, "Be brief. Current date and time: 2024-01-01T00:00:00+00:00");
    assert_eq!(lp.messages[1].role, "user");
    assert_eq!(lp.messages[1].content, "hello");
    assert_eq!(lp.model, "x");
    assert_eq!(lp.phase, Phase::AwaitingModel);
}

#[test]
fn tool_free_reply_is_the_answer() {
    let mut lp = start("hi");
    match lp.on_model_reply(Ok(assistant("Hello there.", None))) {
        Action::Finish(s) => assert_eq!(s, "Hello there."),
        _ => panic!("expected an answer"),
    }
    assert_eq!(lp.phase, Phase::Done);
    assert_eq!(lp.messages.len(), 2);
}

#[test]
fn empty_tool_list_is_the_answer() {
    let mut lp = start("hi");
    match lp.on_model_reply(Ok(assistant("ok", Some(Vec::new())))) {
        Action::Finish(s) => assert_eq!(s, "ok"),
        _ => panic!("expected an answer"),
    }
}

#[test]
fn gateway_failure_ends_request() {
    let mut lp = start("hi");
    match lp.on_model_reply(Err(OllamaError::ApiError("model not found".to_string()))) {
        Action::Fail(s) => assert_eq!(s, "Error: Ollama API error: model not found"),
        _ => panic!("expected a failure"),
    }
    assert_eq!(lp.phase, Phase::Failed);
}

#[test]
fn weather_scenario() {
    let mut lp = start("What's the weather API status?");
    let first = assistant("", Some(vec![call("websearch", vec![("query", text("weather API status"))])]));
    match lp.on_model_reply(Ok(first)) {
        Action::Invoke(ToolInvocation::Search { query, count }) => {
            assert_eq!(query, "weather API status");
            assert_eq!(count, 5);
        }
        _ => panic!("expected a search"),
    }
    assert_eq!(lp.phase, Phase::ProcessingTool);
    let results = vec![hit("Status", "https://s.example", "All good"), hit("Outage", "https://o.example", "None")];
    match lp.on_tool_event(ToolEvent::SearchDone(Ok(results))) {
        Action::CallModel => {}
        _ => panic!("expected another model call"),
    }
    assert_eq!(lp.messages.len(), 4);
    assert_eq!(lp.messages[2].role, "assistant");
    assert_eq!(lp.messages[2].tool_calls.as_ref().map(|c| c.len()), Some(1));
    assert_eq!(lp.messages[3].role, "tool");
    assert_eq!(
        lp.messages[3].content,
        "Title: Status\nURL: https://s.example\nContent: All good\n---\nTitle: Outage\nURL: https://o.example\nContent: None\n---"
    );
    match lp.on_model_reply(Ok(assistant("Here's what I found...", None))) {
        Action::Finish(s) => assert_eq!(s, "Here's what I found..."),
        _ => panic!("expected an answer"),
    }
    assert_eq!(lp.phase, Phase::Done);
}

#[test]
fn two_tool_rounds_add_four_messages() {
    let mut lp = start("compute");
    for round in 0..2 {
        let reply = assistant("", Some(vec![call("python_invoker", vec![("script", text("print(1)"))])]));
        assert!(matches!(lp.on_model_reply(Ok(reply)), Action::Invoke(ToolInvocation::Script { .. })));
        let run = PythonInvoker::new().finish_run("1\n".to_string(), String::new(), Some(0));
        assert!(matches!(lp.on_tool_event(ToolEvent::ScriptDone(run)), Action::CallModel));
        assert_eq!(lp.messages.len(), 2 + 2 * (round + 1));
    }
    assert_eq!(lp.messages[5].content, "Exit Code: Some(0)\nStdout: 1\n\nStderr: ");
    assert!(matches!(lp.on_model_reply(Ok(assistant("1", None))), Action::Finish(_)));
    assert_eq!(lp.messages.len(), 6);
}

#[test]
fn empty_search_is_success() {
    let mut lp = start("find");
    let reply = assistant("", Some(vec![call("websearch", vec![("query", text("q")), ("count", ArgValue::Unsigned(0))])]));
    match lp.on_model_reply(Ok(reply)) {
        Action::Invoke(ToolInvocation::Search { count, .. }) => assert_eq!(count, 0),
        _ => panic!("expected a search"),
    }
    assert!(matches!(lp.on_tool_event(ToolEvent::SearchDone(Ok(Vec::new()))), Action::CallModel));
    assert_eq!(lp.messages[3].content, "");
}

#[test]
fn failing_script_ends_request() {
    let mut lp = start("run");
    let reply = assistant("", Some(vec![call("python_invoker", vec![("script", text("exit(3)"))])]));
    assert!(matches!(lp.on_model_reply(Ok(reply)), Action::Invoke(_)));
    let run = PythonInvoker::new().finish_run("partial".to_string(), "Traceback".to_string(), Some(3));
    match lp.on_tool_event(ToolEvent::ScriptDone(run)) {
        Action::Fail(s) => assert_eq!(
            s,
            "Error: Python script execution failed: Script execution failed: Exit Code: Some(3)\nStdout: partial\nStderr: Traceback"
        ),
        _ => panic!("expected a failure"),
    }
    assert_eq!(lp.phase, Phase::Failed);
    assert_eq!(lp.messages.len(), 2);
}

#[test]
fn search_failure_ends_request() {
    let mut lp = start("find");
    let reply = assistant("", Some(vec![call("websearch", vec![("query", text("q"))])]));
    assert!(matches!(lp.on_model_reply(Ok(reply)), Action::Invoke(_)));
    match lp.on_tool_event(ToolEvent::SearchDone(Err(WebSearchError::NetworkError("timeout".to_string())))) {
        Action::Fail(s) => assert_eq!(s, "Error: Web search failed: Network error: timeout"),
        _ => panic!("expected a failure"),
    }
}

#[test]
fn unknown_tool_is_ignored() {
    let mut lp = start("hi");
    let reply = assistant("plain text", Some(vec![call("weather", vec![("city", text("Oslo"))])]));
    match lp.on_model_reply(Ok(reply)) {
        Action::Finish(s) => assert_eq!(s, "plain text"),
        _ => panic!("expected an answer"),
    }
    assert_eq!(lp.phase, Phase::Done);
}

#[test]
fn unknown_tool_with_empty_content_gives_empty_answer() {
    let mut lp = start("hi");
    let reply = assistant("", Some(vec![call("weather", Vec::new())]));
    match lp.on_model_reply(Ok(reply)) {
        Action::Finish(s) => assert_eq!(s, ""),
        _ => panic!("expected an answer"),
    }
}

#[test]
fn only_first_request_is_run() {
    let msg = assistant(
        "",
        Some(vec![call("python_invoker", vec![("script", text("a"))]), call("websearch", vec![("query", text("b"))])]),
    );
    match plan_tool_call(&msg) {
        Ok(Some(ToolInvocation::Script { script, args })) => {
            assert_eq!(script, "a");
            assert!(args.is_empty());
        }
        _ => panic!("expected the script"),
    }
    let unknown_first = assistant("", Some(vec![call("other", Vec::new()), call("websearch", vec![("query", text("b"))])]));
    assert!(matches!(plan_tool_call(&unknown_first), Ok(None)));
}

#[test]
fn missing_arguments_are_failures() {
    let no_query = assistant("", Some(vec![call("websearch", vec![("count", ArgValue::Unsigned(2))])]));
    assert_eq!(plan_tool_call(&no_query).err().unwrap(), "Web search failed: missing or empty argument `query`");
    let empty_script = assistant("", Some(vec![call("python_invoker", vec![("script", text(""))])]));
    assert_eq!(
        plan_tool_call(&empty_script).err().unwrap(),
        "Python script execution failed: missing or empty argument `script`"
    );
    let mut lp = start("hi");
    match lp.on_model_reply(Ok(no_query)) {
        Action::Fail(s) => assert_eq!(s, "Error: Web search failed: missing or empty argument `query`"),
        _ => panic!("expected a failure"),
    }
}

#[test]
fn script_arguments_keep_strings() {
    let msg = assistant(
        "",
        Some(vec![call(
            "python_invoker",
            vec![
                ("script", text("import sys")),
                ("args", ArgValue::List(vec![text("x"), ArgValue::Unsigned(7), text("y")])),
            ],
        )]),
    );
    match plan_tool_call(&msg) {
        Ok(Some(ToolInvocation::Script { args, .. })) => assert_eq!(args, vec!["x".to_string(), "y".to_string()]),
        _ => panic!("expected the script"),
    }
}

#[test]
fn non_integer_count_uses_default() {
    let msg = assistant(
        "",
        Some(vec![call("websearch", vec![("query", text("q")), ("count", ArgValue::Number("2.5".to_string()))])]),
    );
    match plan_tool_call(&msg) {
        Ok(Some(ToolInvocation::Search { count, .. })) => assert_eq!(count, 5),
        _ => panic!("expected a search"),
    }
}

#[test]
fn command_error_outcome() {
    let e = ToolEvent::ScriptDone(Err(PythonInvokerError::CommandError("not found".to_string())));
    assert_eq!(
        tool_outcome(&e).err().unwrap(),
        "Python script execution failed: Failed to execute Python script: not found"
    );
}
