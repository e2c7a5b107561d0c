use vstd::prelude::*;
use crate::handler::{
    LoopView, Phase, Plan, Step, ToolEvent, failure_text, first_request, model_step, outcome_of, plan_of, tool_step,
};
use crate::llm::Turn;
use crate::python_invoker::{PythonInvokerError, run_report};
use crate::websearch::{Hit, ResultBlock, SearchResult, first_blocks, hits_of, hits_text};

verus! {

/// A message that carries no tool request.
pub open spec fn tool_free(t: Turn) -> bool {
    match t.tool_calls {
        Some(calls) => calls.len() == 0,
        None => true,
    }
}

/// A message whose first tool request is one the loop runs.
pub open spec fn runs_tool(t: Turn) -> bool {
    plan_of(t) is Run
}

/// The conversation after tool rounds, each a model message and what its tool run came to.
pub open spec fn run_rounds(s: LoopView, rounds: Seq<(Turn, Result<Seq<char>, Seq<char>>)>) -> LoopView
    decreases rounds.len(),
{
    if rounds.len() == 0 {
        s
    } else {
        let before = run_rounds(s, rounds.drop_last());
        tool_step(model_step(before, Ok(rounds.last().0)).0, rounds.last().1).0
    }
}

/// Tool rounds in which every message asks for a tool that runs and every run succeeds.
pub open spec fn successful_rounds(rounds: Seq<(Turn, Result<Seq<char>, Seq<char>>)>) -> bool {
    forall|i: int| 0 <= i < rounds.len() ==> runs_tool(#[trigger] rounds[i].0) && rounds[i].1 is Ok
}

/// A model message without tool requests ends the conversation at once, and its
/// text is the answer, unchanged.
pub proof fn lemma_tool_free_reply_is_answer(s: LoopView, t: Turn)
    requires
        s.phase == Phase::AwaitingModel,
        tool_free(t),
    ensures
        model_step(s, Ok(t)) == (LoopView { phase: Phase::Done, ..s }, Step::Finish(t.content)),
{
}

/// Each successful tool round adds exactly two messages, the assistant's and the
/// tool's, and ends by asking the model again; no round ends the conversation.
pub proof fn lemma_tool_rounds(s: LoopView, rounds: Seq<(Turn, Result<Seq<char>, Seq<char>>)>)
    requires
        s.phase == Phase::AwaitingModel,
        s.pending is None,
        successful_rounds(rounds),
    ensures
        run_rounds(s, rounds).phase == Phase::AwaitingModel,
        run_rounds(s, rounds).pending is None,
        run_rounds(s, rounds).transcript.len() == s.transcript.len() + 2 * rounds.len(),
        forall|k: int|
            0 <= k < rounds.len() ==> {
                let at = model_step(#[trigger] run_rounds(s, rounds.take(k)), Ok(rounds[k].0));
                &&& at.1 is Invoke
                &&& tool_step(at.0, rounds[k].1).1 == Step::CallModel
            },
    decreases rounds.len(),
{
    if rounds.len() > 0 {
        let front = rounds.drop_last();
        assert(successful_rounds(front)) by {
            assert forall|i: int| 0 <= i < front.len() implies runs_tool(#[trigger] front[i].0) && front[i].1 is Ok by {
                assert(front[i] == rounds[i]);
            }
        }
        lemma_tool_rounds(s, front);
        let last = rounds.len() - 1;
        assert(runs_tool(rounds[last].0) && rounds[last].1 is Ok);
        assert(rounds.take(last) =~= front);
        assert forall|k: int| 0 <= k < rounds.len() implies {
            let at = model_step(#[trigger] run_rounds(s, rounds.take(k)), Ok(rounds[k].0));
            &&& at.1 is Invoke
            &&& tool_step(at.0, rounds[k].1).1 == Step::CallModel
        } by {
            if k < last {
                assert(rounds.take(k) =~= front.take(k));
                assert(rounds[k] == front[k]);
            }
        }
    }
}

/// N successful tool rounds followed by a message without tool requests end the
/// conversation with that message's text as the answer, after N + 1 model replies,
/// with 2 * N messages added.
pub proof fn lemma_rounds_then_answer(
    s: LoopView,
    rounds: Seq<(Turn, Result<Seq<char>, Seq<char>>)>,
    last: Turn,
)
    requires
        s.phase == Phase::AwaitingModel,
        s.pending is None,
        successful_rounds(rounds),
        tool_free(last),
    ensures
        ({
            let end = model_step(run_rounds(s, rounds), Ok(last));
            &&& end.0.phase == Phase::Done
            &&& end.1 == Step::Finish(last.content)
            &&& end.0.transcript.len() == s.transcript.len() + 2 * rounds.len()
        }),
{
    lemma_tool_rounds(s, rounds);
    lemma_tool_free_reply_is_answer(run_rounds(s, rounds), last);
}

/// A search for no results reads no entry, and a search that found nothing hands
/// the model an empty text: a success, not a failure.
pub proof fn lemma_empty_search_succeeds(blocks: Seq<ResultBlock>, results: Vec<SearchResult>, s: LoopView)
    requires
        results@.len() == 0,
        s.phase == Phase::ProcessingTool,
    ensures
        hits_of(first_blocks(blocks, 0)) == Seq::<Hit>::empty(),
        outcome_of(ToolEvent::SearchDone(Ok(results))) == Ok::<Seq<char>, Seq<char>>(Seq::empty()),
        tool_step(s, outcome_of(ToolEvent::SearchDone(Ok(results)))).1 == Step::CallModel,
{
    assert(results@.map_values(|x: SearchResult| x@) =~= Seq::<Hit>::empty());
    assert(hits_text(Seq::<Hit>::empty()) == Seq::<char>::empty());
}

/// A script that exits with a status other than 0 ends the request as a failure
/// whose text holds the exit code, the output and the error output unchanged; none
/// of it reaches the model.
pub proof fn lemma_failed_script_ends_request(
    s: LoopView,
    exit_code: Option<i32>,
    stdout: Seq<char>,
    stderr: Seq<char>,
    report: String,
)
    requires
        s.phase == Phase::ProcessingTool,
        exit_code != Some(0i32),
        report@ == run_report(exit_code, stdout, stderr),
    ensures
        tool_step(s, outcome_of(ToolEvent::ScriptDone(Err(PythonInvokerError::ScriptError(report))))) == (
        LoopView { phase: Phase::Failed, pending: None, ..s },
        Step::Fail(
            failure_text(
                "Python script execution failed: "@ + ("Script execution failed: "@ + run_report(
                    exit_code,
                    stdout,
                    stderr,
                )),
            ),
        )),
{
}

/// A first tool request for a tool that is not offered is passed over: the
/// message is handled as if it carried no request, and no error is raised.
pub proof fn lemma_unknown_tool_is_ignored(s: LoopView, t: Turn)
    requires
        s.phase == Phase::AwaitingModel,
        first_request(t) is Some,
        first_request(t).unwrap().function.name@ != "websearch"@,
        first_request(t).unwrap().function.name@ != "python_invoker"@,
    ensures
        plan_of(t) == Plan::Answer,
        model_step(s, Ok(t)) == model_step(s, Ok(Turn { tool_calls: None, ..t })),
        model_step(s, Ok(t)) == (LoopView { phase: Phase::Done, ..s }, Step::Finish(t.content)),
{
}

} // verus!
