use vstd::prelude::*;

use crate::engine::{
    advance_step, complete_step, engine_wf, tool_step, EngineView, Outcome, Phase,
};
use crate::graph::{graph_well_formed, lemma_choice_index_from, lemma_node_index_from, node_index};
use crate::ErrorKind;

verus! {

/// What the caller hands the engine.
pub enum Event {
    Advance(Option<Seq<char>>),
    Completed(Result<Seq<char>, Seq<char>>),
    ToolReplied(Result<Seq<char>, Seq<char>>),
}

/// Whether the engine, where it stands, takes `e` next.
pub open spec fn accepts(v: EngineView, e: Event) -> bool {
    match e {
        Event::Advance(_) => v.phase == Phase::Idle,
        Event::Completed(_) => v.phase == Phase::AwaitingCompletion,
        Event::ToolReplied(_) => v.phase == Phase::AwaitingTool,
    }
}

/// The state and the outcome after the engine takes `e`.
pub open spec fn step(v: EngineView, e: Event) -> (EngineView, Outcome) {
    match e {
        Event::Advance(input) => advance_step(v, input),
        Event::Completed(reply) => complete_step(v, reply),
        Event::ToolReplied(reply) => tool_step(v, reply),
    }
}

/// Every step keeps the engine in a state it can be in between two calls.
pub proof fn lemma_step_keeps_wf(v: EngineView, e: Event)
    requires
        engine_wf(v),
        accepts(v, e),
    ensures
        engine_wf(step(v, e).0),
{
}

/// While the engine predicts, the history does not grow: a step after which
/// the engine is predicting leaves the history as it found it, the step that
/// starts the prediction included.
pub proof fn lemma_prediction_keeps_history(v: EngineView, e: Event)
    requires
        engine_wf(v),
        accepts(v, e),
    ensures
        step(v, e).0.predicting ==> step(v, e).0.history == v.history,
{
    if e is Completed && e->Completed_0 is Ok {
        let text = e->Completed_0->Ok_0;
        if let Some(k) = node_index(v.nodes, v.current_id) {
            if let Some(j) = crate::graph::choice_index(v.nodes[k].choices, text) {
                lemma_node_index_from(v.nodes, v.nodes[k].choices[j].next_id, 0);
            }
        }
    }
}

/// Coming to the node `start` wipes the history: after a step that processes
/// `start`, the history holds only the agent's text of that node.
pub proof fn lemma_start_resets_history(v: EngineView, e: Event)
    requires
        engine_wf(v),
        accepts(v, e),
        e == Event::Advance(None) || e is Completed && e->Completed_0 is Ok,
        step(v, e).0.current_id == "start"@,
        !(step(v, e).1 is Fail),
        !(step(v, e).1 is Exit),
    ensures
        node_index(v.nodes, "start"@) matches Some(k) && step(v, e).0.history == seq![
            (v.agent, v.nodes[k].text),
        ],
{
    let post = step(v, e).0;
    lemma_node_index_from(v.nodes, "start"@, 0);
    lemma_node_index_from(v.nodes, v.current_id, 0);
    let k = node_index(v.nodes, "start"@)->Some_0;
    assert(post.history =~= seq![(v.agent, v.nodes[k].text)]);
}

/// A node whose `predict` is `false` stops prediction: after any step that
/// leaves the engine at such a node, it is not predicting.
pub proof fn lemma_guarded_node_stops_prediction(v: EngineView, e: Event)
    requires
        engine_wf(v),
        accepts(v, e),
    ensures
        ({
            let post = step(v, e).0;
            node_index(post.nodes, post.current_id) matches Some(k) && post.nodes[k].predict == Some(false)
                ==> !post.predicting
        }),
{
    lemma_step_keeps_wf(v, e);
}

/// The model's reply moves the conversation only when it equals a label of
/// the current node exactly: otherwise the engine stays at the same node.
pub proof fn lemma_unmatched_reply_stays(v: EngineView, text: Seq<char>)
    requires
        engine_wf(v),
        v.phase == Phase::AwaitingCompletion,
        node_index(v.nodes, v.current_id) matches Some(k) && forall|j: int|
            0 <= j < v.nodes[k].choices.len() ==> v.nodes[k].choices[j].label != text,
    ensures
        step(v, Event::Completed(Ok(text))).0.current_id == v.current_id,
        !(step(v, Event::Completed(Ok(text))).1 is Exit),
{
    let k = node_index(v.nodes, v.current_id)->Some_0;
    lemma_choice_index_from(v.nodes[k].choices, text, 0);
}

/// The first call of a session, which has no user input, never runs a tool.
pub proof fn lemma_no_tool_without_input(v: EngineView)
    requires
        engine_wf(v),
        v.phase == Phase::Idle,
    ensures
        !(step(v, Event::Advance(None)).1 is InvokeTool),
{
}

/// In a well-formed graph, an engine that stands at a node of the graph never
/// meets an unknown node, and stays at a node of the graph.
pub proof fn lemma_well_formed_graph_has_no_dangling_step(v: EngineView, e: Event)
    requires
        engine_wf(v),
        accepts(v, e),
        graph_well_formed(v.nodes),
        node_index(v.nodes, v.current_id) is Some,
    ensures
        !(step(v, e).1 matches Outcome::Fail(kind, _) && kind == ErrorKind::UnknownNode),
        node_index(step(v, e).0.nodes, step(v, e).0.current_id) is Some,
{
    if e is Completed && e->Completed_0 is Ok {
        let text = e->Completed_0->Ok_0;
        let k = node_index(v.nodes, v.current_id)->Some_0;
        lemma_node_index_from(v.nodes, v.current_id, 0);
        lemma_choice_index_from(v.nodes[k].choices, text, 0);
        if let Some(j) = crate::graph::choice_index(v.nodes[k].choices, text) {
            let next = v.nodes[k].choices[j].next_id;
            assert(next == "exit"@ || node_index(v.nodes, next) is Some);
        }
    }
}

} // verus!
