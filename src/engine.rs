use vstd::prelude::*;

use crate::graph::{
    choice_index, choice_list, find_choice, find_node, label_list, node_index, nodes_view, trimmed_labels,
    Decision, DecisionView,
};
use crate::history::{transcript, History};
use crate::template::{filled, DecisionPromptTemplate};
use crate::text::{copy_opt_string, copy_string, equals_str, opt_view};
use crate::tools::{
    find_tool, form_encoding, request_params, request_url, tool_index, tools_view, Tool, ToolResponse, ToolView,
};
use crate::{CognitionError, ErrorKind};

verus! {

/// The longest completion the engine asks for, in tokens.
pub const COMPLETION_MAX_LENGTH: usize = 200;

/// Where the engine stands between two calls.
#[derive(Clone, Copy, Debug, PartialEq, Eq, Structural)]
pub enum Phase {
    /// No turn is running: the next call is `advance`.
    Idle,
    /// A prompt is out to the completion backend: the next call is `complete`.
    AwaitingCompletion,
    /// A request is out to a tool: the next call is `tool_replied`.
    AwaitingTool,
    /// A choice led to `exit`: the session is over.
    Finished,
}

/// What the turn hands back to the caller when it stops to be shown.
#[derive(Debug)]
pub struct DecisionResult {
    pub user_input: Option<String>,
    pub decision_prompt: Option<String>,
    pub choice: Option<String>,
    pub current_id: String,
    pub decision_node: Decision,
    pub tool_response: Option<ToolResponse>,
}

/// What the caller is to do next.
#[derive(Debug)]
pub enum Action {
    /// Ask the completion backend to continue `prompt`, then call `complete`.
    Complete { prompt: String, max_length: usize },
    /// Send a GET request to `url` for the tool `tool_id`, then call `tool_replied`.
    InvokeTool { tool_id: String, url: String },
    /// Show the result and wait for the user's next input.
    Show(DecisionResult),
    /// The conversation is over.
    Exit,
}

pub open spec fn tool_response_view(t: Option<ToolResponse>) -> Option<(Seq<char>, Seq<char>)> {
    match t {
        Some(r) => Some((r.id@, r.response@)),
        None => None,
    }
}

/// A turn result as plain values.
pub struct ResultView {
    pub user_input: Option<Seq<char>>,
    pub decision_prompt: Option<Seq<char>>,
    pub choice: Option<Seq<char>>,
    pub current_id: Seq<char>,
    pub decision_node: DecisionView,
    pub tool_response: Option<(Seq<char>, Seq<char>)>,
}

impl View for DecisionResult {
    type V = ResultView;

    open spec fn view(&self) -> ResultView {
        ResultView {
            user_input: opt_view(self.user_input),
            decision_prompt: opt_view(self.decision_prompt),
            choice: opt_view(self.choice),
            current_id: self.current_id@,
            decision_node: self.decision_node@,
            tool_response: tool_response_view(self.tool_response),
        }
    }
}

/// What one call of the engine comes to, as plain values.
pub enum Outcome {
    Complete(Seq<char>, nat),
    InvokeTool(Seq<char>, Seq<char>),
    Show(ResultView),
    Exit,
    Fail(ErrorKind, Seq<char>),
}

pub open spec fn outcome_of(r: Result<Action, CognitionError>) -> Outcome {
    match r {
        Ok(Action::Complete { prompt, max_length }) => Outcome::Complete(prompt@, max_length as nat),
        Ok(Action::InvokeTool { tool_id, url }) => Outcome::InvokeTool(tool_id@, url@),
        Ok(Action::Show(d)) => Outcome::Show(d@),
        Ok(Action::Exit) => Outcome::Exit,
        Err(e) => Outcome::Fail(e.kind, e.detail@),
    }
}

pub open spec fn unknown_node_message(id: Seq<char>) -> Seq<char> {
    "Decision node with ID '"@ + id + "' not found"@
}

pub open spec fn unknown_tool_message(id: Seq<char>) -> Seq<char> {
    "Could not find tool: "@ + id
}

pub open spec fn completion_message(m: Seq<char>) -> Seq<char> {
    "Failed to generate choice: "@ + m
}

pub open spec fn encoding_message(id: Seq<char>) -> Seq<char> {
    "Failed to encode the query for tool: "@ + id
}

pub open spec fn tool_message(m: Seq<char>) -> Seq<char> {
    "Failed to send request to tool: "@ + m
}

/// The engine's whole state as plain values: the graph, the tools, the
/// template and the two speaker names, which never change, then the session
/// and the turn in progress.
pub struct EngineView {
    pub nodes: Seq<DecisionView>,
    pub tools: Seq<ToolView>,
    pub template: Seq<char>,
    pub agent: Seq<char>,
    pub user: Seq<char>,
    pub history: Seq<(Seq<char>, Seq<char>)>,
    pub current_id: Seq<char>,
    pub predicting: bool,
    pub phase: Phase,
    pub input: Option<Seq<char>>,
    pub decision_prompt: Option<Seq<char>>,
    pub choice: Option<Seq<char>>,
    pub tool_response: Option<(Seq<char>, Seq<char>)>,
    pub pending_prompt: Seq<char>,
    pub pending_tool: Seq<char>,
}

/// The states the engine can be in between two calls.
pub open spec fn engine_wf(v: EngineView) -> bool {
    &&& (v.phase == Phase::Idle || v.phase == Phase::Finished) ==> !v.predicting
    &&& v.phase == Phase::AwaitingCompletion ==> v.input is Some && node_index(v.nodes, v.current_id) is Some
    &&& v.phase == Phase::AwaitingTool ==> v.input is Some
    &&& v.predicting ==> v.input is Some && (node_index(v.nodes, v.current_id) matches Some(k)
        && v.nodes[k].predict != Some(false))
}

/// A turn that stopped on an error: the engine waits for the user again.
pub open spec fn failed(v: EngineView) -> EngineView {
    EngineView { phase: Phase::Idle, predicting: false, ..v }
}

/// Renders the prompt for the current node and hands it to the completion backend.
pub open spec fn request_completion(v: EngineView) -> (EngineView, Outcome) {
    match node_index(v.nodes, v.current_id) {
        None => (failed(v), Outcome::Fail(ErrorKind::UnknownNode, unknown_node_message(v.current_id))),
        Some(k) => {
            let node = v.nodes[k];
            let prompt = filled(
                v.template,
                transcript(v.history),
                node.text,
                label_list(trimmed_labels(node.choices)),
                v.input.unwrap(),
            );
            (
                EngineView { phase: Phase::AwaitingCompletion, pending_prompt: prompt, ..v },
                Outcome::Complete(prompt, COMPLETION_MAX_LENGTH as nat),
            )
        },
    }
}

/// Ends the pass over a node: another prediction while predicting, else the
/// result to show.
pub open spec fn finish(v: EngineView) -> (EngineView, Outcome) {
    if v.predicting {
        request_completion(EngineView { choice: None, ..v })
    } else {
        match node_index(v.nodes, v.current_id) {
            None => (failed(v), Outcome::Fail(ErrorKind::UnknownNode, unknown_node_message(v.current_id))),
            Some(k) => (
                EngineView { phase: Phase::Idle, ..v },
                Outcome::Show(
                    ResultView {
                        user_input: v.input,
                        decision_prompt: v.decision_prompt,
                        choice: v.choice,
                        current_id: v.current_id,
                        decision_node: v.nodes[k],
                        tool_response: v.tool_response,
                    },
                ),
            ),
        }
    }
}

/// The history once the node `node` is processed: wiped at `start`, then the
/// node's text unless predicting.
pub open spec fn history_after(v: EngineView, node: DecisionView, predicting: bool) -> Seq<(Seq<char>, Seq<char>)> {
    let h = if node.id == "start"@ {
        Seq::empty()
    } else {
        v.history
    };
    if predicting {
        h
    } else {
        h.push((v.agent, node.text))
    }
}

/// Processes the current node: history, the node's `predict` flag, and its
/// tool when the turn has user input.
pub open spec fn settle(v: EngineView) -> (EngineView, Outcome) {
    match node_index(v.nodes, v.current_id) {
        None => (failed(v), Outcome::Fail(ErrorKind::UnknownNode, unknown_node_message(v.current_id))),
        Some(k) => {
            let node = v.nodes[k];
            let p = if node.predict == Some(false) {
                false
            } else {
                v.predicting
            };
            let v1 = EngineView { history: history_after(v, node, p), predicting: p, ..v };
            if v.input is Some && node.tool is Some {
                let t = node.tool.unwrap();
                match tool_index(v.tools, t) {
                    None => (failed(v1), Outcome::Fail(ErrorKind::UnknownTool, unknown_tool_message(t))),
                    Some(ti) => match form_encoding(request_params(v.tools[ti].params, v.input.unwrap())) {
                        None => (failed(v1), Outcome::Fail(ErrorKind::Tool, encoding_message(t))),
                        Some(q) => (
                            EngineView { phase: Phase::AwaitingTool, pending_tool: t, ..v1 },
                            Outcome::InvokeTool(t, v.tools[ti].endpoint + "?"@ + q),
                        ),
                    },
                }
            } else {
                finish(v1)
            }
        },
    }
}

/// Starts a turn with the user's input, or with none on the first call.
pub open spec fn advance_step(v: EngineView, input: Option<Seq<char>>) -> (EngineView, Outcome) {
    let v1 = EngineView {
        input,
        decision_prompt: None,
        choice: None,
        tool_response: None,
        predicting: false,
        ..v
    };
    match input {
        Some(u) => request_completion(EngineView { history: v.history.push((v.user, u)), ..v1 }),
        None => settle(v1),
    }
}

/// Takes the completion backend's answer, or its failure.
pub open spec fn complete_step(v: EngineView, reply: Result<Seq<char>, Seq<char>>) -> (EngineView, Outcome) {
    match reply {
        Err(m) => (failed(v), Outcome::Fail(ErrorKind::Completion, completion_message(m))),
        Ok(text) => match node_index(v.nodes, v.current_id) {
            None => (failed(v), Outcome::Fail(ErrorKind::UnknownNode, unknown_node_message(v.current_id))),
            Some(k) => {
                let v1 = EngineView { decision_prompt: Some(v.pending_prompt + text), choice: None, ..v };
                match choice_index(v.nodes[k].choices, text) {
                    None => settle(EngineView { predicting: false, ..v1 }),
                    Some(j) => {
                        let next = v.nodes[k].choices[j].next_id;
                        let v2 = EngineView { choice: Some(text), ..v1 };
                        if next == "exit"@ {
                            (EngineView { phase: Phase::Finished, predicting: false, ..v2 }, Outcome::Exit)
                        } else if next == "start"@ {
                            settle(EngineView { current_id: next, predicting: false, ..v2 })
                        } else {
                            settle(EngineView { current_id: next, predicting: true, ..v2 })
                        }
                    },
                }
            },
        },
    }
}

/// Takes the tool's answer, or its failure.
pub open spec fn tool_step(v: EngineView, reply: Result<Seq<char>, Seq<char>>) -> (EngineView, Outcome) {
    match reply {
        Err(m) => (failed(v), Outcome::Fail(ErrorKind::Tool, tool_message(m))),
        Ok(text) => finish(EngineView { tool_response: Some((v.pending_tool, text)), ..v }),
    }
}

pub open spec fn reply_view(r: Result<String, String>) -> Result<Seq<char>, Seq<char>> {
    match r {
        Ok(t) => Ok(t@),
        Err(m) => Err(m@),
    }
}

/// An error of kind `kind` whose detail is `prefix` followed by `text`.
fn error_with(kind: ErrorKind, prefix: &str, text: &String) -> (e: CognitionError)
    ensures
        e.kind == kind,
        e.detail@ == prefix@ + text@,
{
    let mut detail = String::from_str(prefix);
    detail.append(text.as_str());
    CognitionError { kind, detail }
}

/// The error for a node identifier that the graph does not hold.
fn node_error(id: &String) -> (e: CognitionError)
    ensures
        e.kind == ErrorKind::UnknownNode,
        e.detail@ == unknown_node_message(id@),
{
    let mut detail = String::from_str("Decision node with ID '");
    detail.append(id.as_str());
    detail.append("' not found");
    CognitionError { kind: ErrorKind::UnknownNode, detail }
}

fn copy_tool_response(t: &Option<ToolResponse>) -> (r: Option<ToolResponse>)
    ensures
        tool_response_view(r) == tool_response_view(*t),
{
    match t {
        Some(x) => Some(x.duplicate()),
        None => None,
    }
}

/// The decision engine: the graph, the tools and the prompt template it was
/// built with, the conversation so far, and the turn in progress.
pub struct DecisionState {
    decision_nodes: Vec<Decision>,
    decision_prompt_template: DecisionPromptTemplate,
    tools: Vec<Tool>,
    agent: String,
    user: String,
    history: History,
    current_id: String,
    predicting: bool,
    phase: Phase,
    user_input: Option<String>,
    decision_prompt: Option<String>,
    choice: Option<String>,
    tool_response: Option<ToolResponse>,
    pending_prompt: String,
    pending_tool: String,
}

impl View for DecisionState {
    type V = EngineView;

    closed spec fn view(&self) -> EngineView {
        EngineView {
            nodes: nodes_view(self.decision_nodes@),
            tools: tools_view(self.tools@),
            template: self.decision_prompt_template@,
            agent: self.agent@,
            user: self.user@,
            history: self.history@,
            current_id: self.current_id@,
            predicting: self.predicting,
            phase: self.phase,
            input: opt_view(self.user_input),
            decision_prompt: opt_view(self.decision_prompt),
            choice: opt_view(self.choice),
            tool_response: tool_response_view(self.tool_response),
            pending_prompt: self.pending_prompt@,
            pending_tool: self.pending_tool@,
        }
    }
}

impl DecisionState {
    /// The states that the engine can be in between two calls.
    pub open spec fn inv(&self) -> bool {
        engine_wf(self@)
    }

    /// A session at node `start`, with an empty history, waiting for `advance`.
    pub fn new(
        decision_prompt_template: DecisionPromptTemplate,
        decision_nodes: Vec<Decision>,
        tools: Vec<Tool>,
    ) -> (r: DecisionState)
        ensures
            r.inv(),
            r@ == (EngineView {
                nodes: nodes_view(decision_nodes@),
                tools: tools_view(tools@),
                template: decision_prompt_template@,
                agent: "Agent"@,
                user: "User"@,
                history: Seq::empty(),
                current_id: "start"@,
                predicting: false,
                phase: Phase::Idle,
                input: None,
                decision_prompt: None,
                choice: None,
                tool_response: None,
                pending_prompt: Seq::empty(),
                pending_tool: Seq::empty(),
            }),
    {
        DecisionState {
            decision_nodes,
            decision_prompt_template,
            tools,
            agent: String::from_str("Agent"),
            user: String::from_str("User"),
            history: History::new(),
            current_id: String::from_str("start"),
            predicting: false,
            phase: Phase::Idle,
            user_input: None,
            decision_prompt: None,
            choice: None,
            tool_response: None,
            pending_prompt: String::new(),
            pending_tool: String::new(),
        }
    }

    /// The name the transcript gives the agent.
    pub fn agent(&self) -> (r: &String)
        ensures
            r@ == self@.agent,
    {
        &self.agent
    }

    /// The name the transcript gives the user.
    pub fn user(&self) -> (r: &String)
        ensures
            r@ == self@.user,
    {
        &self.user
    }

    /// The identifier of the node the conversation stands at.
    pub fn current_id(&self) -> (r: &String)
        ensures
            r@ == self@.current_id,
    {
        &self.current_id
    }

    /// Where the engine stands between two calls.
    pub fn phase(&self) -> (r: Phase)
        ensures
            r == self@.phase,
    {
        self.phase
    }

    /// Whether the engine is predicting the user's choice.
    pub fn predicting(&self) -> (r: bool)
        ensures
            r == self@.predicting,
    {
        self.predicting
    }

    /// The number of entries in the history.
    pub fn history_len(&self) -> (r: usize)
        ensures
            r == self@.history.len(),
    {
        self.history.len()
    }

    /// The history as the prompt shows it.
    pub fn history_text(&self) -> (r: String)
        ensures
            r@ == transcript(self@.history),
    {
        self.history.render()
    }

    /// The first node whose identifier is `id`.
    pub fn decision_node(&self, id: &String) -> (r: Result<&Decision, CognitionError>)
        ensures
            node_index(self@.nodes, id@) matches Some(k) ==> (r matches Ok(d) && d@ == self@.nodes[k]),
            node_index(self@.nodes, id@) is None ==> (r matches Err(e) && e.kind == ErrorKind::UnknownNode
                && e.detail@ == unknown_node_message(id@)),
    {
        match find_node(&self.decision_nodes, id) {
            Some(k) => Ok(&self.decision_nodes[k]),
            None => Err(node_error(id)),
        }
    }

    /// The node the conversation stands at.
    pub fn current_node(&self) -> (r: Result<&Decision, CognitionError>)
        ensures
            node_index(self@.nodes, self@.current_id) matches Some(k) ==> (r matches Ok(d) && d@
                == self@.nodes[k]),
            node_index(self@.nodes, self@.current_id) is None ==> (r matches Err(e) && e.kind
                == ErrorKind::UnknownNode && e.detail@ == unknown_node_message(self@.current_id)),
    {
        self.decision_node(&self.current_id)
    }

    fn fail(&mut self, e: CognitionError) -> (r: Result<Action, CognitionError>)
        ensures
            final(self)@ == failed(old(self)@),
            outcome_of(r) == Outcome::Fail(e.kind, e.detail@),
    {
        self.phase = Phase::Idle;
        self.predicting = false;
        Err(e)
    }

    fn request_completion(&mut self) -> (r: Result<Action, CognitionError>)
        requires
            old(self)@.input is Some,
        ensures
            (final(self)@, outcome_of(r)) == request_completion(old(self)@),
    {
        let k = match find_node(&self.decision_nodes, &self.current_id) {
            Some(k) => k,
            None => {
                let e = node_error(&self.current_id);
                return self.fail(e);
            },
        };
        assert(self@.nodes[k as int] == self.decision_nodes@[k as int]@);
        let history = self.history.render();
        let choices = choice_list(&self.decision_nodes[k].choices);
        let input = self.user_input.as_ref().unwrap();
        let prompt = self.decision_prompt_template.format(
            history.as_str(),
            self.decision_nodes[k].text.as_str(),
            choices.as_str(),
            input.as_str(),
        );
        self.pending_prompt = copy_string(&prompt);
        self.phase = Phase::AwaitingCompletion;
        Ok(Action::Complete { prompt, max_length: COMPLETION_MAX_LENGTH })
    }

    fn finish(&mut self) -> (r: Result<Action, CognitionError>)
        requires
            old(self)@.predicting ==> old(self)@.input is Some,
        ensures
            (final(self)@, outcome_of(r)) == finish(old(self)@),
    {
        if self.predicting {
            self.choice = None;
            return self.request_completion();
        }
        let k = match find_node(&self.decision_nodes, &self.current_id) {
            Some(k) => k,
            None => {
                let e = node_error(&self.current_id);
                return self.fail(e);
            },
        };
        assert(self@.nodes[k as int] == self.decision_nodes@[k as int]@);
        let result = DecisionResult {
            user_input: copy_opt_string(&self.user_input),
            decision_prompt: copy_opt_string(&self.decision_prompt),
            choice: copy_opt_string(&self.choice),
            current_id: copy_string(&self.current_id),
            decision_node: self.decision_nodes[k].duplicate(),
            tool_response: copy_tool_response(&self.tool_response),
        };
        self.phase = Phase::Idle;
        Ok(Action::Show(result))
    }

    fn settle(&mut self) -> (r: Result<Action, CognitionError>)
        requires
            old(self)@.predicting ==> old(self)@.input is Some,
        ensures
            (final(self)@, outcome_of(r)) == settle(old(self)@),
    {
        let k = match find_node(&self.decision_nodes, &self.current_id) {
            Some(k) => k,
            None => {
                let e = node_error(&self.current_id);
                return self.fail(e);
            },
        };
        let ghost v = self@;
        let ghost node = v.nodes[k as int];
        assert(node == self.decision_nodes@[k as int]@);
        if equals_str(&self.decision_nodes[k].id, "start") {
            self.history.reset();
        }
        match self.decision_nodes[k].predict {
            Some(false) => {
                self.predicting = false;
            },
            _ => {},
        }
        if !self.predicting {
            self.history.append(&self.agent, &self.decision_nodes[k].text);
        }
        assert(self@.history == history_after(v, node, self.predicting));
        if let Some(u) = &self.user_input {
            if let Some(t) = &self.decision_nodes[k].tool {
                let ti = match find_tool(&self.tools, t) {
                    Some(ti) => ti,
                    None => {
                        let e = error_with(ErrorKind::UnknownTool, "Could not find tool: ", t);
                        return self.fail(e);
                    },
                };
                assert(self@.tools[ti as int] == self.tools@[ti as int]@);
                return match request_url(&self.tools[ti], u) {
                    Some(url) => {
                        let tool_id = copy_string(t);
                        self.pending_tool = copy_string(t);
                        self.phase = Phase::AwaitingTool;
                        Ok(Action::InvokeTool { tool_id, url })
                    },
                    None => {
                        let e = error_with(ErrorKind::Tool, "Failed to encode the query for tool: ", t);
                        self.fail(e)
                    },
                };
            }
        }
        self.finish()
    }

    /// Starts a turn: with the user's input, the engine asks for a completion;
    /// with none, as on the first call, it processes the current node.
    pub fn advance(&mut self, user_input: Option<String>) -> (r: Result<Action, CognitionError>)
        requires
            old(self).inv(),
            old(self)@.phase == Phase::Idle,
        ensures
            final(self).inv(),
            (final(self)@, outcome_of(r)) == advance_step(old(self)@, opt_view(user_input)),
    {
        self.decision_prompt = None;
        self.choice = None;
        self.tool_response = None;
        self.predicting = false;
        match user_input {
            Some(u) => {
                self.history.append(&self.user, &u);
                self.user_input = Some(u);
                self.request_completion()
            },
            None => {
                self.user_input = None;
                self.settle()
            },
        }
    }

    /// Takes what the completion backend returned for the prompt, or its
    /// failure message.
    pub fn complete(&mut self, reply: Result<String, String>) -> (r: Result<Action, CognitionError>)
        requires
            old(self).inv(),
            old(self)@.phase == Phase::AwaitingCompletion,
        ensures
            final(self).inv(),
            (final(self)@, outcome_of(r)) == complete_step(old(self)@, reply_view(reply)),
    {
        let text = match reply {
            Ok(t) => t,
            Err(m) => {
                let e = error_with(ErrorKind::Completion, "Failed to generate choice: ", &m);
                return self.fail(e);
            },
        };
        let k = match find_node(&self.decision_nodes, &self.current_id) {
            Some(k) => k,
            None => {
                let e = node_error(&self.current_id);
                return self.fail(e);
            },
        };
        assert(self@.nodes[k as int] == self.decision_nodes@[k as int]@);
        let mut prompt = copy_string(&self.pending_prompt);
        prompt.append(text.as_str());
        self.decision_prompt = Some(prompt);
        self.choice = None;
        match find_choice(&self.decision_nodes[k].choices, &text) {
            None => {
                self.predicting = false;
                self.settle()
            },
            Some(j) => {
                assert(self@.nodes[k as int].choices[j as int] == self.decision_nodes@[k as int].choices@[j as int]@);
                let next = copy_string(&self.decision_nodes[k].choices[j].next_id);
                self.choice = Some(text);
                if equals_str(&next, "exit") {
                    self.phase = Phase::Finished;
                    self.predicting = false;
                    Ok(Action::Exit)
                } else if equals_str(&next, "start") {
                    self.current_id = next;
                    self.predicting = false;
                    self.settle()
                } else {
                    self.current_id = next;
                    self.predicting = true;
                    self.settle()
                }
            },
        }
    }

    /// Takes what the tool returned, or its failure message.
    pub fn tool_replied(&mut self, reply: Result<String, String>) -> (r: Result<Action, CognitionError>)
        requires
            old(self).inv(),
            old(self)@.phase == Phase::AwaitingTool,
        ensures
            final(self).inv(),
            (final(self)@, outcome_of(r)) == tool_step(old(self)@, reply_view(reply)),
    {
        match reply {
            Ok(text) => {
                self.tool_response = Some(ToolResponse { id: copy_string(&self.pending_tool), response: text });
                self.finish()
            },
            Err(m) => {
                let e = error_with(ErrorKind::Tool, "Failed to send request to tool: ", &m);
                self.fail(e)
            },
        }
    }
}

} // verus!
