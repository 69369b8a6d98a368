use cognition::engine::Phase;
use cognition::graph::validate_graph;
use cognition::{
    Action, Choice, CognitionError, Decision, DecisionPromptTemplate, DecisionResult, DecisionState, ErrorKind,
    Tool,
};

fn choice(label: &str, next_id: &str) -> Choice {
    Choice { choice: label.to_string(), next_id: next_id.to_string() }
}

fn node(id: &str, text: &str, choices: Vec<Choice>) -> Decision {
    Decision { id: id.to_string(), text: text.to_string(), tool: None, predict: None, choices }
}

fn template() -> DecisionPromptTemplate {
    DecisionPromptTemplate::new("H:{{history}}|D:{{decision_prompt}}|C:{{choices}}|U:{{user_input}}".to_string())
}

fn wolfram() -> Tool {
    Tool {
        id: "wolfram_alpha".to_string(),
        name: "Wolfram|Alpha".to_string(),
        description: "AI tool for answering factual and mathematical questions.".to_string(),
        endpoint: "https://api.wolframalpha.com/v1/result".to_string(),
        params: vec![("appid".to_string(), "KEY".to_string())],
    }
}

fn shown(r: Result<Action, CognitionError>) -> DecisionResult {
    match r {
        Ok(Action::Show(d)) => d,
        other => panic!("expected a result to show, got {:?}", other),
    }
}

fn prompt_of(r: Result<Action, CognitionError>) -> String {
    match r {
        Ok(Action::Complete { prompt, max_length }) => {
            assert_eq!(max_length, 200);
            prompt
        }
        other => panic!("expected a completion request, got {:?}", other),
    }
}

fn error_of(r: Result<Action, CognitionError>) -> CognitionError {
    match r {
        Err(e) => e,
        other => panic!("expected an error, got {:?}", other),
    }
}

/// start -> mid -> end -> exit, nothing on the way stops prediction.
fn chain() -> Vec<Decision> {
    vec![
        node("start", "Hello", vec![choice("go", "mid")]),
        node("mid", "Middle", vec![choice("next", "end"), choice("back", "start")]),
        node("end", "End", vec![choice("bye", "exit")]),
    ]
}

#[test]
fn exit_choice_ends_session() {
    let nodes = vec![node("start", "Hello", vec![choice("choiceA", "exit")])];
    let mut state = DecisionState::new(template(), nodes, vec![]);
    let first = shown(state.advance(None));
    assert_eq!(first.current_id, "start");
    assert!(first.decision_prompt.is_none());
    assert!(first.tool_response.is_none());
    let prompt = prompt_of(state.advance(Some("choiceA".to_string())));
    assert_eq!(prompt, "H:Agent: Hello\n  User: choiceA|D:Hello|C:choiceA|U:choiceA");
    match state.complete(Ok("choiceA".to_string())) {
        Ok(Action::Exit) => {}
        other => panic!("expected the end of the session, got {:?}", other),
    }
    assert_eq!(state.phase(), Phase::Finished);
}

#[test]
fn correct_prediction_asks_again_without_user() {
    let mut state = DecisionState::new(template(), chain(), vec![]);
    shown(state.advance(None));
    prompt_of(state.advance(Some("go".to_string())));
    let len_before = state.history_len();
    // the model picks "go": the engine moves to mid and predicts at once
    let again = prompt_of(state.complete(Ok("go".to_string())));
    assert!(state.predicting());
    assert_eq!(state.current_id(), "mid");
    assert!(again.contains("D:Middle"));
    assert_eq!(state.history_len(), len_before);
    // the model picks "next" for mid as well: on to end, still predicting
    prompt_of(state.complete(Ok("next".to_string())));
    assert_eq!(state.current_id(), "end");
    assert_eq!(state.history_len(), len_before);
    // a miss at end: the engine waits for the user at end
    let d = shown(state.complete(Ok("unsure".to_string())));
    assert_eq!(d.current_id, "end");
    assert_eq!(d.decision_node.text, "End");
    assert!(d.choice.is_none());
    assert!(!state.predicting());
    assert_eq!(state.history_len(), len_before + 1);
    assert_eq!(state.history_text(), "Agent: Hello\n  User: go\n  Agent: End");
}

#[test]
fn unmatched_reply_repeats_node() {
    let mut state = DecisionState::new(template(), chain(), vec![]);
    shown(state.advance(None));
    prompt_of(state.advance(Some("go".to_string())));
    prompt_of(state.complete(Ok("go".to_string())));
    let at_mid = shown(state.complete(Ok("no idea".to_string())));
    assert_eq!(at_mid.current_id, "mid");
    prompt_of(state.advance(Some("huh".to_string())));
    let again = shown(state.complete(Ok("Next".to_string())));
    assert_eq!(again.current_id, "mid");
    assert_eq!(again.decision_node.id, "mid");
    assert!(again.choice.is_none());
    assert!(state.history_text().contains("User: huh"));
    assert!(state.history_text().ends_with("User: huh\n  Agent: Middle"));
}

#[test]
fn tool_runs_only_with_user_input() {
    let mut start = node("start", "Ask me", vec![choice("done", "exit")]);
    start.tool = Some("wolfram_alpha".to_string());
    let mut state = DecisionState::new(template(), vec![start], vec![wolfram()]);
    let first = shown(state.advance(None));
    assert!(first.tool_response.is_none());
    prompt_of(state.advance(Some("2+2 is what".to_string())));
    match state.complete(Ok("a question".to_string())) {
        Ok(Action::InvokeTool { tool_id, url }) => {
            assert_eq!(tool_id, "wolfram_alpha");
            assert_eq!(url, "https://api.wolframalpha.com/v1/result?appid=KEY&i=2%2B2+is+what");
        }
        other => panic!("expected a tool request, got {:?}", other),
    }
    assert_eq!(state.phase(), Phase::AwaitingTool);
    let d = shown(state.tool_replied(Ok("4".to_string())));
    let t = d.tool_response.expect("a tool response");
    assert_eq!(t.id, "wolfram_alpha");
    assert_eq!(t.response, "4");
    assert_eq!(d.user_input.as_deref(), Some("2+2 is what"));
    assert_eq!(d.decision_prompt.as_deref(), Some("H:Agent: Ask me\n  User: 2+2 is what|D:Ask me|C:done|U:2+2 is whata question"));
}

#[test]
fn tool_query_field_replaces_fixed_one() {
    let mut start = node("start", "Ask", vec![choice("done", "exit")]);
    start.tool = Some("wolfram_alpha".to_string());
    let mut tool = wolfram();
    tool.params.push(("i".to_string(), "old".to_string()));
    let mut state = DecisionState::new(template(), vec![start], vec![tool]);
    shown(state.advance(None));
    prompt_of(state.advance(Some("pi".to_string())));
    match state.complete(Ok("x".to_string())) {
        Ok(Action::InvokeTool { url, .. }) => {
            assert_eq!(url, "https://api.wolframalpha.com/v1/result?appid=KEY&i=pi")
        }
        other => panic!("expected a tool request, got {:?}", other),
    }
}

#[test]
fn returning_to_start_resets_history() {
    let mut state = DecisionState::new(template(), chain(), vec![]);
    shown(state.advance(None));
    prompt_of(state.advance(Some("go".to_string())));
    prompt_of(state.complete(Ok("go".to_string())));
    shown(state.complete(Ok("miss".to_string())));
    assert!(state.history_len() > 2);
    prompt_of(state.advance(Some("back".to_string())));
    let d = shown(state.complete(Ok("back".to_string())));
    assert_eq!(d.current_id, "start");
    assert_eq!(d.choice.as_deref(), Some("back"));
    assert_eq!(state.history_len(), 1);
    assert_eq!(state.history_text(), "Agent: Hello");
    assert!(!state.predicting());
}

#[test]
fn predict_false_node_waits_for_user() {
    let mut nodes = chain();
    nodes[1].predict = Some(false);
    let mut state = DecisionState::new(template(), nodes, vec![]);
    shown(state.advance(None));
    prompt_of(state.advance(Some("go".to_string())));
    let d = shown(state.complete(Ok("go".to_string())));
    assert_eq!(d.current_id, "mid");
    assert_eq!(d.choice.as_deref(), Some("go"));
    assert!(!state.predicting());
    assert_eq!(state.history_text(), "Agent: Hello\n  User: go\n  Agent: Middle");
}

#[test]
fn match_is_exact() {
    let mut state = DecisionState::new(template(), chain(), vec![]);
    shown(state.advance(None));
    for reply in [" go", "go ", "Go", "g", "go\n"] {
        prompt_of(state.advance(Some("go".to_string())));
        let d = shown(state.complete(Ok(reply.to_string())));
        assert_eq!(d.current_id, "start");
        assert!(d.choice.is_none());
    }
}

#[test]
fn missing_start_is_unknown_node() {
    let nodes = vec![node("begin", "Hi", vec![choice("x", "exit")])];
    let mut state = DecisionState::new(template(), nodes, vec![]);
    let e = error_of(state.advance(None));
    assert_eq!(e.kind, ErrorKind::UnknownNode);
    assert_eq!(e.detail, "Decision node with ID 'start' not found");
    assert_eq!(e.message(), "Cognition error: Decision node with ID 'start' not found");
    assert!(state.current_node().is_err());
}

#[test]
fn dangling_target_is_unknown_node() {
    let nodes = vec![node("start", "Hi", vec![choice("x", "nowhere")])];
    let mut state = DecisionState::new(template(), nodes, vec![]);
    shown(state.advance(None));
    prompt_of(state.advance(Some("x".to_string())));
    let e = error_of(state.complete(Ok("x".to_string())));
    assert_eq!(e.kind, ErrorKind::UnknownNode);
    assert_eq!(e.detail, "Decision node with ID 'nowhere' not found");
    assert_eq!(state.phase(), Phase::Idle);
}

#[test]
fn unconfigured_tool_is_unknown_tool() {
    let mut start = node("start", "Ask", vec![choice("done", "exit")]);
    start.tool = Some("search".to_string());
    let mut state = DecisionState::new(template(), vec![start], vec![wolfram()]);
    shown(state.advance(None));
    prompt_of(state.advance(Some("q".to_string())));
    let e = error_of(state.complete(Ok("x".to_string())));
    assert_eq!(e.kind, ErrorKind::UnknownTool);
    assert_eq!(e.detail, "Could not find tool: search");
}

#[test]
fn backend_failures_end_the_turn() {
    let mut state = DecisionState::new(template(), chain(), vec![]);
    shown(state.advance(None));
    prompt_of(state.advance(Some("go".to_string())));
    let e = error_of(state.complete(Err("timeout".to_string())));
    assert_eq!(e.kind, ErrorKind::Completion);
    assert_eq!(e.detail, "Failed to generate choice: timeout");
    assert_eq!(state.phase(), Phase::Idle);

    let mut start = node("start", "Ask", vec![choice("done", "exit")]);
    start.tool = Some("wolfram_alpha".to_string());
    let mut state = DecisionState::new(template(), vec![start], vec![wolfram()]);
    shown(state.advance(None));
    prompt_of(state.advance(Some("q".to_string())));
    state.complete(Ok("x".to_string())).unwrap();
    let e = error_of(state.tool_replied(Err("refused".to_string())));
    assert_eq!(e.kind, ErrorKind::Tool);
    assert_eq!(e.detail, "Failed to send request to tool: refused");
}

#[test]
fn lookup_by_identifier() {
    let state = DecisionState::new(template(), chain(), vec![]);
    assert_eq!(state.decision_node(&"end".to_string()).unwrap().text, "End");
    assert_eq!(state.current_node().unwrap().id, "start");
    let e = state.decision_node(&"other".to_string()).unwrap_err();
    assert_eq!(e.kind, ErrorKind::UnknownNode);
    assert_eq!(state.agent(), "Agent");
    assert_eq!(state.user(), "User");
}

#[test]
fn graph_validation() {
    assert!(validate_graph(&chain()));
    let dangling = vec![node("start", "Hi", vec![choice("x", "nowhere")])];
    assert!(!validate_graph(&dangling));
    let no_start = vec![node("begin", "Hi", vec![choice("x", "exit")])];
    assert!(!validate_graph(&no_start));
    assert!(!validate_graph(&vec![]));
}
