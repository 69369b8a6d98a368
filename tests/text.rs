use cognition::graph::{choice_list, find_choice, join_labels};
use cognition::history::History;
use cognition::text::replace;
use cognition::tools::{query_params, request_url, tool_url};
use cognition::{Choice, DecisionPromptTemplate, Tool};

#[test]
fn replace_is_left_to_right_and_non_overlapping() {
    assert_eq!(replace("aaa", "aa", "b"), "ba");
    assert_eq!(replace("x{{a}}y{{a}}", "{{a}}", "1"), "x1y1");
    assert_eq!(replace("", "{{a}}", "1"), "");
    assert_eq!(replace("no slots", "{{a}}", "1"), "no slots");
    assert_eq!(replace("é{{a}}ü", "{{a}}", "ß"), "éßü");
}

#[test]
fn template_fills_slots_in_order() {
    let t = DecisionPromptTemplate::new(
        "{{history}}/{{decision_prompt}}/{{choices}}/{{user_input}}/{{user_response}}/{{other}}".to_string(),
    );
    assert_eq!(t.format("h", "d", "c", "u"), "h/d/c/u/u/{{other}}");
    // a later slot written into an earlier value is filled as well
    assert_eq!(t.format("{{choices}}", "d", "c", "u"), "c/d/c/u/u/{{other}}");
}

#[test]
fn choice_labels_are_trimmed_and_joined() {
    let choices = vec![
        Choice { choice: "  yes ".to_string(), next_id: "a".to_string() },
        Choice { choice: "no\n".to_string(), next_id: "b".to_string() },
    ];
    assert_eq!(choice_list(&choices), "yes\n  - no");
    assert_eq!(choice_list(&vec![]), "");
    assert_eq!(join_labels(&vec!["a".to_string()]), "a");
    assert_eq!(find_choice(&choices, &"  yes ".to_string()), Some(0));
    assert_eq!(find_choice(&choices, &"yes".to_string()), None);
}

#[test]
fn history_renders_with_separators() {
    let mut h = History::new();
    assert_eq!(h.render(), "");
    h.append(&"Agent".to_string(), &"Hi".to_string());
    assert_eq!(h.render(), "Agent: Hi");
    h.append(&"User".to_string(), &"yo".to_string());
    assert_eq!(h.render(), "Agent: Hi\n  User: yo");
    assert_eq!(h.len(), 2);
    h.reset();
    assert_eq!(h.len(), 0);
    assert_eq!(h.render(), "");
}

#[test]
fn tool_request_address() {
    let params = vec![("appid".to_string(), "K".to_string()), ("i".to_string(), "old".to_string())];
    let q = query_params(&params, &"new".to_string());
    assert_eq!(q, vec![("appid".to_string(), "K".to_string()), ("i".to_string(), "new".to_string())]);
    assert_eq!(tool_url(&"http://h/p".to_string(), &"a=b".to_string()), "http://h/p?a=b");
    let tool = Tool {
        id: "t".to_string(),
        name: "T".to_string(),
        description: String::new(),
        endpoint: "http://h/p".to_string(),
        params: vec![("appid".to_string(), "a b&c".to_string())],
    };
    assert_eq!(request_url(&tool, &"x=1".to_string()).unwrap(), "http://h/p?appid=a+b%26c&i=x%3D1");
}
