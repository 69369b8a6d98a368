use vstd::prelude::*;

use crate::text::{replace, replace_all};

verus! {

/// The prompt: `template` with its five placeholders filled in, one after another.
/// `{{user_response}}` is an older name of the `{{user_input}}` slot.
pub open spec fn filled(
    template: Seq<char>,
    history: Seq<char>,
    decision_prompt: Seq<char>,
    choices: Seq<char>,
    user_input: Seq<char>,
) -> Seq<char> {
    let a = replace_all(template, "{{history}}"@, history);
    let b = replace_all(a, "{{decision_prompt}}"@, decision_prompt);
    let c = replace_all(b, "{{choices}}"@, choices);
    let d = replace_all(c, "{{user_input}}"@, user_input);
    replace_all(d, "{{user_response}}"@, user_input)
}

/// A prompt text with named placeholders; one that nothing fills stays as it is.
pub struct DecisionPromptTemplate(String);

impl View for DecisionPromptTemplate {
    type V = Seq<char>;

    closed spec fn view(&self) -> Seq<char> {
        self.0@
    }
}

impl DecisionPromptTemplate {
    pub fn new(contents: String) -> (r: DecisionPromptTemplate)
        ensures
            r@ == contents@,
    {
        DecisionPromptTemplate(contents)
    }

    /// The template with the history, the node's text, its choices and the
    /// user's input in their places.
    pub fn format(&self, history: &str, decision_prompt: &str, choices: &str, user_input: &str) -> (r: String)
        ensures
            r@ == filled(self@, history@, decision_prompt@, choices@, user_input@),
    {
        proof {
            reveal_strlit("{{history}}");
            reveal_strlit("{{decision_prompt}}");
            reveal_strlit("{{choices}}");
            reveal_strlit("{{user_input}}");
            reveal_strlit("{{user_response}}");
        }
        let a = replace(self.0.as_str(), "{{history}}", history);
        let b = replace(a.as_str(), "{{decision_prompt}}", decision_prompt);
        let c = replace(b.as_str(), "{{choices}}", choices);
        let d = replace(c.as_str(), "{{user_input}}", user_input);
        replace(d.as_str(), "{{user_response}}", user_input)
    }
}

} // verus!
