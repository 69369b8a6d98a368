use vstd::prelude::*;

use crate::text::{copy_opt_string, copy_string, equals_str, opt_view};

verus! {

/// A labelled transition out of a decision node.
#[derive(Clone, Debug)]
pub struct Choice {
    /// The text shown to the user and compared with what the model returns.
    pub choice: String,
    /// The node that follows, or `exit`.
    pub next_id: String,
}

/// A choice as plain values.
pub struct ChoiceView {
    pub label: Seq<char>,
    pub next_id: Seq<char>,
}

impl View for Choice {
    type V = ChoiceView;

    open spec fn view(&self) -> ChoiceView {
        ChoiceView { label: self.choice@, next_id: self.next_id@ }
    }
}

/// A vertex of the decision graph.
#[derive(Clone, Debug)]
pub struct Decision {
    pub id: String,
    pub text: String,
    /// The tool to run with the user's input when this node is shown.
    pub tool: Option<String>,
    /// `Some(false)` makes the engine wait for the user at this node.
    pub predict: Option<bool>,
    pub choices: Vec<Choice>,
}

/// A decision node as plain values.
pub struct DecisionView {
    pub id: Seq<char>,
    pub text: Seq<char>,
    pub tool: Option<Seq<char>>,
    pub predict: Option<bool>,
    pub choices: Seq<ChoiceView>,
}

pub open spec fn choices_view(cs: Seq<Choice>) -> Seq<ChoiceView> {
    cs.map_values(|c: Choice| c@)
}

impl View for Decision {
    type V = DecisionView;

    open spec fn view(&self) -> DecisionView {
        DecisionView {
            id: self.id@,
            text: self.text@,
            tool: opt_view(self.tool),
            predict: self.predict,
            choices: choices_view(self.choices@),
        }
    }
}

pub open spec fn nodes_view(nodes: Seq<Decision>) -> Seq<DecisionView> {
    nodes.map_values(|d: Decision| d@)
}

/// The first position at or after `from` of a node with identifier `id`.
pub open spec fn node_index_from(nodes: Seq<DecisionView>, id: Seq<char>, from: int) -> Option<int>
    decreases nodes.len() - from,
{
    if from < 0 || from >= nodes.len() {
        None
    } else if nodes[from].id == id {
        Some(from)
    } else {
        node_index_from(nodes, id, from + 1)
    }
}

/// The position of the first node with identifier `id`, if there is one.
pub open spec fn node_index(nodes: Seq<DecisionView>, id: Seq<char>) -> Option<int> {
    node_index_from(nodes, id, 0)
}

/// The first position at or after `from` of a choice whose label is `text`.
pub open spec fn choice_index_from(choices: Seq<ChoiceView>, text: Seq<char>, from: int) -> Option<int>
    decreases choices.len() - from,
{
    if from < 0 || from >= choices.len() {
        None
    } else if choices[from].label == text {
        Some(from)
    } else {
        choice_index_from(choices, text, from + 1)
    }
}

/// The position of the first choice whose label is exactly `text`, if there is one.
pub open spec fn choice_index(choices: Seq<ChoiceView>, text: Seq<char>) -> Option<int> {
    choice_index_from(choices, text, 0)
}

/// Every choice leads to `exit` or to a node of the graph, and the graph has a node `start`.
pub open spec fn graph_well_formed(nodes: Seq<DecisionView>) -> bool {
    &&& node_index(nodes, "start"@) is Some
    &&& forall|i: int, j: int|
        0 <= i < nodes.len() && 0 <= j < nodes[i].choices.len() ==> #[trigger] nodes[i].choices[j].next_id
            == "exit"@ || node_index(nodes, nodes[i].choices[j].next_id) is Some
}

pub proof fn lemma_node_index_from(nodes: Seq<DecisionView>, id: Seq<char>, from: int)
    requires
        0 <= from <= nodes.len(),
    ensures
        node_index_from(nodes, id, from) matches Some(k) ==> from <= k < nodes.len() && nodes[k].id == id,
        node_index_from(nodes, id, from) is None ==> forall|k: int| from <= k < nodes.len() ==> nodes[k].id != id,
    decreases nodes.len() - from,
{
    if from < nodes.len() && nodes[from].id != id {
        lemma_node_index_from(nodes, id, from + 1);
    }
}

pub proof fn lemma_choice_index_from(choices: Seq<ChoiceView>, text: Seq<char>, from: int)
    requires
        0 <= from <= choices.len(),
    ensures
        choice_index_from(choices, text, from) matches Some(k) ==> from <= k < choices.len() && choices[k].label
            == text && forall|j: int| from <= j < k ==> choices[j].label != text,
        choice_index_from(choices, text, from) is None ==> forall|k: int|
            from <= k < choices.len() ==> choices[k].label != text,
    decreases choices.len() - from,
{
    if from < choices.len() && choices[from].label != text {
        lemma_choice_index_from(choices, text, from + 1);
    }
}

impl Choice {
    /// A copy with the same label and target.
    pub fn duplicate(&self) -> (r: Choice)
        ensures
            r@ == self@,
    {
        Choice { choice: copy_string(&self.choice), next_id: copy_string(&self.next_id) }
    }
}

impl Decision {
    /// A copy with the same identifier, text, tool, flag and choices.
    pub fn duplicate(&self) -> (r: Decision)
        ensures
            r@ == self@,
    {
        let mut choices: Vec<Choice> = Vec::new();
        let mut i: usize = 0;
        while i < self.choices.len()
            invariant
                i <= self.choices.len(),
                choices_view(choices@) =~= choices_view(self.choices@).subrange(0, i as int),
            decreases self.choices.len() - i,
        {
            let c = self.choices[i].duplicate();
            let ghost prev = choices@;
            choices.push(c);
            proof {
                assert(choices_view(choices@) =~= choices_view(prev).push(c@));
                assert(choices_view(self.choices@).subrange(0, i + 1) =~= choices_view(self.choices@).subrange(
                    0,
                    i as int,
                ).push(self.choices@[i as int]@));
            }
            i = i + 1;
        }
        assert(choices_view(choices@) =~= choices_view(self.choices@));
        Decision {
            id: copy_string(&self.id),
            text: copy_string(&self.text),
            tool: copy_opt_string(&self.tool),
            predict: self.predict,
            choices,
        }
    }
}

/// The position of the first node of `nodes` whose identifier is `id`.
pub fn find_node(nodes: &Vec<Decision>, id: &String) -> (r: Option<usize>)
    ensures
        r matches Some(k) ==> node_index(nodes_view(nodes@), id@) == Some(k as int),
        r matches Some(k) ==> k < nodes.len() && nodes@[k as int].id@ == id@,
        r is None ==> node_index(nodes_view(nodes@), id@) is None,
{
    let ghost nv = nodes_view(nodes@);
    let mut i: usize = 0;
    while i < nodes.len()
        invariant
            i <= nodes.len(),
            nv == nodes_view(nodes@),
            node_index(nv, id@) == node_index_from(nv, id@, i as int),
        decreases nodes.len() - i,
    {
        if nodes[i].id.eq(id) {
            return Some(i);
        }
        i = i + 1;
    }
    None
}

/// The position of the first choice of `choices` whose label equals `text`
/// character for character; no trimming, no change of case.
pub fn find_choice(choices: &Vec<Choice>, text: &String) -> (r: Option<usize>)
    ensures
        r matches Some(k) ==> choice_index(choices_view(choices@), text@) == Some(k as int),
        r is None ==> choice_index(choices_view(choices@), text@) is None,
        r matches Some(k) ==> k < choices.len() && choices@[k as int].choice@ == text@,
        r is None ==> forall|k: int| 0 <= k < choices.len() ==> choices@[k].choice@ != text@,
{
    let ghost cv = choices_view(choices@);
    let mut i: usize = 0;
    while i < choices.len()
        invariant
            i <= choices.len(),
            cv == choices_view(choices@),
            choice_index(cv, text@) == choice_index_from(cv, text@, i as int),
        decreases choices.len() - i,
    {
        if choices[i].choice.eq(text) {
            return Some(i);
        }
        i = i + 1;
    }
    proof {
        lemma_choice_index_from(cv, text@, 0);
        assert forall|k: int| 0 <= k < choices.len() implies choices@[k].choice@ != text@ by {
            assert(cv[k] == choices@[k]@);
        }
    }
    None
}

/// Whether every choice of every node leads to `exit` or to a node of the
/// graph, and the graph has a node `start`.
pub fn validate_graph(nodes: &Vec<Decision>) -> (r: bool)
    ensures
        r == graph_well_formed(nodes_view(nodes@)),
{
    let ghost nv = nodes_view(nodes@);
    let start = String::from_str("start");
    if find_node(nodes, &start).is_none() {
        return false;
    }
    let mut i: usize = 0;
    while i < nodes.len()
        invariant
            i <= nodes.len(),
            nv == nodes_view(nodes@),
            forall|a: int, b: int|
                0 <= a < i && 0 <= b < nv[a].choices.len() ==> #[trigger] nv[a].choices[b].next_id == "exit"@
                    || node_index(nv, nv[a].choices[b].next_id) is Some,
        decreases nodes.len() - i,
    {
        let choices = &nodes[i].choices;
        let mut j: usize = 0;
        while j < choices.len()
            invariant
                i < nodes.len(),
                j <= choices.len(),
                nv == nodes_view(nodes@),
                choices == &nodes@[i as int].choices,
                forall|a: int, b: int|
                    0 <= a < i && 0 <= b < nv[a].choices.len() ==> #[trigger] nv[a].choices[b].next_id
                        == "exit"@ || node_index(nv, nv[a].choices[b].next_id) is Some,
                forall|b: int|
                    0 <= b < j ==> #[trigger] nv[i as int].choices[b].next_id == "exit"@ || node_index(
                        nv,
                        nv[i as int].choices[b].next_id,
                    ) is Some,
            decreases choices.len() - j,
        {
            let target = &choices[j].next_id;
            if !equals_str(target, "exit") && find_node(nodes, target).is_none() {
                proof {
                    assert(nv[i as int] == nodes@[i as int]@);
                    assert(nv[i as int].choices[j as int] == choices@[j as int]@);
                    assert(nv[i as int].choices.len() == choices.len());
                    assert(nv[i as int].choices[j as int].next_id == target@);
                    assert(!(nv[i as int].choices[j as int].next_id == "exit"@ || node_index(
                        nv,
                        nv[i as int].choices[j as int].next_id,
                    ) is Some));
                }
                return false;
            }
            j = j + 1;
        }
        i = i + 1;
    }
    true
}

} // verus!

verus! {

/// What `str::trim` leaves of `s`.
pub uninterp spec fn trimmed(s: Seq<char>) -> Seq<char>;

/// Relies on `str::trim`: the result is `s` without leading and trailing
/// whitespace, and depends on the characters of `s` alone.
#[verifier::external_body]
fn trim(s: &str) -> (r: String)
    ensures
        r@ == trimmed(s@),
{
    s.trim().to_string()
}

/// The choice labels as the prompt lists them, joined with a newline, two
/// spaces and a dash.
pub open spec fn label_list(labels: Seq<Seq<char>>) -> Seq<char>
    decreases labels.len(),
{
    if labels.len() == 0 {
        Seq::empty()
    } else if labels.len() == 1 {
        labels[0]
    } else {
        label_list(labels.drop_last()) + "\n  - "@ + labels.last()
    }
}

/// The trimmed labels of `choices`, in order.
pub open spec fn trimmed_labels(choices: Seq<ChoiceView>) -> Seq<Seq<char>> {
    choices.map_values(|c: ChoiceView| trimmed(c.label))
}

/// `labels` joined as the prompt lists them.
pub fn join_labels(labels: &Vec<String>) -> (r: String)
    ensures
        r@ == label_list(labels@.map_values(|l: String| l@)),
{
    let ghost lv = labels@.map_values(|l: String| l@);
    let mut out = String::new();
    let mut i: usize = 0;
    while i < labels.len()
        invariant
            i <= labels.len(),
            lv == labels@.map_values(|l: String| l@),
            out@ == label_list(lv.subrange(0, i as int)),
        decreases labels.len() - i,
    {
        let ghost sub = lv.subrange(0, i + 1);
        proof {
            assert(sub.drop_last() =~= lv.subrange(0, i as int));
            assert(sub.last() == labels@[i as int]@);
        }
        if i > 0 {
            out.append("\n  - ");
        }
        out.append(labels[i].as_str());
        proof {
            if i == 0 {
                assert(out@ =~= sub[0]);
            }
        }
        i = i + 1;
    }
    assert(lv.subrange(0, i as int) =~= lv);
    out
}

/// The labels of `choices`, each trimmed, joined as the prompt lists them.
pub fn choice_list(choices: &Vec<Choice>) -> (r: String)
    ensures
        r@ == label_list(trimmed_labels(choices_view(choices@))),
{
    let mut labels: Vec<String> = Vec::new();
    let mut i: usize = 0;
    while i < choices.len()
        invariant
            i <= choices.len(),
            labels@.map_values(|l: String| l@) =~= trimmed_labels(choices_view(choices@)).subrange(0, i as int),
        decreases choices.len() - i,
    {
        let t = trim(choices[i].choice.as_str());
        let ghost prev = labels@;
        labels.push(t);
        proof {
            assert(labels@ == prev.push(t));
            assert(labels@.map_values(|l: String| l@) =~= prev.map_values(|l: String| l@).push(t@));
            assert(trimmed_labels(choices_view(choices@)).subrange(0, i + 1) =~= trimmed_labels(
                choices_view(choices@),
            ).subrange(0, i as int).push(trimmed(choices@[i as int].choice@)));
        }
        i = i + 1;
    }
    assert(trimmed_labels(choices_view(choices@)).subrange(0, i as int) =~= trimmed_labels(choices_view(choices@)));
    join_labels(&labels)
}

} // verus!
