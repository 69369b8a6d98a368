use vstd::prelude::*;

pub mod engine;
pub mod graph;
pub mod history;
pub mod laws;
pub mod template;
pub mod text;
pub mod tools;

pub use engine::{Action, DecisionResult, DecisionState};
pub use graph::{Choice, Decision};
pub use template::DecisionPromptTemplate;
pub use tools::{Tool, ToolResponse};

verus! {

/// The kinds of failure that end a turn.
#[derive(Clone, Copy, Debug, PartialEq, Eq, Structural)]
pub enum ErrorKind {
    /// The current or the target node is not in the graph.
    UnknownNode,
    /// A node names a tool that is not configured.
    UnknownTool,
    /// The completion backend failed.
    Completion,
    /// The tool backend failed, or its request could not be built.
    Tool,
}

/// A failure of the engine: its kind, and the identifier or backend message
/// that goes with it.
#[derive(Debug)]
pub struct CognitionError {
    pub kind: ErrorKind,
    pub detail: String,
}

impl CognitionError {
    /// The error as one line of text.
    pub fn message(&self) -> (r: String)
        ensures
            r@ == "Cognition error: "@ + self.detail@,
    {
        let mut r = String::from_str("Cognition error: ");
        r.append(self.detail.as_str());
        r
    }
}

} // verus!
