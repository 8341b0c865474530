//! Cordoning: flipping a node's schedulable flag. The library says what
//! to patch and reads the answer; sending the patch is the caller's part.

use vstd::prelude::*;
use vstd::string::*;

verus! {

/// Result of a cordon or uncordon operation.
#[derive(Debug, Clone)]
pub struct CordonResult {
    /// Node name.
    pub node: String,
    /// Whether the operation succeeded.
    pub success: bool,
    /// Error message if it failed.
    pub error: Option<String>,
}

/// What a `CordonResult` holds, every text taken as its characters.
pub struct CordonResultView {
    pub node: Seq<char>,
    pub success: bool,
    pub error: Option<Seq<char>>,
}

impl View for CordonResult {
    type V = CordonResultView;

    open spec fn view(&self) -> CordonResultView {
        CordonResultView { node: self.node@, success: self.success, error: self.error.deep_view() }
    }
}

/// A change of a node's `spec.unschedulable` flag, to be sent as a merge
/// patch.
#[derive(Debug, Clone)]
pub struct SchedulablePatch {
    pub node: String,
    pub unschedulable: bool,
}

/// The patch that cordons `node`: it becomes unschedulable. Applying it to
/// a cordoned node changes nothing.
pub fn cordon_patch(node: &str) -> (patch: SchedulablePatch)
    ensures
        patch.node@ == node@,
        patch.unschedulable,
{
    SchedulablePatch { node: node.to_string(), unschedulable: true }
}

/// The patch that uncordons `node`: it becomes schedulable again.
pub fn uncordon_patch(node: &str) -> (patch: SchedulablePatch)
    ensures
        patch.node@ == node@,
        !patch.unschedulable,
{
    SchedulablePatch { node: node.to_string(), unschedulable: false }
}

/// The result that the answer to a patch stands for.
pub open spec fn cordon_result_of(node: Seq<char>, outcome: Result<(), Seq<char>>) -> CordonResultView {
    match outcome {
        Ok(_) => CordonResultView { node, success: true, error: None },
        Err(message) => CordonResultView { node, success: false, error: Some(message) },
    }
}

/// Reads the answer to a cordon or uncordon patch (`Err` holds the error
/// text): the operation succeeded if and only if the patch was accepted.
pub fn cordon_result(node: &str, outcome: &Result<(), String>) -> (result: CordonResult)
    ensures
        result@ == cordon_result_of(
            node@,
            match *outcome {
                Ok(_) => Ok(()),
                Err(message) => Err(message@),
            },
        ),
{
    match outcome {
        Ok(_) => CordonResult { node: node.to_string(), success: true, error: None },
        Err(message) => CordonResult {
            node: node.to_string(),
            success: false,
            error: Some(message.clone()),
        },
    }
}

} // verus!
