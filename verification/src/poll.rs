//! Flow control for polling: the actions a fragment handler may return, the
//! numbers the client library expects for them, and what a poll dispatch
//! answers when no handler is registered.

use vstd::prelude::*;

verus! {

/// Flow-control actions for `poll_assembled` when the handler returns a `ControlledAction`.
/// Matches Aeron's `ControlledPollAction` enum values.
#[derive(Debug, Clone, Copy, PartialEq, Eq, Structural)]
pub enum ControlledAction {
    /// Abort polling — rewind position, re-deliver this fragment next poll.
    Abort,
    /// Stop polling this image, commit position up to this fragment.
    Break,
    /// Checkpoint position for flow control, continue polling.
    Commit,
    /// Continue processing (default behavior).
    Continue,
}

/// Aeron's number for a controlled poll action.
pub open spec fn action_code(action: ControlledAction) -> i32 {
    match action {
        ControlledAction::Abort => 0,
        ControlledAction::Break => 1,
        ControlledAction::Commit => 2,
        ControlledAction::Continue => 3,
    }
}

impl ControlledAction {
    /// Aeron's number for this action.
    pub fn code(&self) -> (r: i32)
        ensures
            r == action_code(*self),
    {
        match self {
            ControlledAction::Abort => 0,
            ControlledAction::Break => 1,
            ControlledAction::Commit => 2,
            ControlledAction::Continue => 3,
        }
    }
}

/// Lets a poll handler return either `()` or a `ControlledAction`.
/// Handlers returning `()` mean `ControlledAction::Continue`.
pub trait PollAction {
    fn into_action(self) -> ControlledAction;
}

impl PollAction for () {
    fn into_action(self) -> (r: ControlledAction)
        ensures
            r == ControlledAction::Continue,
    {
        ControlledAction::Continue
    }
}

impl PollAction for ControlledAction {
    fn into_action(self) -> (r: ControlledAction)
        ensures
            r == self,
    {
        self
    }
}

/// The number handed back to the client library for one controlled fragment:
/// the code of the action the registered handler returned, or `Abort` (so the
/// fragment is delivered again) when no handler was registered under the id.
pub fn controlled_fragment_code(outcome: Option<ControlledAction>) -> (r: i32)
    ensures
        r == match outcome {
            Some(action) => action_code(action),
            None => action_code(ControlledAction::Abort),
        },
{
    match outcome {
        Some(action) => action.code(),
        None => ControlledAction::Abort.code(),
    }
}

/// Whether a claimed buffer is committed: what the registered handler decided,
/// or abort (`false`) when no handler was registered under the id.
pub fn claim_committed(outcome: Option<bool>) -> (r: bool)
    ensures
        r == (outcome == Some(true)),
{
    match outcome {
        Some(commit) => commit,
        None => false,
    }
}

/// Distinct actions have distinct codes, all in `0..=3`, so the client library
/// can tell them apart.
pub proof fn lemma_action_codes(a: ControlledAction, b: ControlledAction)
    ensures
        0 <= action_code(a) <= 3,
        action_code(a) == action_code(b) <==> a == b,
{
}

} // verus!
