use vstd::prelude::*;

verus! {

/// Where a session record currently executes: in the durable store, or
/// handed to the fast execution environment.
#[derive(Clone, Copy, Debug, PartialEq, Eq, Structural)]
pub enum ExecutionContext {
    Local,
    Delegated,
}

/// Hands a local session record to the fast execution environment; a record
/// already handed over cannot be handed over again.
pub fn delegate_game(context: ExecutionContext) -> (r: Option<ExecutionContext>)
    ensures
        context == ExecutionContext::Local ==> r == Some(ExecutionContext::Delegated),
        context == ExecutionContext::Delegated ==> r.is_none(),
{
    match context {
        ExecutionContext::Local => Some(ExecutionContext::Delegated),
        ExecutionContext::Delegated => None,
    }
}

/// Publishes the state of a handed-over record to the durable store; the
/// record stays handed over. Only a handed-over record can be committed.
pub fn commit_game(context: ExecutionContext) -> (r: Option<ExecutionContext>)
    ensures
        context == ExecutionContext::Delegated ==> r == Some(ExecutionContext::Delegated),
        context == ExecutionContext::Local ==> r.is_none(),
{
    match context {
        ExecutionContext::Local => None,
        ExecutionContext::Delegated => Some(ExecutionContext::Delegated),
    }
}

/// Publishes a handed-over record and takes it back to the durable store.
/// Only a handed-over record can be taken back.
pub fn undelegate_game(context: ExecutionContext) -> (r: Option<ExecutionContext>)
    ensures
        context == ExecutionContext::Delegated ==> r == Some(ExecutionContext::Local),
        context == ExecutionContext::Local ==> r.is_none(),
{
    match context {
        ExecutionContext::Local => None,
        ExecutionContext::Delegated => Some(ExecutionContext::Local),
    }
}

} // verus!
