//! What hooks see and say.

use vstd::prelude::*;
use crate::json::JsonValue;

verus! {

/// Where a hook runs.
#[derive(Clone, Copy, Debug, PartialEq, Eq, Structural)]
pub enum HookPoint {
    BeforeInbound,
    BeforeToolCall,
}

/// What a hook is for.
#[derive(Clone, Copy, Debug, PartialEq, Eq, Structural)]
pub enum HookCategory {
    Audit,
    Policy,
}

/// What a hook looks at.
#[derive(Debug)]
pub enum HookEvent {
    Inbound { user_id: String, channel: String, content: String },
    ToolCall { tool_name: String, parameters: JsonValue, user_id: String, context: String },
}

/// What a hook decided.
#[derive(Debug)]
pub enum HookOutcome {
    Continue,
    Reject { reason: String },
}

} // verus!
