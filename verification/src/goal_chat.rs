//! The AI chat of a goal: commands and reasoning effort.

use vstd::prelude::*;


verus! {

/// `reasoning` effort accepted by `POST /api/v2/ai-goal-chat/stream`.
#[derive(Clone, Copy, Debug, PartialEq, Eq)]
pub enum GoalChatReasoning {
    Low,
    Medium,
    High,
}

#[derive(Debug)]
pub enum GoalChatCommands {
    /// Send a message to the AI agent chat for a goal and stream its reply
    /// (SSE; ends on the backend's `done` event)
    Send {
        /// Goal ID to chat about
        goal: String,
        /// Message text to send
        message: String,
        /// Continue an existing thread instead of starting a new one
        thread: Option<String>,
        /// Reasoning effort
        reasoning: Option<GoalChatReasoning>,
        /// Re-generate the reply starting from (replacing) this message
        edit_from_message_id: Option<String>,
        /// Organization ID (uses default if not specified)
        org: Option<String>,
        /// Emit each SSE event as a JSON line (`{"event":...,"data":...}`)
        /// instead of formatted text
        json: bool,
    },
    /// Get a short AI-generated encouragement message for a goal
    Encouragement {
        /// Goal ID
        goal: String,
        /// Organization ID (uses default if not specified)
        org: Option<String>,
        /// Output as JSON
        json: bool,
    },
    /// List your goal-chat conversation threads
    Threads {
        /// Filter to threads under this goal (omit to list across all goals)
        goal: Option<String>,
        /// Page number, 1-based (default: 1)
        page: Option<u32>,
        /// Page size (backend default: 20, max: 100)
        page_size: Option<u32>,
        /// Organization ID (uses default if not specified)
        org: Option<String>,
        /// Output as JSON
        json: bool,
    },
    /// List the messages in a goal-chat thread
    Messages {
        /// Thread ID
        thread: String,
        /// Organization ID (uses default if not specified)
        org: Option<String>,
        /// Output as JSON
        json: bool,
    },
}

impl GoalChatReasoning {
    /// The value the backend expects.
    pub open spec fn backend_value(self) -> Seq<char> {
        match self {
            GoalChatReasoning::Low => "low"@,
            GoalChatReasoning::Medium => "medium"@,
            GoalChatReasoning::High => "high"@,
        }
    }

    pub fn as_str(self) -> (r: &'static str)
        ensures
            r@ == self.backend_value(),
    {
        match self {
            GoalChatReasoning::Low => "low",
            GoalChatReasoning::Medium => "medium",
            GoalChatReasoning::High => "high",
        }
    }
}

} // verus!
