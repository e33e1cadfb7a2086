//! The todo AI chat: reasoning effort.

use vstd::prelude::*;

verus! {

/// `reasoning` effort accepted by `POST /api/v2/ai-todo-chat/stream`.
#[derive(Clone, Copy, Debug, PartialEq, Eq)]
pub enum TodoChatReasoning {
    Low,
    Medium,
    High,
}

#[derive(Debug)]
pub enum TodoChatCommands {
    /// Send a message to the today's-todo walk-and-talk AI chat and stream
    /// its reply (SSE; ends on the backend's `done` event)
    Send {
        /// Message text to send
        message: String,
        /// Continue an existing thread instead of starting a new one
        thread: Option<String>,
        /// Reasoning effort
        reasoning: Option<TodoChatReasoning>,
        /// Re-generate the reply starting from (replacing) this message
        edit_from_message_id: Option<String>,
        /// Organization ID (uses default if not specified)
        org: Option<String>,
        /// Emit each SSE event as a JSON line (`{"event":...,"data":...}`)
        /// instead of formatted text
        json: bool,
    },
    /// Fire the silent "opening" turn for a brand-new thread (the panel's
    /// auto-start, as if the user just opened it without typing anything)
    /// and stream the AI agent's reply
    Start {
        /// Reasoning effort
        reasoning: Option<TodoChatReasoning>,
        /// Organization ID (uses default if not specified)
        org: Option<String>,
        /// Emit each SSE event as a JSON line (`{"event":...,"data":...}`)
        /// instead of formatted text
        json: bool,
    },
    /// List your todo-chat conversation threads (the backend doesn't
    /// paginate this list, so it's always the full set)
    Threads {
        /// Organization ID (uses default if not specified)
        org: Option<String>,
        /// Output as JSON
        json: bool,
    },
    /// List the messages in a todo-chat thread
    Messages {
        /// Thread ID
        thread: String,
        /// Organization ID (uses default if not specified)
        org: Option<String>,
        /// Output as JSON
        json: bool,
    },
}

impl TodoChatReasoning {
    /// The value the backend expects.
    pub open spec fn backend_value(self) -> Seq<char> {
        match self {
            TodoChatReasoning::Low => "low"@,
            TodoChatReasoning::Medium => "medium"@,
            TodoChatReasoning::High => "high"@,
        }
    }

    pub fn as_str(self) -> (r: &'static str)
        ensures
            r@ == self.backend_value(),
    {
        match self {
            TodoChatReasoning::Low => "low",
            TodoChatReasoning::Medium => "medium",
            TodoChatReasoning::High => "high",
        }
    }
}

} // verus!
