//! The legacy `comments` command.

use vstd::prelude::*;

verus! {

#[derive(Debug)]
pub enum CommentsCommands {
    /// List comments on a goal
    List {
        /// Goal ID
        goal: String,
        /// Output as JSON
        json: bool,
    },
    /// Create a comment on a goal
    Create {
        /// Goal ID
        goal: String,
        /// Comment body
        body: String,
        /// Output as JSON
        json: bool,
    },
}

} // verus!
