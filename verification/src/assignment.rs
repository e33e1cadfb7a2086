//! Goal assignments: role names.

use vstd::prelude::*;
use crate::text::{owned, str_eq, to_upper, unicode_upper};

verus! {

#[derive(Debug)]
pub enum AssignmentCommands {
    /// Assign an organization member to a goal
    Add {
        /// Goal ID
        goal: String,
        /// Organization member ID (UUID) to assign
        member: String,
        /// Role: OWNER, EDITOR, or MEMBER (default MEMBER)
        role: Option<String>,
        /// Output as JSON
        json: bool,
    },
    /// Update an assignment's role
    Update {
        /// Goal ID
        goal: String,
        /// Assignment ID
        id: String,
        /// New role: OWNER, EDITOR, or MEMBER
        role: String,
        /// Output as JSON
        json: bool,
    },
    /// Remove an assignment
    Rm {
        /// Goal ID
        goal: String,
        /// Assignment ID
        id: String,
        /// Skip confirmation prompt
        force: bool,
    },
    /// Transfer goal ownership to another member
    Transfer {
        /// Goal ID
        goal: String,
        /// New owner organization member ID (UUID)
        to: String,
        /// Demote current owner to EDITOR (default keeps prior role)
        actor_as_editor: bool,
        /// Output as JSON
        json: bool,
    },
}

/// The roles an assignment can have.
pub open spec fn is_role(s: Seq<char>) -> bool {
    s == "OWNER"@ || s == "EDITOR"@ || s == "MEMBER"@
}

/// The upper-cased role when it is `OWNER`, `EDITOR` or `MEMBER`.
pub fn validate_role(role: &str) -> (r: Result<String, String>)
    ensures
        is_role(unicode_upper(role@)) ==> (r matches Ok(x) && x@ == unicode_upper(role@)),
        !is_role(unicode_upper(role@)) ==> (r matches Err(e) && e@ == "Invalid role '"@ + role@
            + "'. Use OWNER, EDITOR, or MEMBER."@),
{
    let upper = to_upper(role);
    let u = upper.as_str();
    if str_eq(u, "OWNER") || str_eq(u, "EDITOR") || str_eq(u, "MEMBER") {
        Ok(upper)
    } else {
        let mut e = owned("Invalid role '");
        e.append(role);
        e.append("'. Use OWNER, EDITOR, or MEMBER.");
        Err(e)
    }
}

} // verus!
