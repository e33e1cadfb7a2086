//! The `goals` command group: status changes and deliverable icons.

use vstd::prelude::*;
use crate::goal::{invalid_status_error, GoalStatus};
use crate::text::{owned, str_eq, to_upper, unicode_upper};

verus! {

#[derive(Debug)]
pub enum GoalsCommands {
    /// List goals in the organization tree
    List {
        /// Organization ID (uses default if not specified)
        org: Option<String>,
        /// Tree depth (default: 3)
        depth: usize,
        /// Output as JSON
        json: bool,
    },
    /// Get a goal's details
    Get {
        /// Goal ID
        id: String,
        /// Output as JSON
        json: bool,
    },
    /// List children of a goal
    Children {
        /// Goal ID
        id: String,
        /// Max number of children to return (default: 20)
        limit: usize,
        /// Offset for pagination
        offset: usize,
        /// Output as JSON
        json: bool,
    },
    /// Show subtree of a goal
    Tree {
        /// Goal ID
        id: String,
        /// Output as JSON
        json: bool,
    },
    /// Get child goals with their deliverables and descriptions
    Context {
        /// Goal ID
        id: String,
        /// Max number of children to return (default: 50)
        limit: usize,
        /// Output as JSON
        json: bool,
    },
    /// Get sibling goals with their deliverables and descriptions
    Siblings {
        /// Goal ID
        id: String,
        /// Max number of siblings to return (default: 50)
        limit: usize,
        /// Output as JSON
        json: bool,
    },
    /// Search goals by keyword
    Search {
        /// Search query
        query: String,
        /// Output as JSON
        json: bool,
    },
    /// Update a goal's status or title
    Update {
        /// Goal ID
        id: String,
        /// Organization ID (uses default if not specified)
        org: Option<String>,
        /// Status: NOT_STARTED, IN_PROGRESS, COMPLETED, CANCELLED
        status: Option<String>,
        /// Title
        title: Option<String>,
        /// Output as JSON
        json: bool,
    },
}

/// What `goals update --status` sends: the completion flag and the backend
/// status (COMPLETED leaves the status unchanged), for the status named
/// in any letter case.
pub open spec fn goals_status_spec(status: Seq<char>) -> Result<(Option<bool>, Option<GoalStatus>), Seq<char>> {
    let u = unicode_upper(status);
    if u == "NOT_STARTED"@ {
        Ok((Some(false), Some(GoalStatus::NoneStatus)))
    } else if u == "IN_PROGRESS"@ {
        Ok((Some(false), Some(GoalStatus::InProgress)))
    } else if u == "COMPLETED"@ {
        Ok((Some(true), None))
    } else if u == "CANCELLED"@ {
        Ok((Some(false), Some(GoalStatus::Cancelled)))
    } else {
        Err(invalid_status_error(status))
    }
}

/// Parses a CLI status into the completion flag and the backend status.
pub fn parse_status(status: &str) -> (r: Result<(Option<bool>, Option<GoalStatus>), String>)
    ensures
        match goals_status_spec(status@) {
            Ok(v) => r == Ok::<(Option<bool>, Option<GoalStatus>), String>(v),
            Err(e) => r matches Err(x) && x@ == e,
        },
{
    let u = to_upper(status);
    if str_eq(u.as_str(), "NOT_STARTED") {
        Ok((Some(false), Some(GoalStatus::NoneStatus)))
    } else if str_eq(u.as_str(), "IN_PROGRESS") {
        Ok((Some(false), Some(GoalStatus::InProgress)))
    } else if str_eq(u.as_str(), "COMPLETED") {
        Ok((Some(true), None))
    } else if str_eq(u.as_str(), "CANCELLED") {
        Ok((Some(false), Some(GoalStatus::Cancelled)))
    } else {
        let mut e = owned("Invalid status: '");
        e.append(status);
        e.append("'. Use one of: NOT_STARTED, IN_PROGRESS, COMPLETED, CANCELLED");
        Err(e)
    }
}

/// What `goals update` sends: the completion flag and status from
/// `--status`, and the new title.
#[derive(Debug)]
pub struct GoalsUpdateRequest {
    pub status: Option<GoalStatus>,
    pub is_completed: Option<bool>,
    pub title: Option<String>,
    pub description: Option<String>,
}

/// The request of `goals update` from the parsed status (see
/// [`parse_status`]) and the title; an error when nothing would change.
pub fn build_goals_update_request(
    status_change: (Option<bool>, Option<GoalStatus>),
    title: Option<&String>,
) -> (r: Result<GoalsUpdateRequest, String>)
    ensures
        if status_change.0 is None && status_change.1 is None && title is None {
            r matches Err(e) && e@ == "Nothing to update. Specify --status or --title."@
        } else {
            r matches Ok(req) && {
                &&& req.is_completed == status_change.0
                &&& req.status == status_change.1
                &&& match title {
                    Some(t) => req.title == Some(*t),
                    None => req.title is None,
                }
                &&& req.description is None
            }
        },
{
    let (is_completed, status) = status_change;
    let title: Option<String> = match title {
        Some(t) => Some(t.clone()),
        None => None,
    };
    if status.is_none() && is_completed.is_none() && title.is_none() {
        return Err(owned("Nothing to update. Specify --status or --title."));
    }
    Ok(GoalsUpdateRequest { status, is_completed, title, description: None })
}

/// The icon shown before a deliverable of the given node type.
pub open spec fn node_type_icon_spec(node_type: Seq<char>) -> Seq<char> {
    if node_type == "folder"@ {
        "📁"@
    } else if node_type == "document"@ {
        "📄"@
    } else if node_type == "file"@ {
        "📎"@
    } else if node_type == "link"@ {
        "🔗"@
    } else {
        "  "@
    }
}

pub fn node_type_icon(node_type: &str) -> (r: &'static str)
    ensures
        r@ == node_type_icon_spec(node_type@),
{
    if str_eq(node_type, "folder") {
        "📁"
    } else if str_eq(node_type, "document") {
        "📄"
    } else if str_eq(node_type, "file") {
        "📎"
    } else if str_eq(node_type, "link") {
        "🔗"
    } else {
        "  "
    }
}

} // verus!
