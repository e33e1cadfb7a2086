//! Streaks: the label of a public streak day.

use vstd::prelude::*;

verus! {

#[derive(Debug)]
pub enum StreakCommands {
    /// Show a member's streak (defaults to your own)
    Get {
        /// Organization ID (uses default if not specified)
        org: Option<String>,
        /// Member ID (defaults to yourself)
        member: Option<String>,
        /// Number of days in the window to show (1-90, default 7)
        days: Option<u32>,
        /// Output as JSON
        json: bool,
    },
    /// Manage your streak share link (public read-only streak page)
    Share {
        command: StreakShareCommands,
    },
    /// Freeze today's streak (protects against a miss today)
    Freeze {
        /// Organization ID (uses default if not specified)
        org: Option<String>,
        /// Member ID (defaults to yourself; only self is allowed by the API)
        member: Option<String>,
        /// Output as JSON
        json: bool,
    },
    /// Remove today's freeze
    Unfreeze {
        /// Organization ID (uses default if not specified)
        org: Option<String>,
        /// Member ID (defaults to yourself; only self is allowed by the API)
        member: Option<String>,
    },
    /// Revive yesterday's broken streak (once per calendar month, no rollover)
    Revive {
        /// Organization ID (uses default if not specified)
        org: Option<String>,
        /// Member ID (defaults to yourself; only self is allowed by the API)
        member: Option<String>,
        /// Output as JSON
        json: bool,
    },
    /// Fetch a publicly-shared streak by its share token
    Public {
        /// Share token
        token: String,
        /// Output as JSON
        json: bool,
    },
}

#[derive(Debug)]
pub enum StreakShareCommands {
    /// Show your streak share status
    Status {
        /// Organization ID (uses default if not specified)
        org: Option<String>,
        /// Member ID (defaults to yourself; only self is allowed by the API)
        member: Option<String>,
        /// Output as JSON
        json: bool,
    },
    /// Create (or re-enable) your streak share link
    Create {
        /// Organization ID (uses default if not specified)
        org: Option<String>,
        /// Member ID (defaults to yourself; only self is allowed by the API)
        member: Option<String>,
        /// Output as JSON
        json: bool,
    },
    /// Revoke your streak share link
    Revoke {
        /// Organization ID (uses default if not specified)
        org: Option<String>,
        /// Member ID (defaults to yourself; only self is allowed by the API)
        member: Option<String>,
    },
}

/// The label of a public streak day: `completed` wins over `frozen`.
pub open spec fn day_state_label(completed: bool, frozen: bool) -> Seq<char> {
    if completed {
        "completed"@
    } else if frozen {
        "frozen"@
    } else {
        "none"@
    }
}

pub fn public_day_state_label(completed: bool, frozen: bool) -> (r: &'static str)
    ensures
        r@ == day_state_label(completed, frozen),
{
    if completed {
        "completed"
    } else if frozen {
        "frozen"
    } else {
        "none"
    }
}

/// The member a streak command acts on: `--member` when given, otherwise
/// the caller's own member ID (`self_member_id`, looked up only when
/// needed).
pub fn member_or_self(member: Option<&String>, self_member_id: Option<String>) -> (r: Option<String>)
    ensures
        match member {
            Some(m) => r matches Some(x) && x@ == m@,
            None => r == self_member_id,
        },
{
    match member {
        Some(m) => Some(m.clone()),
        None => self_member_id,
    }
}

} // verus!
