//! Organization invitations: the invited-member status filter.

use vstd::prelude::*;
use crate::text::{csv_items, csv_split, owned, str_eq, views};

verus! {

#[derive(Debug)]
pub enum InvitationCommands {
    /// Invite members by email
    Create {
        /// Organization ID (uses default if not specified)
        org: Option<String>,
        /// Comma-separated list of email addresses
        emails: String,
        /// Output as JSON
        json: bool,
    },
    /// Resend an existing invitation
    Resend {
        /// Invitation ID
        id: String,
        /// Organization ID (uses default if not specified)
        org: Option<String>,
        /// Output as JSON
        json: bool,
    },
    /// Revoke (cancel) a pending invitation
    Revoke {
        /// Invitation ID
        id: String,
        /// Organization ID (uses default if not specified)
        org: Option<String>,
        /// Skip confirmation prompt
        force: bool,
    },
    /// Accept a pending invitation
    Accept {
        /// Invited member ID
        invited_member: String,
        /// Acceptance token
        token: String,
        /// Output as JSON
        json: bool,
    },
    /// Manage organization-wide invite links
    Link {
        command: InviteLinkCommands,
    },
    /// Accept or verify a legacy (v1) organization invitation by token
    LegacyAccept {
        /// Acceptance token
        token: String,
        /// Only verify the token/email match without accepting
        verify_only: bool,
        /// Output as JSON
        json: bool,
    },
    /// Check whether adding members would require a plan upgrade
    CheckPlanUpgrade {
        /// Organization ID (uses default if not specified)
        org: Option<String>,
        /// Number of additional members being added
        additional_members: i64,
        /// Output as JSON
        json: bool,
    },
    /// Preview a v2 invitation by its token (no authentication required)
    Preview {
        /// Invitation token
        token: String,
        /// Output as JSON
        json: bool,
    },
    /// Accept a v2 invitation by its token
    AcceptToken {
        /// Invitation token
        token: String,
        /// Source organization ID (for external members joining via this org)
        source_org: Option<String>,
        /// Output as JSON
        json: bool,
    },
    /// Manage your pending invitations
    Pending {
        command: PendingCommands,
    },
    /// Decline a pending invitation
    Decline {
        /// Invited member ID
        invited_member: String,
        /// Invitation token
        token: String,
        /// Skip confirmation prompt
        force: bool,
    },
    /// List invited (not-yet-accepted) members of an organization
    InvitedMembers {
        /// Organization ID (uses default if not specified)
        org: Option<String>,
        /// Filter by status: invited, accepted, declined, expired, revoked
        status: Option<String>,
        /// Output as JSON
        json: bool,
    },
    /// Show the organization's invitation overview (counts/summary)
    Overview {
        /// Organization ID (uses default if not specified)
        org: Option<String>,
        /// Output as JSON
        json: bool,
    },
}

#[derive(Debug)]
pub enum PendingCommands {
    /// List your pending invitations (resolved from your account email)
    List {
        /// Output as JSON
        json: bool,
    },
    /// Create a short-lived access token for a pending invitation
    Access {
        /// Invited member ID
        inv_id: String,
        /// Output as JSON
        json: bool,
    },
}

#[derive(Debug)]
pub enum InviteLinkCommands {
    /// Create an invite link
    Create {
        /// Organization ID (uses default if not specified)
        org: Option<String>,
        /// Invite code (alphanumeric)
        code: String,
        /// Max uses (omit for unlimited)
        max_uses: Option<i32>,
        /// Expiry as RFC3339 timestamp (e.g. 2026-12-31T23:59:59Z)
        expires_at: Option<String>,
        /// Mark as external-facing link
        external: bool,
        /// Output as JSON
        json: bool,
    },
    /// Deactivate an invite link
    Deactivate {
        /// Link ID
        id: String,
        /// Organization ID (uses default if not specified)
        org: Option<String>,
        /// Skip confirmation prompt
        force: bool,
    },
    /// List invite links for an organization
    List {
        /// Organization ID (uses default if not specified)
        org: Option<String>,
        /// Output as JSON
        json: bool,
    },
    /// Join an organization via an invite link's code
    Join {
        /// Invite link code
        code: String,
        /// Output as JSON
        json: bool,
    },
}

/// Statuses accepted by `invitation invited-members --status`.
pub open spec fn is_invited_member_status(s: Seq<char>) -> bool {
    s == "invited"@ || s == "accepted"@ || s == "declined"@ || s == "expired"@ || s == "revoked"@
}

/// Checks `--status` against the statuses the backend knows.
pub fn validate_invited_member_status(status: &str) -> (r: Result<(), String>)
    ensures
        r is Ok <==> is_invited_member_status(status@),
        r matches Err(e) ==> e@ == "Invalid --status '"@ + status@
            + "'. Use one of: invited, accepted, declined, expired, revoked"@,
{
    if str_eq(status, "invited") || str_eq(status, "accepted") || str_eq(status, "declined")
        || str_eq(status, "expired") || str_eq(status, "revoked") {
        Ok(())
    } else {
        let mut e = owned("Invalid --status '");
        e.append(status);
        e.append("'. Use one of: invited, accepted, declined, expired, revoked");
        Err(e)
    }
}

/// The addresses of `invitation create --emails` (comma-separated,
/// trimmed, empty items dropped); at least one is needed.
pub fn parse_invitation_emails(emails: &str) -> (r: Result<Vec<String>, String>)
    ensures
        csv_items(emails@).len() > 0 ==> (r matches Ok(v) && views(v@) == csv_items(emails@)),
        csv_items(emails@).len() == 0 ==> (r matches Err(e) && e@
            == "--emails must contain at least one address"@),
{
    let list = csv_split(emails);
    if list.len() == 0 {
        return Err(owned("--emails must contain at least one address"));
    }
    Ok(list)
}

} // verus!
