//! Organization members: avatar uploads and finding your own member record.

use vstd::prelude::*;
use crate::text::{ascii_lower, owned, str_eq, to_ascii_lower};
use crate::paths::{extension_of, path_extension};

verus! {

#[derive(Debug)]
pub enum MemberCommands {
    /// List members in the organization
    List {
        /// Organization ID (uses default if not specified)
        org: Option<String>,
        /// Output as JSON
        json: bool,
    },
    /// Update a member's display name
    Update {
        /// Member ID
        id: String,
        /// New display name
        name: String,
    },
    /// Pin a member to the top of lists
    Pin {
        /// Member ID
        id: String,
    },
    /// Unpin a member
    Unpin {
        /// Member ID
        id: String,
    },
    /// Remove a member from the organization
    Rm {
        /// Member ID
        id: String,
        /// Skip confirmation prompt
        force: bool,
    },
    /// Manage admin role on a member
    Admin {
        command: AdminCommands,
    },
    /// Set the source organization for an external member
    SetSourceOrg {
        /// Member ID
        id: String,
        /// Source organization ID (UUID)
        org: String,
    },
    /// Search members in the organization by name
    Search {
        /// Organization ID (uses default if not specified)
        org: Option<String>,
        /// Name filter (display name or username)
        name: Option<String>,
        /// Maximum number of results
        limit: Option<i64>,
        /// Output as JSON
        json: bool,
    },
    /// List members below the current member's topmost owned objective
    Children {
        /// Organization ID (uses default if not specified)
        org: Option<String>,
        /// Tree depth (default: 1)
        depth: Option<i64>,
        /// Output as JSON
        json: bool,
    },
    /// List admin members of the organization
    Admins {
        /// Organization ID (uses default if not specified)
        org: Option<String>,
        /// Output as JSON
        json: bool,
    },
    /// Preview the effects of deleting a member (assignment reassignment, etc.)
    DeletePreview {
        /// Member ID
        id: String,
        /// Organization ID (uses default if not specified)
        org: Option<String>,
        /// Output as JSON
        json: bool,
    },
    /// Browse members with filtering/sorting/pagination (distinct from `list`)
    Browse {
        /// Organization ID (uses default if not specified)
        org: Option<String>,
        /// Free-text search query
        query: Option<String>,
        /// Page number
        page: Option<i64>,
        /// Number of results per page
        page_size: Option<i64>,
        /// Objective ID to filter by assignment (requires --type)
        objective_id: Option<String>,
        /// Comma-separated assignment types: non-member, member, editor, owner
        type_: Option<String>,
        /// Comma-separated member tag IDs to filter by
        tag_ids: Option<String>,
        /// Field to sort by
        sort_by: Option<String>,
        /// Sort direction: asc or desc
        sort_dir: Option<String>,
        /// Member ID whose containing page should be returned
        target_member_id: Option<String>,
        /// Output as JSON
        json: bool,
    },
    /// Show the objectives assigned to a member
    Objectives {
        /// Member ID
        id: String,
        /// Organization ID (uses default if not specified)
        org: Option<String>,
        /// Output as JSON
        json: bool,
    },
    /// Upload a member's avatar image
    SetAvatar {
        /// Member ID
        id: String,
        /// Path to the image file to upload
        file: String,
        /// Organization ID (uses default if not specified)
        org: Option<String>,
        /// Output as JSON
        json: bool,
    },
    /// Show a single member's detail
    Get {
        /// Member ID
        id: String,
        /// Organization ID (uses default if not specified)
        org: Option<String>,
        /// Output as JSON
        json: bool,
    },
    /// Manage member tags
    Tag {
        command: MemberTagCommands,
    },
}

#[derive(Debug)]
pub enum MemberTagCommands {
    /// List tags defined in the organization
    List {
        /// Organization ID (uses default if not specified)
        org: Option<String>,
        /// Output as JSON
        json: bool,
    },
    /// Create a new member tag
    Create {
        /// Organization ID (uses default if not specified)
        org: Option<String>,
        /// Tag name
        name: String,
        /// Output as JSON
        json: bool,
    },
    /// Delete a member tag (removes it from all members)
    Rm {
        /// Tag ID
        tag_id: String,
        /// Organization ID (uses default if not specified)
        org: Option<String>,
        /// Skip confirmation prompt
        force: bool,
    },
    /// Assign a tag to a member
    Assign {
        /// Member ID
        member_id: String,
        /// Organization ID (uses default if not specified)
        org: Option<String>,
        /// Tag ID to assign
        tag: String,
    },
    /// List tags assigned to a member
    ListFor {
        /// Member ID
        member_id: String,
        /// Organization ID (uses default if not specified)
        org: Option<String>,
        /// Output as JSON
        json: bool,
    },
    /// Remove a tag from a member
    Unassign {
        /// Member ID
        member_id: String,
        /// Tag ID
        tag_id: String,
        /// Organization ID (uses default if not specified)
        org: Option<String>,
    },
}

#[derive(Debug)]
pub enum AdminCommands {
    /// Grant admin role to a member
    Grant {
        /// Member ID
        id: String,
    },
    /// Revoke admin role from a member
    Revoke {
        /// Member ID
        id: String,
    },
}

/// The MIME type of an avatar with this (lower-cased) extension.
pub open spec fn avatar_content_type(ext: Option<Seq<char>>) -> Seq<char> {
    match ext {
        Some(e) => if e == "png"@ {
            "image/png"@
        } else if e == "jpg"@ || e == "jpeg"@ {
            "image/jpeg"@
        } else if e == "gif"@ {
            "image/gif"@
        } else if e == "webp"@ {
            "image/webp"@
        } else if e == "svg"@ {
            "image/svg+xml"@
        } else {
            "application/octet-stream"@
        },
        None => "application/octet-stream"@,
    }
}

/// The lower-cased extension of `path`, if it has one.
pub open spec fn lower_extension(path: Seq<char>) -> Option<Seq<char>> {
    match extension_of(path) {
        Some(e) => Some(ascii_lower(e)),
        None => None,
    }
}

/// Best-effort MIME type for an avatar upload, from the file extension.
pub fn content_type_for_avatar_path(path: &str) -> (r: &'static str)
    ensures
        r@ == avatar_content_type(lower_extension(path@)),
{
    match path_extension(path) {
        Some(e) => {
            let l = to_ascii_lower(e.as_str());
            let x = l.as_str();
            if str_eq(x, "png") {
                "image/png"
            } else if str_eq(x, "jpg") || str_eq(x, "jpeg") {
                "image/jpeg"
            } else if str_eq(x, "gif") {
                "image/gif"
            } else if str_eq(x, "webp") {
                "image/webp"
            } else if str_eq(x, "svg") {
                "image/svg+xml"
            } else {
                "application/octet-stream"
            }
        },
        None => "application/octet-stream",
    }
}

/// An organization member as the member list returns it.
#[derive(Debug)]
pub struct OrgMember {
    pub id: String,
    pub name: String,
    pub is_current_user: bool,
}

/// The index of the first member that is the caller.
pub open spec fn first_current(members: Seq<OrgMember>) -> Option<int>
    decreases members.len(),
{
    if members.len() == 0 {
        None
    } else if members[0].is_current_user {
        Some(0)
    } else {
        match first_current(members.drop_first()) {
            Some(i) => Some(i + 1),
            None => None,
        }
    }
}

proof fn lemma_first_current_skip(members: Seq<OrgMember>, i: int)
    requires
        0 <= i <= members.len(),
        forall|j: int| 0 <= j < i ==> !(#[trigger] members[j]).is_current_user,
    ensures
        first_current(members) == (match first_current(members.subrange(i, members.len() as int)) {
            Some(k) => Some(k + i),
            None => None,
        }),
    decreases i,
{
    if i > 0 {
        let t = members.drop_first();
        lemma_first_current_skip(t, i - 1);
        assert(t.subrange(i - 1, t.len() as int) =~= members.subrange(i, members.len() as int));
    } else {
        assert(members.subrange(0, members.len() as int) =~= members);
    }
}

/// Your own member ID in `org_id`, from the organization's member list
/// (the first member marked as the current user).
pub fn select_self_member_id(members: &[OrgMember], org_id: &str) -> (r: Result<String, String>)
    ensures
        match first_current(members@) {
            Some(i) => r matches Ok(id) && id == members@[i].id,
            None => r matches Err(e) && e@ == "Could not determine your member ID in organization "@
                + org_id@ + ". Specify --member <ID> explicitly."@,
        },
{
    let mut i: usize = 0;
    while i < members.len()
        invariant
            i <= members.len(),
            forall|j: int| 0 <= j < i ==> !(#[trigger] members@[j]).is_current_user,
        decreases members.len() - i,
    {
        if members[i].is_current_user {
            proof {
                lemma_first_current_skip(members@, i as int);
            }
            return Ok(members[i].id.clone());
        }
        i = i + 1;
    }
    proof {
        lemma_first_current_skip(members@, i as int);
    }
    let mut e = owned("Could not determine your member ID in organization ");
    e.append(org_id);
    e.append(". Specify --member <ID> explicitly.");
    Err(e)
}

/// Your own display name, for `goal list --assigned-to me`: the name of the
/// first member marked as the current user.
pub fn select_current_user_name(members: &[OrgMember]) -> (r: Result<String, String>)
    ensures
        match first_current(members@) {
            Some(i) => r matches Ok(name) && name == members@[i].name,
            None => r matches Err(e) && e@
                == "Could not determine current user. Try using your name instead of 'me'."@,
        },
{
    let mut i: usize = 0;
    while i < members.len()
        invariant
            i <= members.len(),
            forall|j: int| 0 <= j < i ==> !(#[trigger] members@[j]).is_current_user,
        decreases members.len() - i,
    {
        if members[i].is_current_user {
            proof {
                lemma_first_current_skip(members@, i as int);
            }
            return Ok(members[i].name.clone());
        }
        i = i + 1;
    }
    proof {
        lemma_first_current_skip(members@, i as int);
    }
    Err(owned("Could not determine current user. Try using your name instead of 'me'."))
}

} // verus!
