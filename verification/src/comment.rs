//! Goal comments: body input and validation of list options.

use vstd::prelude::*;
use crate::text::{blank, char_count, is_blank, owned, str_eq};

verus! {

#[derive(Debug)]
pub enum CommentCommands {
    /// List comments on a goal
    List {
        /// Goal ID
        goal: String,
        /// Parent comment ID (list replies to this comment)
        parent: Option<String>,
        /// Filter by resolved status
        resolved: Option<bool>,
        /// Max number of comments to return (1-1000)
        limit: Option<u16>,
        /// Pagination offset
        offset: Option<u64>,
        /// Sort order: asc or desc
        sort: Option<String>,
        /// Include thread replies when supported by the API
        include_replies: bool,
        /// Output as JSON
        json: bool,
    },
    /// List comments across goals (global feed with filters)
    ListAll {
        /// Filter by goal ID
        goal: Option<String>,
        /// Filter by author (organization member ID)
        author: Option<String>,
        /// Parent comment ID (list replies to this comment)
        parent: Option<String>,
        /// Filter by resolved status
        resolved: Option<bool>,
        /// Max number of comments to return (1-1000)
        limit: Option<u16>,
        /// Pagination offset
        offset: Option<u64>,
        /// Sort order: asc or desc
        sort: Option<String>,
        /// Include thread replies when supported by the API
        include_replies: bool,
        /// Output as JSON
        json: bool,
    },
    /// Get a comment and its replies
    Get {
        /// Comment ID
        id: String,
        /// Output as JSON
        json: bool,
    },
    /// Get a comment with its surrounding comments (notification highlight)
    Context {
        /// Comment ID
        id: String,
        /// Number of comments before/after the target (1-50, default 5)
        radius: Option<u8>,
        /// Filter surrounding comments by resolved status
        resolved: Option<bool>,
        /// Output as JSON
        json: bool,
    },
    /// List members who reacted to a comment with a given emoji
    Reactions {
        /// Comment ID
        id: String,
        /// Emoji to look up
        emoji: String,
        /// Output as JSON
        json: bool,
    },
    /// Create a comment on a goal
    Create {
        /// Goal ID
        goal: String,
        /// Comment body
        body: Option<String>,
        /// Read comment body from a file. Use '-' to read stdin.
        body_file: Option<String>,
        /// Parent comment ID for a thread reply
        parent: Option<String>,
        /// Mention member IDs (UUID), repeatable
        mention: Vec<String>,
        /// Output as JSON
        json: bool,
    },
    /// Update a comment's content
    Update {
        /// Comment ID
        id: String,
        /// New comment body
        body: Option<String>,
        /// New comment body from a file
        body_file: Option<String>,
        /// Mention member IDs (UUID), repeatable
        mention: Vec<String>,
        /// Output as JSON
        json: bool,
    },
    /// Delete a comment
    Delete {
        /// Comment ID
        id: String,
        /// Skip confirmation prompt
        force: bool,
    },
    /// Mark a comment as resolved
    Resolve {
        /// Comment ID
        id: String,
        /// Output as JSON
        json: bool,
    },
    /// Mark a comment as unresolved
    Unresolve {
        /// Comment ID
        id: String,
        /// Output as JSON
        json: bool,
    },
    /// Add an emoji reaction to a comment
    React {
        /// Comment ID
        id: String,
        /// Emoji (e.g. 👍 or :+1:)
        emoji: String,
    },
    /// Manage comment attachments
    Attachment {
        command: AttachmentCommands,
    },
}

#[derive(Debug)]
pub enum AttachmentCommands {
    /// Remove an attachment from a comment
    Rm {
        /// Comment ID
        comment_id: String,
        /// Attachment ID
        attachment_id: String,
        /// Skip confirmation prompt
        force: bool,
    },
}

/// Where a message body is read from.
#[derive(Debug, PartialEq, Eq)]
pub enum BodySource {
    /// Standard input (the flag value was `-`).
    Stdin,
    /// The text given inline.
    Inline(String),
    /// The file at this path.
    File(String),
}

/// Where a body given as an inline flag or a file flag is read from:
/// exactly one of the two must be present, and `-` in either means
/// standard input.
pub fn read_body(inline: Option<&String>, file: Option<&String>) -> (r: Result<BodySource, String>)
    ensures
        match (inline, file) {
            (Some(s), None) => if s@ == "-"@ {
                r == Ok::<BodySource, String>(BodySource::Stdin)
            } else {
                r matches Ok(BodySource::Inline(t)) && t@ == s@
            },
            (None, Some(p)) => if p@ == "-"@ {
                r == Ok::<BodySource, String>(BodySource::Stdin)
            } else {
                r matches Ok(BodySource::File(t)) && t@ == p@
            },
            (Some(_), Some(_)) => r matches Err(e) && e@ == "Specify only one of --body or --body-file"@,
            (None, None) => r matches Err(e) && e@ == "Specify --body or --body-file"@,
        },
{
    match (inline, file) {
        (Some(s), None) => if str_eq(s.as_str(), "-") {
            Ok(BodySource::Stdin)
        } else {
            Ok(BodySource::Inline(s.clone()))
        },
        (None, Some(p)) => if str_eq(p.as_str(), "-") {
            Ok(BodySource::Stdin)
        } else {
            Ok(BodySource::File(p.clone()))
        },
        (Some(_), Some(_)) => Err(owned("Specify only one of --body or --body-file")),
        (None, None) => Err(owned("Specify --body or --body-file")),
    }
}

/// Validates a comment body: not blank and at most 10000 characters.
pub fn ensure_body(content: String) -> (r: Result<String, String>)
    ensures
        r is Ok <==> !is_blank(content@) && content@.len() <= 10_000,
        r matches Ok(c) ==> c == content,
        r matches Err(e) ==> e@ == (if is_blank(content@) {
            "Comment body is empty. Specify --body, --body-file, or pipe content with --body -."@
        } else {
            "Comment body must be 10000 characters or less."@
        }),
{
    if blank(content.as_str()) {
        return Err(owned("Comment body is empty. Specify --body, --body-file, or pipe content with --body -."));
    }
    if char_count(content.as_str()) > 10_000 {
        return Err(owned("Comment body must be 10000 characters or less."));
    }
    Ok(content)
}

/// Validates `--sort`: `asc`, `desc`, or absent.
pub fn validate_sort(sort: Option<&String>) -> (r: Result<Option<&str>, String>)
    ensures
        match sort {
            Some(s) => if s@ == "asc"@ || s@ == "desc"@ {
                r matches Ok(Some(t)) && t@ == s@
            } else {
                r matches Err(e) && e@ == "Invalid --sort '"@ + s@ + "'. Use asc or desc."@
            },
            None => r matches Ok(None),
        },
{
    match sort {
        Some(s) => {
            let t = s.as_str();
            if str_eq(t, "asc") || str_eq(t, "desc") {
                Ok(Some(t))
            } else {
                let mut e = owned("Invalid --sort '");
                e.append(t);
                e.append("'. Use asc or desc.");
                Err(e)
            }
        },
        None => Ok(None),
    }
}

/// Validates `--limit`: between 1 and 1000 when given.
pub fn validate_limit(limit: Option<u16>) -> (r: Result<Option<u16>, String>)
    ensures
        match limit {
            Some(v) => if 1 <= v <= 1000 {
                r == Ok::<Option<u16>, String>(limit)
            } else {
                r matches Err(e) && e@ == "--limit must be between 1 and 1000."@
            },
            None => r == Ok::<Option<u16>, String>(None),
        },
{
    if let Some(value) = limit {
        if !(1 <= value && value <= 1000) {
            return Err(owned("--limit must be between 1 and 1000."));
        }
    }
    Ok(limit)
}

/// Validates `--radius` (the backend rejects values outside 1-50).
pub fn validate_radius(radius: Option<u8>) -> (r: Result<Option<u8>, String>)
    ensures
        match radius {
            Some(v) => if 1 <= v <= 50 {
                r == Ok::<Option<u8>, String>(radius)
            } else {
                r matches Err(e) && e@ == "--radius must be between 1 and 50."@
            },
            None => r == Ok::<Option<u8>, String>(None),
        },
{
    if let Some(value) = radius {
        if !(1 <= value && value <= 50) {
            return Err(owned("--radius must be between 1 and 50."));
        }
    }
    Ok(radius)
}

} // verus!
