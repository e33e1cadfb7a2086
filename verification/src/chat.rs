//! Org chat (DM and group rooms): message and group-name validation and the
//! labels used when listing rooms and messages.

use vstd::prelude::*;
use crate::text::{
    blank, char_count, chars_of, flatten_newline_chars, flatten_newlines, is_blank, owned, str_eq,
    truncate_chars_with_ellipsis, truncate_ellipsis,
};

verus! {

/// Maximum content length (in characters) accepted by the org-chat backend.
pub const MAX_CHAT_CONTENT_CHARS: usize = 4000;

/// Maximum group name length (in characters).
pub const MAX_GROUP_NAME_CHARS: usize = 255;

/// Room type filter accepted by `GET /api/v2/chat/rooms`.
#[derive(Clone, Copy, Debug, PartialEq, Eq)]
pub enum ChatRoomType {
    Dm,
    Group,
}

/// Visibility accepted by `POST /api/v2/chat/groups`.
#[derive(Clone, Copy, Debug, PartialEq, Eq)]
pub enum ChatVisibility {
    /// Discoverable and freely joinable by any organization member
    Public,
    /// Membership by invitation only
    Private,
}

#[derive(Debug)]
pub enum ChatCommands {
    /// Search messages (and matching room names) across your DM/group rooms
    Search {
        /// Search query
        query: String,
        /// Max number of messages to return
        limit: Option<u16>,
        /// Keyset cursor: return messages created before this RFC3339 timestamp
        before: Option<String>,
        /// Keyset cursor: message ID paired with --before
        before_id: Option<String>,
        /// Output as JSON
        json: bool,
    },
    /// Manage chat rooms (DMs and groups)
    Room {
        command: RoomCommands,
    },
    /// Manage messages within a chat room
    Message {
        command: MessageCommands,
    },
    /// Manage pending group invitations addressed to you
    Invitation {
        command: ChatInvitationCommands,
    },
}

#[derive(Debug)]
pub enum RoomCommands {
    /// List rooms you belong to
    List {
        /// Filter by room type
        room_type: Option<ChatRoomType>,
        /// Max number of rooms to return
        limit: Option<u16>,
        /// Keyset cursor: return rooms active before this RFC3339 timestamp
        before: Option<String>,
        /// Keyset cursor: room ID paired with --before
        before_id: Option<String>,
        /// Only return rooms you have hidden
        hidden: bool,
        /// Output as JSON
        json: bool,
    },
    /// List public groups in the organization (discovery; membership not required)
    ListPublic {
        /// Max number of rooms to return
        limit: Option<u16>,
        /// Keyset cursor: return rooms active before this RFC3339 timestamp
        before: Option<String>,
        /// Keyset cursor: room ID paired with --before
        before_id: Option<String>,
        /// Output as JSON
        json: bool,
    },
    /// Show the total unread message count across your group rooms
    UnreadCount {
        /// Output as JSON
        json: bool,
    },
    /// Get a room by ID
    Get {
        /// Room ID
        id: String,
        /// Output as JSON
        json: bool,
    },
    /// Start (or resume) a direct message room with another organization member
    CreateDm {
        /// Partner's organization member ID
        partner: String,
        /// Output as JSON
        json: bool,
    },
    /// Create a group room
    CreateGroup {
        /// Group name
        name: String,
        /// Visibility
        visibility: ChatVisibility,
        /// Initial member organization member IDs, repeatable
        member: Vec<String>,
        /// Output as JSON
        json: bool,
    },
    /// Rename a group room
    Rename {
        /// Room ID
        id: String,
        /// New group name
        name: String,
        /// Output as JSON
        json: bool,
    },
    /// Delete a group room
    Rm {
        /// Room ID
        id: String,
        /// Skip confirmation prompt
        force: bool,
    },
    /// List members of a room
    Members {
        /// Room ID
        id: String,
        /// Output as JSON
        json: bool,
    },
    /// Leave a group room
    Leave {
        /// Room ID
        id: String,
        /// Skip confirmation prompt
        force: bool,
    },
    /// Remove a member from a group room
    RemoveMember {
        /// Room ID
        id: String,
        /// Organization member ID to remove
        member_id: String,
        /// Skip confirmation prompt
        force: bool,
    },
    /// Join a public group (self-service, idempotent)
    Join {
        /// Room ID
        id: String,
        /// Output as JSON
        json: bool,
    },
    /// Invite organization members to a group room
    Invite {
        /// Room ID
        id: String,
        /// Organization member ID to invite, repeatable
        member: Vec<String>,
        /// Output as JSON
        json: bool,
    },
    /// Set a group room's icon
    SetIcon {
        /// Room ID
        id: String,
        /// Path to the image file to upload
        file: String,
        /// Output as JSON
        json: bool,
    },
    /// Remove a group room's icon (reverts to the default display)
    RmIcon {
        /// Room ID
        id: String,
        /// Skip confirmation prompt
        force: bool,
    },
    /// Mark a room as read
    Read {
        /// Room ID
        id: String,
        /// Mark as read up to this message ID (defaults to the latest message)
        message_id: Option<String>,
    },
    /// Hide or unhide a room from your room list
    Hide {
        /// Room ID
        id: String,
        /// true to hide, false to unhide
        hidden: bool,
    },
}

#[derive(Debug)]
pub enum MessageCommands {
    /// List messages in a room
    List {
        /// Room ID
        room: String,
        /// Only return replies to this message ID
        parent_message_id: Option<String>,
        /// Max number of messages to return
        limit: Option<u16>,
        /// Keyset cursor: return messages created before this RFC3339 timestamp
        before: Option<String>,
        /// Keyset cursor: message ID paired with --before
        before_id: Option<String>,
        /// Output as JSON
        json: bool,
    },
    /// Post a message to a room
    Post {
        /// Room ID
        room: String,
        /// Message body
        body: Option<String>,
        /// Read message body from a file. Use '-' to read stdin.
        body_file: Option<String>,
        /// Reply to this message ID
        parent_message_id: Option<String>,
        /// Mention organization member IDs (UUID), repeatable
        mention: Vec<String>,
        /// Output as JSON
        json: bool,
    },
    /// Edit a message you sent
    Update {
        /// Message ID
        id: String,
        /// Room ID
        room: String,
        /// New message body
        body: Option<String>,
        /// New message body from a file. Use '-' to read stdin.
        body_file: Option<String>,
        /// Output as JSON
        json: bool,
    },
    /// Delete a message you sent
    Rm {
        /// Message ID
        id: String,
        /// Room ID
        room: String,
        /// Skip confirmation prompt
        force: bool,
    },
    /// Add an emoji reaction to a message
    React {
        /// Message ID
        id: String,
        /// Room ID
        room: String,
        /// Emoji (e.g. 👍)
        emoji: String,
        /// Output as JSON
        json: bool,
    },
    /// Remove your emoji reaction from a message
    Unreact {
        /// Message ID
        id: String,
        /// Room ID
        room: String,
        /// Emoji to remove
        emoji: String,
        /// Skip confirmation prompt
        force: bool,
    },
    /// List member IDs who reacted to a message with an emoji
    Reactions {
        /// Message ID
        id: String,
        /// Room ID
        room: String,
        /// Emoji to look up
        emoji: String,
        /// Output as JSON
        json: bool,
    },
}

#[derive(Debug)]
pub enum ChatInvitationCommands {
    /// List pending group invitations addressed to you
    ListPending {
        /// Output as JSON
        json: bool,
    },
    /// Accept a pending group invitation
    Accept {
        /// Invitation ID
        id: String,
        /// Output as JSON
        json: bool,
    },
    /// Decline a pending group invitation
    Decline {
        /// Invitation ID
        id: String,
        /// Skip confirmation prompt
        force: bool,
    },
}

impl ChatRoomType {
    /// The value the backend expects for this room type.
    pub open spec fn backend_value(self) -> Seq<char> {
        match self {
            ChatRoomType::Dm => "dm"@,
            ChatRoomType::Group => "group"@,
        }
    }

    pub fn as_str(self) -> (r: &'static str)
        ensures
            r@ == self.backend_value(),
    {
        match self {
            ChatRoomType::Dm => "dm",
            ChatRoomType::Group => "group",
        }
    }
}

impl ChatVisibility {
    /// The value the backend expects for this visibility.
    pub open spec fn backend_value(self) -> Seq<char> {
        match self {
            ChatVisibility::Public => "public"@,
            ChatVisibility::Private => "private"@,
        }
    }

    pub fn as_str(self) -> (r: &'static str)
        ensures
            r@ == self.backend_value(),
    {
        match self {
            ChatVisibility::Public => "public",
            ChatVisibility::Private => "private",
        }
    }
}

/// A chat message as the backend returns it.
#[derive(Debug)]
pub struct ChatMessage {
    pub id: String,
    pub room_id: String,
    pub sender_id: Option<String>,
    pub content: String,
    pub parent_message_id: Option<String>,
    pub created_at: String,
    pub updated_at: String,
}

/// A chat room (DM or group) as the backend returns it.
#[derive(Debug)]
pub struct ChatRoom {
    pub id: String,
    pub organization_id: String,
    pub room_type: String,
    pub visibility: String,
    pub is_member: bool,
    pub created_at: String,
    pub updated_at: String,
    pub unread_count: i64,
    pub unread_mention_count: i64,
    pub name: Option<String>,
    pub dm_pair_key: Option<String>,
    pub icon_url: Option<String>,
    pub created_by: Option<String>,
    pub last_message_at: Option<String>,
    pub last_message: Option<ChatMessage>,
}

/// The error for an empty message body.
pub open spec fn empty_message_error() -> Seq<char> {
    "Message body is empty. Specify --body, --body-file, or pipe content with --body -."@
}

/// The error for a message body over the limit.
pub open spec fn long_message_error() -> Seq<char> {
    "Message body must be 4000 characters or less."@
}

/// Validates message content: not blank and at most
/// `MAX_CHAT_CONTENT_CHARS` characters. Returns the content unchanged.
pub fn ensure_chat_content(content: String) -> (r: Result<String, String>)
    ensures
        r is Ok <==> !is_blank(content@) && content@.len() <= MAX_CHAT_CONTENT_CHARS,
        r matches Ok(c) ==> c == content,
        r matches Err(e) ==> e@ == (if is_blank(content@) {
            empty_message_error()
        } else {
            long_message_error()
        }),
{
    if blank(content.as_str()) {
        return Err(owned("Message body is empty. Specify --body, --body-file, or pipe content with --body -."));
    }
    if char_count(content.as_str()) > MAX_CHAT_CONTENT_CHARS {
        return Err(owned("Message body must be 4000 characters or less."));
    }
    Ok(content)
}

/// Validates a group name: not blank and at most `MAX_GROUP_NAME_CHARS`
/// characters.
pub fn ensure_group_name(name: &str) -> (r: Result<(), String>)
    ensures
        r is Ok <==> !is_blank(name@) && name@.len() <= MAX_GROUP_NAME_CHARS,
        r matches Err(e) ==> e@ == (if is_blank(name@) {
            "Group name is empty. Specify --name."@
        } else {
            "Group name must be 255 characters or less."@
        }),
{
    if blank(name) {
        return Err(owned("Group name is empty. Specify --name."));
    }
    if char_count(name) > MAX_GROUP_NAME_CHARS {
        return Err(owned("Group name must be 255 characters or less."));
    }
    Ok(())
}

/// `room invite` needs at least one `--member`.
pub fn ensure_invitees(members: &Vec<String>) -> (r: Result<(), String>)
    ensures
        r is Ok <==> members@.len() > 0,
        r matches Err(e) ==> e@ == "Specify at least one --member to invite."@,
{
    if members.len() == 0 {
        return Err(owned("Specify at least one --member to invite."));
    }
    Ok(())
}

/// `content` on one line (line feeds become spaces), cut to `max_chars`
/// characters with a trailing `...` when longer.
pub fn truncate_content(content: &str, max_chars: usize) -> (r: String)
    ensures
        r@ == truncate_ellipsis(flatten_newlines(content@), max_chars as int),
{
    let v = chars_of(content);
    let flat = flatten_newline_chars(&v);
    truncate_chars_with_ellipsis(&flat, max_chars)
}

/// The label shown for a room: its name, `(dm)` for an unnamed DM, or
/// `(unnamed)`.
pub open spec fn room_label_spec(room: ChatRoom) -> Seq<char> {
    match room.name {
        Some(name) => name@,
        None => if room.room_type@ == "dm"@ {
            "(dm)"@
        } else {
            "(unnamed)"@
        },
    }
}

pub fn room_label(room: &ChatRoom) -> (r: String)
    ensures
        r@ == room_label_spec(*room),
{
    match &room.name {
        Some(name) => name.clone(),
        None => if str_eq(room.room_type.as_str(), "dm") {
            owned("(dm)")
        } else {
            owned("(unnamed)")
        },
    }
}

} // verus!
