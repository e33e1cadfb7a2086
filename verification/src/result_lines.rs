//! The lines the commands print for their results and the questions of
//! the `--force`-gated ones, each fixed by the values it names.

use vstd::prelude::*;
use crate::ai_chat_render::bool_word;
use crate::text::{dec, u64_text};

verus! {

/// Result lines of the huddle and meeting-bot commands.
#[derive(Debug)]
pub enum HuddleLine {
    Status { status: String, recording: bool, participants: u64 },
    ActiveHuddle { objective_id: String, participants: u64, started_at: String },
    RecordingStarted { objective_id: String },
    RecordingStopped { objective_id: String },
    BotJobCreated { id: String, status: String },
    BotJobDeleted { id: String },
}

/// The text of a [`HuddleLine`].
pub open spec fn huddle_line_text(l: HuddleLine) -> Seq<char> {
    match l {
        HuddleLine::Status { status, recording, participants } => "status: "@ + status@ + "  recording: "@ + bool_word(recording) + "  participants: "@ + dec(participants as nat),
        HuddleLine::ActiveHuddle { objective_id, participants, started_at } => objective_id@ + " — "@ + dec(participants as nat) + " participant(s) since "@ + started_at@,
        HuddleLine::RecordingStarted { objective_id } => "Recording started for "@ + objective_id@ + "."@,
        HuddleLine::RecordingStopped { objective_id } => "Recording stopped for "@ + objective_id@ + "."@,
        HuddleLine::BotJobCreated { id, status } => "Created meeting-bot job "@ + id@ + " ["@ + status@ + "]"@,
        HuddleLine::BotJobDeleted { id } => "Deleted meeting-bot job "@ + id@,
    }
}

pub fn huddle_line(l: &HuddleLine) -> (r: String)
    ensures
        r@ == huddle_line_text(*l),
{
    match l {
        HuddleLine::Status { status, recording, participants } => {
            let mut s = String::new();
            s.append("status: ");
            s.append(status.as_str());
            s.append("  recording: ");
            s.append(if *recording { "true" } else { "false" });
            s.append("  participants: ");
            let t = u64_text(*participants);
            s.append(t.as_str());
            s
        },
        HuddleLine::ActiveHuddle { objective_id, participants, started_at } => {
            let mut s = String::new();
            s.append(objective_id.as_str());
            s.append(" — ");
            let t = u64_text(*participants);
            s.append(t.as_str());
            s.append(" participant(s) since ");
            s.append(started_at.as_str());
            s
        },
        HuddleLine::RecordingStarted { objective_id } => {
            let mut s = String::new();
            s.append("Recording started for ");
            s.append(objective_id.as_str());
            s.append(".");
            s
        },
        HuddleLine::RecordingStopped { objective_id } => {
            let mut s = String::new();
            s.append("Recording stopped for ");
            s.append(objective_id.as_str());
            s.append(".");
            s
        },
        HuddleLine::BotJobCreated { id, status } => {
            let mut s = String::new();
            s.append("Created meeting-bot job ");
            s.append(id.as_str());
            s.append(" [");
            s.append(status.as_str());
            s.append("]");
            s
        },
        HuddleLine::BotJobDeleted { id } => {
            let mut s = String::new();
            s.append("Deleted meeting-bot job ");
            s.append(id.as_str());
            s
        },
    }
}

/// Result lines of the Codex job commands (`job_line` is the job's `format_job_line`).
#[derive(Debug)]
pub enum CodexJobLine {
    Created { job_line: String },
    SentInput { id: String },
    Resumed { job_line: String },
    CancelRequested { id: String },
    CloseRequested { id: String },
    Deleted { id: String },
}

/// The text of a [`CodexJobLine`].
pub open spec fn codex_job_line_text(l: CodexJobLine) -> Seq<char> {
    match l {
        CodexJobLine::Created { job_line } => "Created Codex job "@ + job_line@,
        CodexJobLine::SentInput { id } => "Sent input to Codex job "@ + id@,
        CodexJobLine::Resumed { job_line } => "Resumed Codex job "@ + job_line@,
        CodexJobLine::CancelRequested { id } => "Requested cancel of the running turn for Codex job "@ + id@,
        CodexJobLine::CloseRequested { id } => "Requested close of Codex job "@ + id@,
        CodexJobLine::Deleted { id } => "Deleted Codex job "@ + id@,
    }
}

pub fn codex_job_line(l: &CodexJobLine) -> (r: String)
    ensures
        r@ == codex_job_line_text(*l),
{
    match l {
        CodexJobLine::Created { job_line } => {
            let mut s = String::new();
            s.append("Created Codex job ");
            s.append(job_line.as_str());
            s
        },
        CodexJobLine::SentInput { id } => {
            let mut s = String::new();
            s.append("Sent input to Codex job ");
            s.append(id.as_str());
            s
        },
        CodexJobLine::Resumed { job_line } => {
            let mut s = String::new();
            s.append("Resumed Codex job ");
            s.append(job_line.as_str());
            s
        },
        CodexJobLine::CancelRequested { id } => {
            let mut s = String::new();
            s.append("Requested cancel of the running turn for Codex job ");
            s.append(id.as_str());
            s
        },
        CodexJobLine::CloseRequested { id } => {
            let mut s = String::new();
            s.append("Requested close of Codex job ");
            s.append(id.as_str());
            s
        },
        CodexJobLine::Deleted { id } => {
            let mut s = String::new();
            s.append("Deleted Codex job ");
            s.append(id.as_str());
            s
        },
    }
}

/// Result lines of the issue commands.
#[derive(Debug)]
pub enum IssueLine {
    Created { id: String, number: u64 },
    Updated { id: String },
    MarkedRead { id: String },
    MessagePosted { id: String },
    MessageUpdated { id: String },
    Reacted { emoji: String, id: String },
    ReactionRemoved { emoji: String, id: String },
    NoReaction { emoji: String, id: String },
    Resolved { id: String },
    Unresolved { id: String },
}

/// The text of a [`IssueLine`].
pub open spec fn issue_line_text(l: IssueLine) -> Seq<char> {
    match l {
        IssueLine::Created { id, number } => "Issue created: "@ + id@ + " (#"@ + dec(number as nat) + ")"@,
        IssueLine::Updated { id } => "Issue updated: "@ + id@,
        IssueLine::MarkedRead { id } => "Issue "@ + id@ + " marked as read"@,
        IssueLine::MessagePosted { id } => "Message posted: "@ + id@,
        IssueLine::MessageUpdated { id } => "Message updated: "@ + id@,
        IssueLine::Reacted { emoji, id } => "Reacted "@ + emoji@ + " on message "@ + id@,
        IssueLine::ReactionRemoved { emoji, id } => "Removed "@ + emoji@ + " reaction from message "@ + id@,
        IssueLine::NoReaction { emoji, id } => "No reactions with "@ + emoji@ + " on message "@ + id@ + "."@,
        IssueLine::Resolved { id } => "Issue "@ + id@ + " resolved"@,
        IssueLine::Unresolved { id } => "Issue "@ + id@ + " unresolved"@,
    }
}

pub fn issue_line(l: &IssueLine) -> (r: String)
    ensures
        r@ == issue_line_text(*l),
{
    match l {
        IssueLine::Created { id, number } => {
            let mut s = String::new();
            s.append("Issue created: ");
            s.append(id.as_str());
            s.append(" (#");
            let t = u64_text(*number);
            s.append(t.as_str());
            s.append(")");
            s
        },
        IssueLine::Updated { id } => {
            let mut s = String::new();
            s.append("Issue updated: ");
            s.append(id.as_str());
            s
        },
        IssueLine::MarkedRead { id } => {
            let mut s = String::new();
            s.append("Issue ");
            s.append(id.as_str());
            s.append(" marked as read");
            s
        },
        IssueLine::MessagePosted { id } => {
            let mut s = String::new();
            s.append("Message posted: ");
            s.append(id.as_str());
            s
        },
        IssueLine::MessageUpdated { id } => {
            let mut s = String::new();
            s.append("Message updated: ");
            s.append(id.as_str());
            s
        },
        IssueLine::Reacted { emoji, id } => {
            let mut s = String::new();
            s.append("Reacted ");
            s.append(emoji.as_str());
            s.append(" on message ");
            s.append(id.as_str());
            s
        },
        IssueLine::ReactionRemoved { emoji, id } => {
            let mut s = String::new();
            s.append("Removed ");
            s.append(emoji.as_str());
            s.append(" reaction from message ");
            s.append(id.as_str());
            s
        },
        IssueLine::NoReaction { emoji, id } => {
            let mut s = String::new();
            s.append("No reactions with ");
            s.append(emoji.as_str());
            s.append(" on message ");
            s.append(id.as_str());
            s.append(".");
            s
        },
        IssueLine::Resolved { id } => {
            let mut s = String::new();
            s.append("Issue ");
            s.append(id.as_str());
            s.append(" resolved");
            s
        },
        IssueLine::Unresolved { id } => {
            let mut s = String::new();
            s.append("Issue ");
            s.append(id.as_str());
            s.append(" unresolved");
            s
        },
    }
}

/// Result lines of the comment commands.
#[derive(Debug)]
pub enum CommentLine {
    Created { id: String },
    Updated { id: String },
    Deleted { id: String },
    Resolved { id: String },
    Unresolved { id: String },
    Reacted { emoji: String, id: String },
    NoReaction { emoji: String, id: String },
    AttachmentDeleted { attachment_id: String },
}

/// The text of a [`CommentLine`].
pub open spec fn comment_line_text(l: CommentLine) -> Seq<char> {
    match l {
        CommentLine::Created { id } => "Comment created: "@ + id@,
        CommentLine::Updated { id } => "Comment updated: "@ + id@,
        CommentLine::Deleted { id } => "Comment "@ + id@ + " deleted"@,
        CommentLine::Resolved { id } => "Comment "@ + id@ + " resolved"@,
        CommentLine::Unresolved { id } => "Comment "@ + id@ + " unresolved"@,
        CommentLine::Reacted { emoji, id } => "Reacted "@ + emoji@ + " on comment "@ + id@,
        CommentLine::NoReaction { emoji, id } => "No reactions with "@ + emoji@ + " on comment "@ + id@ + "."@,
        CommentLine::AttachmentDeleted { attachment_id } => "Attachment "@ + attachment_id@ + " deleted"@,
    }
}

pub fn comment_line(l: &CommentLine) -> (r: String)
    ensures
        r@ == comment_line_text(*l),
{
    match l {
        CommentLine::Created { id } => {
            let mut s = String::new();
            s.append("Comment created: ");
            s.append(id.as_str());
            s
        },
        CommentLine::Updated { id } => {
            let mut s = String::new();
            s.append("Comment updated: ");
            s.append(id.as_str());
            s
        },
        CommentLine::Deleted { id } => {
            let mut s = String::new();
            s.append("Comment ");
            s.append(id.as_str());
            s.append(" deleted");
            s
        },
        CommentLine::Resolved { id } => {
            let mut s = String::new();
            s.append("Comment ");
            s.append(id.as_str());
            s.append(" resolved");
            s
        },
        CommentLine::Unresolved { id } => {
            let mut s = String::new();
            s.append("Comment ");
            s.append(id.as_str());
            s.append(" unresolved");
            s
        },
        CommentLine::Reacted { emoji, id } => {
            let mut s = String::new();
            s.append("Reacted ");
            s.append(emoji.as_str());
            s.append(" on comment ");
            s.append(id.as_str());
            s
        },
        CommentLine::NoReaction { emoji, id } => {
            let mut s = String::new();
            s.append("No reactions with ");
            s.append(emoji.as_str());
            s.append(" on comment ");
            s.append(id.as_str());
            s.append(".");
            s
        },
        CommentLine::AttachmentDeleted { attachment_id } => {
            let mut s = String::new();
            s.append("Attachment ");
            s.append(attachment_id.as_str());
            s.append(" deleted");
            s
        },
    }
}

/// Result lines of the room commands (`label` is the room's `room_label`).
#[derive(Debug)]
pub enum RoomLine {
    DmCreated { id: String },
    GroupCreated { label: String, id: String },
    Renamed { id: String, name: String },
    Deleted { id: String },
    Left { id: String },
    MemberRemoved { member_id: String, id: String },
    Joined { label: String, id: String },
    IconUpdated { id: String },
    IconRemoved { id: String },
    MarkedRead { id: String },
}

/// The text of a [`RoomLine`].
pub open spec fn room_line_text(l: RoomLine) -> Seq<char> {
    match l {
        RoomLine::DmCreated { id } => "DM room created: "@ + id@,
        RoomLine::GroupCreated { label, id } => "Group created: "@ + label@ + " ("@ + id@ + ")"@,
        RoomLine::Renamed { id, name } => "Room "@ + id@ + " renamed to "@ + name@,
        RoomLine::Deleted { id } => "Room "@ + id@ + " deleted"@,
        RoomLine::Left { id } => "Left room "@ + id@,
        RoomLine::MemberRemoved { member_id, id } => "Removed member "@ + member_id@ + " from room "@ + id@,
        RoomLine::Joined { label, id } => "Joined room "@ + label@ + " ("@ + id@ + ")"@,
        RoomLine::IconUpdated { id } => "Room "@ + id@ + " icon updated"@,
        RoomLine::IconRemoved { id } => "Room "@ + id@ + " icon removed"@,
        RoomLine::MarkedRead { id } => "Room "@ + id@ + " marked as read"@,
    }
}

pub fn room_line(l: &RoomLine) -> (r: String)
    ensures
        r@ == room_line_text(*l),
{
    match l {
        RoomLine::DmCreated { id } => {
            let mut s = String::new();
            s.append("DM room created: ");
            s.append(id.as_str());
            s
        },
        RoomLine::GroupCreated { label, id } => {
            let mut s = String::new();
            s.append("Group created: ");
            s.append(label.as_str());
            s.append(" (");
            s.append(id.as_str());
            s.append(")");
            s
        },
        RoomLine::Renamed { id, name } => {
            let mut s = String::new();
            s.append("Room ");
            s.append(id.as_str());
            s.append(" renamed to ");
            s.append(name.as_str());
            s
        },
        RoomLine::Deleted { id } => {
            let mut s = String::new();
            s.append("Room ");
            s.append(id.as_str());
            s.append(" deleted");
            s
        },
        RoomLine::Left { id } => {
            let mut s = String::new();
            s.append("Left room ");
            s.append(id.as_str());
            s
        },
        RoomLine::MemberRemoved { member_id, id } => {
            let mut s = String::new();
            s.append("Removed member ");
            s.append(member_id.as_str());
            s.append(" from room ");
            s.append(id.as_str());
            s
        },
        RoomLine::Joined { label, id } => {
            let mut s = String::new();
            s.append("Joined room ");
            s.append(label.as_str());
            s.append(" (");
            s.append(id.as_str());
            s.append(")");
            s
        },
        RoomLine::IconUpdated { id } => {
            let mut s = String::new();
            s.append("Room ");
            s.append(id.as_str());
            s.append(" icon updated");
            s
        },
        RoomLine::IconRemoved { id } => {
            let mut s = String::new();
            s.append("Room ");
            s.append(id.as_str());
            s.append(" icon removed");
            s
        },
        RoomLine::MarkedRead { id } => {
            let mut s = String::new();
            s.append("Room ");
            s.append(id.as_str());
            s.append(" marked as read");
            s
        },
    }
}

/// Result lines of the skill, resource and tool commands.
#[derive(Debug)]
pub enum SkillLine {
    SkillCreated { id: String, name: String },
    SkillUpdated { id: String, name: String },
    SkillDeleted { id: String },
    ResourceCreated { id: String, name: String },
    ResourceUpdated { id: String, name: String },
    ResourceDeleted { id: String },
    ToolDeleted { id: String },
}

/// The text of a [`SkillLine`].
pub open spec fn skill_line_text(l: SkillLine) -> Seq<char> {
    match l {
        SkillLine::SkillCreated { id, name } => "Created skill "@ + id@ + " — "@ + name@,
        SkillLine::SkillUpdated { id, name } => "Updated skill "@ + id@ + " — "@ + name@,
        SkillLine::SkillDeleted { id } => "Deleted skill "@ + id@,
        SkillLine::ResourceCreated { id, name } => "Created resource "@ + id@ + " — "@ + name@,
        SkillLine::ResourceUpdated { id, name } => "Updated resource "@ + id@ + " — "@ + name@,
        SkillLine::ResourceDeleted { id } => "Deleted resource "@ + id@,
        SkillLine::ToolDeleted { id } => "Deleted tool "@ + id@,
    }
}

pub fn skill_line(l: &SkillLine) -> (r: String)
    ensures
        r@ == skill_line_text(*l),
{
    match l {
        SkillLine::SkillCreated { id, name } => {
            let mut s = String::new();
            s.append("Created skill ");
            s.append(id.as_str());
            s.append(" — ");
            s.append(name.as_str());
            s
        },
        SkillLine::SkillUpdated { id, name } => {
            let mut s = String::new();
            s.append("Updated skill ");
            s.append(id.as_str());
            s.append(" — ");
            s.append(name.as_str());
            s
        },
        SkillLine::SkillDeleted { id } => {
            let mut s = String::new();
            s.append("Deleted skill ");
            s.append(id.as_str());
            s
        },
        SkillLine::ResourceCreated { id, name } => {
            let mut s = String::new();
            s.append("Created resource ");
            s.append(id.as_str());
            s.append(" — ");
            s.append(name.as_str());
            s
        },
        SkillLine::ResourceUpdated { id, name } => {
            let mut s = String::new();
            s.append("Updated resource ");
            s.append(id.as_str());
            s.append(" — ");
            s.append(name.as_str());
            s
        },
        SkillLine::ResourceDeleted { id } => {
            let mut s = String::new();
            s.append("Deleted resource ");
            s.append(id.as_str());
            s
        },
        SkillLine::ToolDeleted { id } => {
            let mut s = String::new();
            s.append("Deleted tool ");
            s.append(id.as_str());
            s
        },
    }
}

/// Result lines of the thread commands.
#[derive(Debug)]
pub enum ThreadLine {
    Deleted { id: String },
    RunCancelled { id: String },
    ShareRevoked { id: String },
}

/// The text of a [`ThreadLine`].
pub open spec fn thread_line_text(l: ThreadLine) -> Seq<char> {
    match l {
        ThreadLine::Deleted { id } => "Thread "@ + id@ + " deleted"@,
        ThreadLine::RunCancelled { id } => "Thread "@ + id@ + " run cancelled"@,
        ThreadLine::ShareRevoked { id } => "Share link revoked for thread "@ + id@,
    }
}

pub fn thread_line(l: &ThreadLine) -> (r: String)
    ensures
        r@ == thread_line_text(*l),
{
    match l {
        ThreadLine::Deleted { id } => {
            let mut s = String::new();
            s.append("Thread ");
            s.append(id.as_str());
            s.append(" deleted");
            s
        },
        ThreadLine::RunCancelled { id } => {
            let mut s = String::new();
            s.append("Thread ");
            s.append(id.as_str());
            s.append(" run cancelled");
            s
        },
        ThreadLine::ShareRevoked { id } => {
            let mut s = String::new();
            s.append("Share link revoked for thread ");
            s.append(id.as_str());
            s
        },
    }
}

/// Result lines of the organization commands.
#[derive(Debug)]
pub enum OrgLine {
    Renamed { id: String, name: String },
    Deleted { id: String },
}

/// The text of a [`OrgLine`].
pub open spec fn org_line_text(l: OrgLine) -> Seq<char> {
    match l {
        OrgLine::Renamed { id, name } => "Organization "@ + id@ + " renamed to "@ + name@,
        OrgLine::Deleted { id } => "Organization "@ + id@ + " deleted"@,
    }
}

pub fn org_line(l: &OrgLine) -> (r: String)
    ensures
        r@ == org_line_text(*l),
{
    match l {
        OrgLine::Renamed { id, name } => {
            let mut s = String::new();
            s.append("Organization ");
            s.append(id.as_str());
            s.append(" renamed to ");
            s.append(name.as_str());
            s
        },
        OrgLine::Deleted { id } => {
            let mut s = String::new();
            s.append("Organization ");
            s.append(id.as_str());
            s.append(" deleted");
            s
        },
    }
}

/// The `[y/N]` questions of the `--force`-gated commands.
#[derive(Debug)]
pub enum ConfirmPrompt {
    DeleteThread { id: String },
    RevertTrace { id: String },
    RevokeShare { id: String },
    DeleteOrganization { id: String },
    DeleteTool { id: String },
    DeleteSkill { id: String },
    DeleteResource { id: String },
    DeleteComment { id: String },
    CloseCodexJob { id: String },
    DeleteCodexJob { id: String },
    DeleteGroupRoom { id: String },
    LeaveRoom { id: String },
    RemoveRoomIcon { id: String },
    DeleteMeetingBotJob { id: String },
    DeleteMinute { id: String },
}

/// The text of a [`ConfirmPrompt`].
pub open spec fn confirm_prompt_text(l: ConfirmPrompt) -> Seq<char> {
    match l {
        ConfirmPrompt::DeleteThread { id } => "Delete thread "@ + id@ + "?"@,
        ConfirmPrompt::RevertTrace { id } => "Revert trace "@ + id@ + "?"@,
        ConfirmPrompt::RevokeShare { id } => "Revoke share link for thread "@ + id@ + "?"@,
        ConfirmPrompt::DeleteOrganization { id } => "Delete organization "@ + id@ + "?"@,
        ConfirmPrompt::DeleteTool { id } => "Delete tool "@ + id@ + "?"@,
        ConfirmPrompt::DeleteSkill { id } => "Delete skill "@ + id@ + "?"@,
        ConfirmPrompt::DeleteResource { id } => "Delete resource "@ + id@ + "?"@,
        ConfirmPrompt::DeleteComment { id } => "Delete comment "@ + id@ + "?"@,
        ConfirmPrompt::CloseCodexJob { id } => "Close Codex job "@ + id@ + "? (ends its session)"@,
        ConfirmPrompt::DeleteCodexJob { id } => "Delete Codex job "@ + id@ + "?"@,
        ConfirmPrompt::DeleteGroupRoom { id } => "Delete group room "@ + id@ + "?"@,
        ConfirmPrompt::LeaveRoom { id } => "Leave room "@ + id@ + "?"@,
        ConfirmPrompt::RemoveRoomIcon { id } => "Remove room "@ + id@ + "'s icon?"@,
        ConfirmPrompt::DeleteMeetingBotJob { id } => "Delete meeting-bot job "@ + id@ + "?"@,
        ConfirmPrompt::DeleteMinute { id } => "Delete minute "@ + id@ + "?"@,
    }
}

pub fn confirm_prompt(l: &ConfirmPrompt) -> (r: String)
    ensures
        r@ == confirm_prompt_text(*l),
{
    match l {
        ConfirmPrompt::DeleteThread { id } => {
            let mut s = String::new();
            s.append("Delete thread ");
            s.append(id.as_str());
            s.append("?");
            s
        },
        ConfirmPrompt::RevertTrace { id } => {
            let mut s = String::new();
            s.append("Revert trace ");
            s.append(id.as_str());
            s.append("?");
            s
        },
        ConfirmPrompt::RevokeShare { id } => {
            let mut s = String::new();
            s.append("Revoke share link for thread ");
            s.append(id.as_str());
            s.append("?");
            s
        },
        ConfirmPrompt::DeleteOrganization { id } => {
            let mut s = String::new();
            s.append("Delete organization ");
            s.append(id.as_str());
            s.append("?");
            s
        },
        ConfirmPrompt::DeleteTool { id } => {
            let mut s = String::new();
            s.append("Delete tool ");
            s.append(id.as_str());
            s.append("?");
            s
        },
        ConfirmPrompt::DeleteSkill { id } => {
            let mut s = String::new();
            s.append("Delete skill ");
            s.append(id.as_str());
            s.append("?");
            s
        },
        ConfirmPrompt::DeleteResource { id } => {
            let mut s = String::new();
            s.append("Delete resource ");
            s.append(id.as_str());
            s.append("?");
            s
        },
        ConfirmPrompt::DeleteComment { id } => {
            let mut s = String::new();
            s.append("Delete comment ");
            s.append(id.as_str());
            s.append("?");
            s
        },
        ConfirmPrompt::CloseCodexJob { id } => {
            let mut s = String::new();
            s.append("Close Codex job ");
            s.append(id.as_str());
            s.append("? (ends its session)");
            s
        },
        ConfirmPrompt::DeleteCodexJob { id } => {
            let mut s = String::new();
            s.append("Delete Codex job ");
            s.append(id.as_str());
            s.append("?");
            s
        },
        ConfirmPrompt::DeleteGroupRoom { id } => {
            let mut s = String::new();
            s.append("Delete group room ");
            s.append(id.as_str());
            s.append("?");
            s
        },
        ConfirmPrompt::LeaveRoom { id } => {
            let mut s = String::new();
            s.append("Leave room ");
            s.append(id.as_str());
            s.append("?");
            s
        },
        ConfirmPrompt::RemoveRoomIcon { id } => {
            let mut s = String::new();
            s.append("Remove room ");
            s.append(id.as_str());
            s.append("'s icon?");
            s
        },
        ConfirmPrompt::DeleteMeetingBotJob { id } => {
            let mut s = String::new();
            s.append("Delete meeting-bot job ");
            s.append(id.as_str());
            s.append("?");
            s
        },
        ConfirmPrompt::DeleteMinute { id } => {
            let mut s = String::new();
            s.append("Delete minute ");
            s.append(id.as_str());
            s.append("?");
            s
        },
    }
}

} // verus!
