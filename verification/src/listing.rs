//! What the list commands print when a list comes back empty, and the
//! result lines of the room commands.

use vstd::prelude::*;
use crate::goal_detail::{line1, line_view, seg, SegModel, Segment};
use crate::stream_event::Style;
use crate::text::{owned, u64_text, dec};

verus! {

/// The lists whose emptiness the commands report.
#[derive(Clone, Copy, Debug, PartialEq, Eq)]
pub enum Listing {
    CodexJobs,
    Skills,
    GeneralSkills,
    MatchingSkills,
    Resources,
    ActiveHuddles,
    InviteableMembers,
    TranscriptionJobs,
    MeetingBotJobs,
    IssueReplies,
    IssueMessages,
    RoomMembers,
}

/// The note printed (dimmed) for an empty list.
pub open spec fn empty_note(kind: Listing) -> Seq<char> {
    match kind {
        Listing::CodexJobs => "No Codex jobs found."@,
        Listing::Skills => "No skills found."@,
        Listing::GeneralSkills => "No general skills found."@,
        Listing::MatchingSkills => "No matching skills found."@,
        Listing::Resources => "No resources found."@,
        Listing::ActiveHuddles => "No active huddles in this subtree."@,
        Listing::InviteableMembers => "No inviteable members found."@,
        Listing::TranscriptionJobs => "No transcription jobs in progress."@,
        Listing::MeetingBotJobs => "No meeting-bot jobs found."@,
        Listing::IssueReplies => "No replies."@,
        Listing::IssueMessages => "No messages found."@,
        Listing::RoomMembers => "No members found."@,
    }
}

pub fn empty_note_line(kind: Listing) -> (r: Vec<Segment>)
    ensures
        line_view(r) == seq![SegModel::Text { text: empty_note(kind), style: Style::Dimmed }],
{
    let text = match kind {
        Listing::CodexJobs => owned("No Codex jobs found."),
        Listing::Skills => owned("No skills found."),
        Listing::GeneralSkills => owned("No general skills found."),
        Listing::MatchingSkills => owned("No matching skills found."),
        Listing::Resources => owned("No resources found."),
        Listing::ActiveHuddles => owned("No active huddles in this subtree."),
        Listing::InviteableMembers => owned("No inviteable members found."),
        Listing::TranscriptionJobs => owned("No transcription jobs in progress."),
        Listing::MeetingBotJobs => owned("No meeting-bot jobs found."),
        Listing::IssueReplies => owned("No replies."),
        Listing::IssueMessages => owned("No messages found."),
        Listing::RoomMembers => owned("No members found."),
    };
    line1(seg(text, Style::Dimmed))
}

/// `room hide` and `room unhide` report which way the room went.
pub fn room_hidden_line(id: &str, hidden: bool) -> (r: String)
    ensures
        r@ == "Room "@ + id@ + if hidden {
            " hidden"@
        } else {
            " unhidden"@
        },
{
    let mut s = owned("Room ");
    s.append(id);
    s.append(if hidden {
        " hidden"
    } else {
        " unhidden"
    });
    s
}

/// `room invite` reports how many members it invited.
pub fn room_invite_line(count: u64, id: &str) -> (r: String)
    ensures
        r@ == "Invited "@ + dec(count as nat) + " member(s) to room "@ + id@,
{
    let mut s = owned("Invited ");
    let n = u64_text(count);
    s.append(n.as_str());
    s.append(" member(s) to room ");
    s.append(id);
    s
}

} // verus!
