//! Meetings: recording bots, meeting notes and minutes.

use vstd::prelude::*;
use crate::text::{debug_quote, debug_quoted, dec, owned, str_eq, to_ascii_lower, u64_text};
use crate::paths::path_extension;
use crate::member::lower_extension;

verus! {

#[derive(Debug)]
pub enum MeetingCommands {
    /// Huddle voice-call read/control commands (status, recording, invitations).
    /// Live participation (join/leave/switch, LiveKit token, heartbeat,
    /// screen-share) is out of scope — see `addness meeting huddle --help`.
    Huddle {
        command: HuddleCommands,
    },
    /// Meeting Bot (Recall.ai) job management
    Bot {
        command: BotCommands,
    },
    /// Meeting-note transcription/summary/goal workflow
    Notes {
        command: NotesCommands,
    },
    /// Minutes (議事録) CRUD
    Minutes {
        command: MinutesCommands,
    },
}

#[derive(Debug)]
pub enum HuddleCommands {
    /// Show a goal's huddle status (idle/active, recording state, participants)
    Status {
        /// Objective (goal) ID the huddle is attached to
        objective_id: String,
        /// Organization ID (uses default if not specified)
        org: Option<String>,
        /// Output as JSON
        json: bool,
    },
    /// List active huddles in the subtree rooted at a goal
    ActiveSubtree {
        /// Root objective (goal) ID
        objective_id: String,
        /// Organization ID (uses default if not specified)
        org: Option<String>,
        /// Output as JSON
        json: bool,
    },
    /// Show the status of a specific huddle session
    SessionStatus {
        /// Objective (goal) ID the huddle is attached to
        objective_id: String,
        /// Huddle session ID
        session_id: String,
        /// Organization ID (uses default if not specified)
        org: Option<String>,
        /// Output as JSON
        json: bool,
    },
    /// Start recording an in-progress huddle
    RecordingStart {
        /// Objective (goal) ID the huddle is attached to
        objective_id: String,
        /// Transcription language (e.g. "ja", "en")
        language: Option<String>,
        /// Automatically create child goals from the recording's minutes
        create_child_goals: bool,
        /// Organization ID (uses default if not specified)
        org: Option<String>,
        /// Output as JSON
        json: bool,
    },
    /// Stop recording an in-progress huddle
    RecordingStop {
        /// Objective (goal) ID the huddle is attached to
        objective_id: String,
        /// Organization ID (uses default if not specified)
        org: Option<String>,
        /// Output as JSON
        json: bool,
    },
    /// List organization members who can be invited to a goal's huddle
    InviteableMembers {
        /// Objective (goal) ID the huddle is attached to
        objective_id: String,
        /// Page number
        page: Option<u32>,
        /// Page size
        page_size: Option<u32>,
        /// Search by member name
        query: Option<String>,
        /// Sort field
        sort_by: Option<String>,
        /// Sort direction
        sort_dir: Option<String>,
        /// Organization ID (uses default if not specified)
        org: Option<String>,
        /// Output as JSON
        json: bool,
    },
    /// Show the huddle you're currently in, if any (floating-bar state)
    Active {
        /// Organization ID (uses default if not specified)
        org: Option<String>,
        /// Output as JSON
        json: bool,
    },
    /// List in-progress huddle transcription jobs
    TranscriptionProgress {
        /// Organization ID (uses default if not specified)
        org: Option<String>,
        /// Output as JSON
        json: bool,
    },
    /// Send manual huddle invitations to organization members
    Invite {
        /// Huddle session ID
        session_id: String,
        /// Organization member ID to invite (repeatable, 1-49 total)
        member_ids: Vec<String>,
        /// Organization ID (uses default if not specified)
        org: Option<String>,
        /// Output as JSON
        json: bool,
    },
}


#[derive(Debug)]
pub enum BotCommands {
    /// List meeting-bot (Recall.ai) jobs
    List {
        /// Organization ID (uses default if not specified)
        org: Option<String>,
        /// Output as JSON
        json: bool,
    },
    /// Get a single meeting-bot job
    Get {
        /// Job ID
        id: String,
        /// Organization ID (uses default if not specified)
        org: Option<String>,
        /// Output as JSON
        json: bool,
    },
    /// Create a meeting-bot job to join and record a meeting
    Create {
        /// Video platform (e.g. "zoom", "google_meet", "teams")
        platform: String,
        /// Meeting URL the bot should join
        meeting_url: String,
        /// Display name for the bot in the meeting
        bot_name: String,
        /// Message the bot posts in the meeting chat on join
        chat_join_message: Option<String>,
        /// Organization ID (uses default if not specified)
        org: Option<String>,
        /// Output as JSON
        json: bool,
    },
    /// Delete (cancel) a meeting-bot job
    Delete {
        /// Job ID
        id: String,
        /// Organization ID (uses default if not specified)
        org: Option<String>,
        /// Skip the confirmation prompt
        force: bool,
        /// Output as JSON
        json: bool,
    },
}

#[derive(Debug)]
pub enum NotesCommands {
    /// Transcribe a local audio recording (webm/mp4/m4a/mp3/wav/flac, 10KB-5MB)
    Transcribe {
        /// Path to the local audio file
        file: String,
        /// Output as JSON
        json: bool,
    },
    /// Summarize a transcript into meeting minutes
    Summarize {
        /// Raw transcript text
        transcript: String,
        /// Output as JSON
        json: bool,
    },
    /// Post minutes to a goal as a comment and/or deliverable
    PostMinutes {
        /// Objective (goal) ID to post to
        objective_id: String,
        /// Existing minute ID to link (omit to post ad-hoc minutes/transcript)
        minute_id: Option<String>,
        /// Minutes text (required unless --minute-id is given)
        minutes: Option<String>,
        /// Transcript text (required unless --minute-id is given)
        transcript: Option<String>,
        /// Where to post: comment, deliverable, or both
        post_type: MeetingNotePostType,
        /// Organization ID (uses default if not specified)
        org: Option<String>,
        /// Output as JSON
        json: bool,
    },
    /// Suggest candidate goals from meeting minutes
    SuggestGoals {
        /// Objective (goal) ID to attach suggestions to
        objective_id: String,
        /// Minutes text (max 10000 chars)
        minutes: String,
        /// Output as JSON
        json: bool,
    },
    /// Create goals (1-7) from meeting minutes
    CreateGoals {
        /// Parent objective (goal) ID
        objective_id: String,
        /// Raw JSON array of goals: `[{"title":"...","description":"..."}]`
        goals_json: String,
        /// Output as JSON
        json: bool,
    },
}

#[derive(Debug)]
pub enum MinutesCommands {
    /// Create a minute record
    Create {
        /// Objective (goal) ID the minute belongs to
        objective_id: Option<String>,
        /// Zoom job ID (required when --source-type zoom)
        zoom_job_id: Option<String>,
        /// Source of the minute
        source_type: MinuteSourceType,
        /// Title (max 200 chars)
        title: String,
        /// Summary (max 10000 chars)
        summary: String,
        /// Transcript (max 50000 chars)
        transcript: Option<String>,
        /// Organization ID (uses default if not specified)
        org: Option<String>,
        /// Output as JSON
        json: bool,
    },
    /// List minutes
    List {
        /// Filter by objective (goal) ID
        objective_id: Option<String>,
        /// Filter by source type
        source_type: Option<MinuteSourceType>,
        /// Only show minutes not yet linked to a goal
        only_unlinked: bool,
        /// Organization ID (uses default if not specified)
        org: Option<String>,
        /// Output as JSON
        json: bool,
    },
    /// Get a single minute (with full transcript)
    Get {
        /// Minute ID
        id: String,
        /// Organization ID (uses default if not specified)
        org: Option<String>,
        /// Output as JSON
        json: bool,
    },
    /// Update a minute (partial update)
    Update {
        /// Minute ID
        id: String,
        /// New title
        title: Option<String>,
        /// New summary
        summary: Option<String>,
        /// New transcript
        transcript: Option<String>,
        /// Re-link to a different objective (goal) ID
        objective_id: Option<String>,
        /// Organization ID (uses default if not specified)
        org: Option<String>,
        /// Output as JSON
        json: bool,
    },
    /// Delete a minute
    Delete {
        /// Minute ID
        id: String,
        /// Organization ID (uses default if not specified)
        org: Option<String>,
        /// Skip the confirmation prompt
        force: bool,
        /// Output as JSON
        json: bool,
    },
}

/// Where meeting-note minutes are posted.
#[derive(Clone, Copy, Debug, PartialEq, Eq)]
pub enum MeetingNotePostType {
    Comment,
    Deliverable,
    Both,
}

/// Where a minute came from.
#[derive(Clone, Copy, Debug, PartialEq, Eq)]
pub enum MinuteSourceType {
    Recording,
    Zoom,
}

/// The value the backend expects for a minute source.
pub open spec fn minute_source_value(source_type: MinuteSourceType) -> Seq<char> {
    match source_type {
        MinuteSourceType::Recording => "recording"@,
        MinuteSourceType::Zoom => "zoom"@,
    }
}

pub fn minute_source_type_as_str(source_type: MinuteSourceType) -> (r: &'static str)
    ensures
        r@ == minute_source_value(source_type),
{
    match source_type {
        MinuteSourceType::Recording => "recording",
        MinuteSourceType::Zoom => "zoom",
    }
}

/// The MIME type for an audio extension, or the error for an unsupported one.
pub open spec fn guess_meeting_audio_content_type_for(ext: Option<Seq<char>>) -> Result<Seq<char>, Seq<char>> {
    match ext {
        Some(e) => if e == "webm"@ {
            Ok("audio/webm"@)
        } else if e == "mp4"@ {
            Ok("audio/mp4"@)
        } else if e == "m4a"@ {
            Ok("audio/x-m4a"@)
        } else if e == "mp3"@ {
            Ok("audio/mpeg"@)
        } else if e == "wav"@ {
            Ok("audio/wav"@)
        } else if e == "flac"@ {
            Ok("audio/flac"@)
        } else {
            Err("Unsupported file extension "@ + debug_quoted(e) + ". Meeting-note transcription only accepts webm/mp4/m4a/mp3/wav/flac audio."@)
        },
        None => Err("Unsupported file extension "@ + debug_quoted("(none)"@) + ". Meeting-note transcription only accepts webm/mp4/m4a/mp3/wav/flac audio."@),
    }
}

/// The MIME type of a meeting recording to transcribe, from its extension.
pub fn guess_meeting_audio_content_type(path: &str) -> (r: Result<String, String>)
    ensures
        match guess_meeting_audio_content_type_for(lower_extension(path@)) {
            Ok(t) => r matches Ok(x) && x@ == t,
            Err(m) => r matches Err(x) && x@ == m,
        },
{
    match path_extension(path) {
        Some(e) => {
            let l = to_ascii_lower(e.as_str());
            let x = l.as_str();
            if str_eq(x, "webm") {
                Ok(owned("audio/webm"))
            } else if str_eq(x, "mp4") {
                Ok(owned("audio/mp4"))
            } else if str_eq(x, "m4a") {
                Ok(owned("audio/x-m4a"))
            } else if str_eq(x, "mp3") {
                Ok(owned("audio/mpeg"))
            } else if str_eq(x, "wav") {
                Ok(owned("audio/wav"))
            } else if str_eq(x, "flac") {
                Ok(owned("audio/flac"))
            } else {
                let mut m = owned("Unsupported file extension ");
                m.append(debug_quote(x).as_str());
                m.append(". Meeting-note transcription only accepts webm/mp4/m4a/mp3/wav/flac audio.");
                Err(m)
            }
        },
        None => {
            let mut m = owned("Unsupported file extension ");
            m.append(debug_quote("(none)").as_str());
            m.append(". Meeting-note transcription only accepts webm/mp4/m4a/mp3/wav/flac audio.");
            Err(m)
        },
    }
}

// ---------------------------------------------------------------------------
// Checks on meeting-note and minute flags
// ---------------------------------------------------------------------------

/// `notes post-minutes` needs an existing minute or the minutes or
/// transcript text to post.
pub fn ensure_minutes_source(
    minute_id: &Option<String>,
    minutes: &Option<String>,
    transcript: &Option<String>,
) -> (r: Result<(), String>)
    ensures
        r is Ok <==> !(minute_id is None && minutes is None && transcript is None),
        r matches Err(e) ==> e@ == "--minute-id, or --minutes/--transcript, is required"@,
{
    if minute_id.is_none() && minutes.is_none() && transcript.is_none() {
        return Err(owned("--minute-id, or --minutes/--transcript, is required"));
    }
    Ok(())
}

/// The most goals `notes create-goals` creates at once.
pub const MAX_MEETING_NOTE_GOALS: usize = 7;

/// `notes create-goals` creates between 1 and 7 goals.
pub fn ensure_goal_count(count: usize) -> (r: Result<(), String>)
    ensures
        r is Ok <==> 1 <= count <= MAX_MEETING_NOTE_GOALS,
        r matches Err(e) ==> e@ == "--goals-json must contain between 1 and 7 goals (got "@ + dec(
            count as nat,
        ) + ")"@,
{
    if count == 0 || count > MAX_MEETING_NOTE_GOALS {
        let mut e = owned("--goals-json must contain between 1 and 7 goals (got ");
        let n = u64_text(count as u64);
        e.append(n.as_str());
        e.append(")");
        return Err(e);
    }
    Ok(())
}

/// A minute from Zoom needs the Zoom job it came from.
pub fn ensure_zoom_job(source_type: MinuteSourceType, zoom_job_id: &Option<String>) -> (r: Result<
    (),
    String,
>)
    ensures
        r is Ok <==> !(source_type is Zoom && zoom_job_id is None),
        r matches Err(e) ==> e@ == "--zoom-job-id is required when --source-type zoom"@,
{
    match source_type {
        MinuteSourceType::Zoom => {
            if zoom_job_id.is_none() {
                return Err(owned("--zoom-job-id is required when --source-type zoom"));
            }
            Ok(())
        },
        MinuteSourceType::Recording => Ok(()),
    }
}

/// `minutes update` changes at least one field.
pub fn ensure_minute_update(
    title: &Option<String>,
    summary: &Option<String>,
    transcript: &Option<String>,
    objective_id: &Option<String>,
) -> (r: Result<(), String>)
    ensures
        r is Ok <==> !(title is None && summary is None && transcript is None
            && objective_id is None),
        r matches Err(e) ==> e@
            == "At least one of --title/--summary/--transcript/--objective-id is required"@,
{
    if title.is_none() && summary.is_none() && transcript.is_none() && objective_id.is_none() {
        return Err(
            owned("At least one of --title/--summary/--transcript/--objective-id is required"),
        );
    }
    Ok(())
}

} // verus!
