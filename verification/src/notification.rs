//! Notifications: message bodies, the terminal notification sequence, and
//! subscription settings.

use vstd::prelude::*;
use crate::text::{
    blank, char_count, chars_of, collapse_chars, collapse_ws, csv_items, csv_split, is_blank,
    is_control, is_control_char, owned, string_from_range, trim, trim_bounds, truncate_chars_with_ellipsis,
    truncate_ellipsis, views, all_chars, collapse_keeps_char_property, truncated_text_fits,
    collapse_is_idempotent, collapse_is_single_spaced, single_spaced,
};
use crate::activity::flatten_csv;

verus! {

#[derive(Clone, Copy, Debug, PartialEq, Eq)]
pub enum NotificationKind {
    /// General notification
    Info,
    /// Work completed
    Done,
    /// Human review or confirmation needed
    Review,
    /// Work is blocked
    Blocked,
}

#[derive(Debug)]
pub enum NotificationCommands {
    /// Send a Codex work notification via a goal comment and terminal notice
    Send {
        /// Goal ID. Defaults to ADDNESS_GOAL_ID when running from the TUI codex pane.
        goal: Option<String>,
        /// Notification kind
        kind: NotificationKind,
        /// Notification body
        body: Option<String>,
        /// Read notification body from a file. Use '-' to read stdin.
        body_file: Option<String>,
        /// Parent comment ID for a thread reply notification
        parent: Option<String>,
        /// Mention member IDs (UUID), repeatable. Mentioned users get targeted notifications.
        mention: Vec<String>,
        /// Output as JSON
        json: bool,
    },
    /// List your notifications
    List {
        /// Organization ID (uses default if not specified)
        org: Option<String>,
        /// Max notifications to return (1-100, default 20)
        limit: Option<u16>,
        /// Pagination offset
        offset: Option<u64>,
        /// Only show unread notifications
        unread_only: bool,
        /// Only show already-read notifications
        read_only: bool,
        /// Filter by goal ID (objective)
        goal: Option<String>,
        /// Filter by category (mention, comment, reply, reaction, assignment, goal, ai).
        /// Comma-separated or repeatable.
        category: Vec<String>,
        /// Sort order: asc (oldest first) or desc (newest first, default)
        sort: Option<String>,
        /// Output as JSON
        json: bool,
    },
    /// Show unread notification counts (overall and by category)
    Count {
        /// Organization ID (uses default if not specified)
        org: Option<String>,
        /// Filter by category. Comma-separated or repeatable.
        category: Vec<String>,
        /// Output as JSON
        json: bool,
    },
    /// Show unread notification counts grouped by goal
    CountsByGoal {
        /// Organization ID (uses default if not specified)
        org: Option<String>,
        /// Output as JSON
        json: bool,
    },
    /// Mark specific notifications as read
    MarkRead {
        /// Organization ID (uses default if not specified)
        org: Option<String>,
        /// Comma-separated notification IDs to mark as read
        ids: String,
        /// Output as JSON
        json: bool,
    },
    /// Mark specific notifications as unread
    MarkUnread {
        /// Organization ID (uses default if not specified)
        org: Option<String>,
        /// Comma-separated notification IDs to mark as unread
        ids: String,
        /// Output as JSON
        json: bool,
    },
    /// Mark all notifications as read
    MarkAllRead {
        /// Organization ID (uses default if not specified)
        org: Option<String>,
        /// Output as JSON
        json: bool,
    },
    /// Manage notification subscription channels (Slack/Email/LINE/Discord)
    Subscription {
        command: SubscriptionCommands,
    },
}

/// Notification delivery channel for `notification subscription` settings.
#[derive(Clone, Copy, Debug, PartialEq, Eq)]
pub enum NotificationProvider {
    Slack,
    Email,
    Line,
    Discord,
}

#[derive(Debug)]
pub enum SubscriptionCommands {
    /// List your notification subscription settings
    List {
        /// Output as JSON
        json: bool,
    },
    /// Add a new subscription channel (active by default)
    Add {
        /// Delivery channel
        provider: NotificationProvider,
        /// Email address (required for --provider email while active)
        email: Option<String>,
        /// Create the setting disabled instead of active
        inactive: bool,
        /// Output as JSON
        json: bool,
    },
    /// Update an existing subscription setting
    Update {
        /// Notification setting ID
        id: String,
        /// Delivery channel
        provider: NotificationProvider,
        /// Email address (required for --provider email while active)
        email: Option<String>,
        /// Disable the setting instead of activating it
        inactive: bool,
        /// Output as JSON
        json: bool,
    },
    /// List email addresses registered as notification destinations
    EmailDestinations {
        /// Output as JSON
        json: bool,
    },
}

impl NotificationKind {
    /// The value the backend expects for this kind.
    pub open spec fn backend_value(self) -> Seq<char> {
        match self {
            NotificationKind::Info => "info"@,
            NotificationKind::Done => "done"@,
            NotificationKind::Review => "review"@,
            NotificationKind::Blocked => "blocked"@,
        }
    }

    pub fn as_str(self) -> (r: &'static str)
        ensures
            r@ == self.backend_value(),
    {
        match self {
            NotificationKind::Info => "info",
            NotificationKind::Done => "done",
            NotificationKind::Review => "review",
            NotificationKind::Blocked => "blocked",
        }
    }

    /// The heading put in front of the body for this kind (none for `info`).
    pub open spec fn heading_text(self) -> Option<Seq<char>> {
        match self {
            NotificationKind::Info => None,
            NotificationKind::Done => Some("作業完了通知"@),
            NotificationKind::Review => Some("確認依頼通知"@),
            NotificationKind::Blocked => Some("ブロック通知"@),
        }
    }

    pub fn heading(self) -> (r: Option<&'static str>)
        ensures
            match r {
                Some(h) => self.heading_text() == Some(h@),
                None => self.heading_text() is None,
            },
    {
        match self {
            NotificationKind::Info => None,
            NotificationKind::Done => Some("作業完了通知"),
            NotificationKind::Review => Some("確認依頼通知"),
            NotificationKind::Blocked => Some("ブロック通知"),
        }
    }
}

impl NotificationProvider {
    /// The value the backend expects for this provider.
    pub open spec fn backend_value(self) -> Seq<char> {
        match self {
            NotificationProvider::Slack => "slack"@,
            NotificationProvider::Email => "email"@,
            NotificationProvider::Line => "line"@,
            NotificationProvider::Discord => "discord"@,
        }
    }

    pub fn as_str(self) -> (r: &'static str)
        ensures
            r@ == self.backend_value(),
    {
        match self {
            NotificationProvider::Slack => "slack",
            NotificationProvider::Email => "email",
            NotificationProvider::Line => "line",
            NotificationProvider::Discord => "discord",
        }
    }
}

/// A notification setting to save for a delivery channel.
#[derive(Debug)]
pub struct NotificationSettingRequest {
    pub provider: String,
    pub active: bool,
    pub email: Option<String>,
}

/// Validates a notification body: not blank and at most 10000 characters.
pub fn ensure_body(content: String) -> (r: Result<String, String>)
    ensures
        r is Ok <==> !is_blank(content@) && content@.len() <= 10_000,
        r matches Ok(c) ==> c == content,
        r matches Err(e) ==> e@ == (if is_blank(content@) {
            "Notification body is empty. Specify --body, --body-file, or pipe content with --body -."@
        } else {
            "Notification body must be 10000 characters or less."@
        }),
{
    if blank(content.as_str()) {
        return Err(owned("Notification body is empty. Specify --body, --body-file, or pipe content with --body -."));
    }
    if char_count(content.as_str()) > 10_000 {
        return Err(owned("Notification body must be 10000 characters or less."));
    }
    Ok(content)
}

/// The trimmed body, preceded by `【heading】` and a line feed for kinds
/// that have a heading.
pub open spec fn notification_content(kind: NotificationKind, body: Seq<char>) -> Seq<char> {
    match kind.heading_text() {
        Some(h) => "【"@ + h + "】\n"@ + trim(body),
        None => trim(body),
    }
}

/// The notification text for `kind`; fails when it exceeds 10000
/// characters once the heading is added.
pub fn format_notification_body(kind: NotificationKind, body: &str) -> (r: Result<String, String>)
    ensures
        notification_content(kind, body@).len() <= 10_000 ==> (r matches Ok(c) && c@
            == notification_content(kind, body@)),
        notification_content(kind, body@).len() > 10_000 ==> (r matches Err(e) && e@
            == "Notification body must be 10000 characters or less after adding the kind heading."@),
{
    let v = chars_of(body);
    let (lo, hi) = trim_bounds(&v);
    let trimmed = string_from_range(&v, lo, hi);
    let content = match kind.heading() {
        Some(heading) => {
            let mut c = owned("【");
            c.append(heading);
            c.append("】\n");
            c.append(trimmed.as_str());
            c
        },
        None => trimmed,
    };
    if char_count(content.as_str()) > 10_000 {
        return Err(owned("Notification body must be 10000 characters or less after adding the kind heading."));
    }
    Ok(content)
}

/// The title of the terminal notification for `kind`.
pub open spec fn terminal_title_text(kind: NotificationKind) -> Seq<char> {
    match kind.heading_text() {
        Some(h) => h,
        None => "Addness通知"@,
    }
}

pub fn terminal_title(kind: NotificationKind) -> (r: &'static str)
    ensures
        r@ == terminal_title_text(kind),
{
    match kind.heading() {
        Some(h) => h,
        None => "Addness通知",
    }
}

/// What a character becomes in a terminal notification: line breaks, tabs
/// and `;` become spaces, other control characters are dropped.
pub open spec fn terminal_char(c: char) -> Option<char> {
    if c == '\n' || c == '\r' || c == '\t' || c == ';' {
        Some(' ')
    } else if is_control(c) {
        None
    } else {
        Some(c)
    }
}

/// `s` with `terminal_char` applied to each character.
pub open spec fn terminal_chars(s: Seq<char>) -> Seq<char>
    decreases s.len(),
{
    if s.len() == 0 {
        Seq::<char>::empty()
    } else {
        match terminal_char(s.last()) {
            Some(c) => terminal_chars(s.drop_last()).push(c),
            None => terminal_chars(s.drop_last()),
        }
    }
}

/// Text safe to embed in a terminal escape sequence: mapped by
/// `terminal_char`, then its words joined by single spaces.
pub open spec fn sanitized(s: Seq<char>) -> Seq<char> {
    collapse_ws(terminal_chars(s))
}

/// The message of a terminal notification: the sanitized body, cut to 240
/// characters.
pub open spec fn terminal_message_text(body: Seq<char>) -> Seq<char> {
    truncate_ellipsis(sanitized(body), 240)
}

pub fn sanitize_terminal_notification_text(input: &str) -> (r: String)
    ensures
        r@ == sanitized(input@),
{
    let v = chars_of(input);
    let mut mapped: Vec<char> = Vec::new();
    let mut i: usize = 0;
    while i < v.len()
        invariant
            i <= v.len(),
            mapped@ == terminal_chars(v@.take(i as int)),
        decreases v.len() - i,
    {
        let c = v[i];
        assert(v@.take(i + 1).drop_last() =~= v@.take(i as int));
        assert(v@.take(i + 1).last() == c);
        if c == '\n' || c == '\r' || c == '\t' || c == ';' {
            mapped.push(' ');
        } else if !is_control_char(c) {
            mapped.push(c);
        }
        i = i + 1;
    }
    assert(v@.take(v.len() as int) =~= v@);
    collapse_chars(&mapped)
}

/// `input` itself when it has at most `max_chars` characters; otherwise its
/// first `max_chars - 3` characters followed by `...`.
pub fn truncate_chars(input: &str, max_chars: usize) -> (r: String)
    ensures
        r@ == truncate_ellipsis(input@, max_chars as int),
{
    let v = chars_of(input);
    truncate_chars_with_ellipsis(&v, max_chars)
}

pub fn terminal_message(body: &str) -> (r: String)
    ensures
        r@ == terminal_message_text(body@),
{
    let s = sanitize_terminal_notification_text(body);
    truncate_chars(s.as_str(), 240)
}

/// The escape sequence that raises a terminal notification (OSC 9 and
/// OSC 777) for `kind` and `body`; none when the message is empty, in
/// which case nothing is sent.
pub open spec fn terminal_notification_text(kind: NotificationKind, body: Seq<char>) -> Option<Seq<char>> {
    let message = terminal_message_text(body);
    if message.len() == 0 {
        None
    } else {
        Some("\u{7}\u{1b}]9;"@ + message + "\u{7}\u{1b}]777;notify;"@ + sanitized(terminal_title_text(kind))
            + ";"@ + message + "\u{7}"@)
    }
}

pub fn terminal_notification_sequence(kind: NotificationKind, body: &str) -> (r: Option<String>)
    ensures
        match r {
            Some(s) => terminal_notification_text(kind, body@) == Some(s@),
            None => terminal_notification_text(kind, body@) is None,
        },
{
    let title = terminal_title(kind);
    let message = terminal_message(body);
    if char_count(message.as_str()) == 0 {
        return None;
    }
    let title = sanitize_terminal_notification_text(title);
    let mut out = owned("\u{7}\u{1b}]9;");
    out.append(message.as_str());
    out.append("\u{7}\u{1b}]777;notify;");
    out.append(title.as_str());
    out.append(";");
    out.append(message.as_str());
    out.append("\u{7}");
    Some(out)
}

/// The goal a notification is posted to: `--goal` when given and not
/// blank, else the `ADDNESS_GOAL_ID` environment value (`env_goal`) when
/// set and not blank.
pub fn resolve_goal_id(goal: Option<&String>, env_goal: Option<String>) -> (r: Result<String, String>)
    ensures
        match (goal, env_goal) {
            (Some(g), _) if !is_blank(g@) => r matches Ok(id) && id@ == g@,
            (_, Some(e)) if !is_blank(e@) => r matches Ok(id) && id@ == e@,
            _ => r matches Err(e) && e@ == "Specify --goal <GOAL_ID> or run from an Addness TUI codex session."@,
        },
{
    if let Some(g) = goal {
        if !blank(g.as_str()) {
            return Ok(g.clone());
        }
    }
    if let Some(e) = env_goal {
        if !blank(e.as_str()) {
            return Ok(e);
        }
    }
    Err(owned("Specify --goal <GOAL_ID> or run from an Addness TUI codex session."))
}

/// Splits a comma-separated list into its trimmed, non-empty items.
pub fn split_csv(csv: &str) -> (r: Vec<String>)
    ensures
        views(r@) == csv_items(csv@),
{
    csv_split(csv)
}

/// The notification IDs of `--ids` for `mark-read` and `mark-unread`: at
/// least one is needed.
pub fn notification_ids(ids: &str) -> (r: Result<Vec<String>, String>)
    ensures
        match r {
            Ok(v) => views(v@) == csv_items(ids@) && v@.len() > 0,
            Err(e) => csv_items(ids@).len() == 0
                && e@ == "--ids must contain at least one notification ID"@,
        },
{
    let list = split_csv(ids);
    if list.len() == 0 {
        return Err(owned("--ids must contain at least one notification ID"));
    }
    Ok(list)
}

/// `--category` accepts both repeated flags and comma-separated values.
pub fn flatten_categories(raw: &[String]) -> (r: Vec<String>)
    ensures
        views(r@) == flatten_csv(views(raw@)),
{
    crate::activity::flatten_values(raw)
}

/// The read-state filter: unread only, read only, or no filter.
pub fn resolve_read_filter(unread_only: bool, read_only: bool) -> (r: Option<bool>)
    ensures
        r == (if unread_only {
            Some(false)
        } else if read_only {
            Some(true)
        } else {
            None::<bool>
        }),
{
    if unread_only {
        Some(false)
    } else if read_only {
        Some(true)
    } else {
        None
    }
}

/// The setting to save for `provider`: active unless `inactive`; an active
/// email setting needs an address.
pub fn build_notification_setting_request(
    provider: NotificationProvider,
    email: Option<&String>,
    inactive: bool,
) -> (r: Result<NotificationSettingRequest, String>)
    ensures
        (provider == NotificationProvider::Email && !inactive && email is None) ==> (r matches Err(e)
            && e@ == "--email is required when --provider email and the setting is active."@),
        !(provider == NotificationProvider::Email && !inactive && email is None) ==> (r matches Ok(req)
            && req.provider@ == provider.backend_value() && req.active == !inactive && match email {
            Some(a) => req.email matches Some(x) && x@ == a@,
            None => req.email is None,
        }),
{
    let active = !inactive;
    let is_email = match provider {
        NotificationProvider::Email => true,
        _ => false,
    };
    if is_email && active && email.is_none() {
        return Err(owned("--email is required when --provider email and the setting is active."));
    }
    let email = match email {
        Some(a) => Some(a.clone()),
        None => None,
    };
    Ok(NotificationSettingRequest { provider: owned(provider.as_str()), active, email })
}

/// Whether a character may stand in a terminal escape sequence's text.
pub open spec fn escape_safe(c: char) -> bool {
    !is_control(c) && c != ';'
}

proof fn lemma_terminal_chars_safe(s: Seq<char>)
    ensures
        all_chars(terminal_chars(s), |c: char| escape_safe(c)),
    decreases s.len(),
{
    if s.len() > 0 {
        lemma_terminal_chars_safe(s.drop_last());
        let r = terminal_chars(s.drop_last());
        if let Some(c) = terminal_char(s.last()) {
            let t = r.push(c);
            assert forall|k: int| 0 <= k < t.len() implies escape_safe(#[trigger] t[k]) by {
                if k < r.len() {
                    assert(t[k] == r[k]);
                }
            }
        }
    }
}

/// A sanitized text, and so every terminal notification message, holds no
/// control character and no `;`, so it cannot end or extend the escape
/// sequence it is embedded in; the message has at most 240 characters.
pub proof fn terminal_text_is_escape_safe(body: Seq<char>)
    ensures
        forall|k: int| 0 <= k < sanitized(body).len() ==> escape_safe(#[trigger] sanitized(body)[k]),
        forall|k: int|
            0 <= k < terminal_message_text(body).len() ==> escape_safe(
                #[trigger] terminal_message_text(body)[k],
            ),
        terminal_message_text(body).len() <= 240,
{
    let ok = |c: char| escape_safe(c);
    lemma_terminal_chars_safe(body);
    collapse_keeps_char_property(terminal_chars(body), ok);
    truncated_text_fits(sanitized(body), 240);
    let san = sanitized(body);
    assert forall|k: int| 0 <= k < san.len() implies escape_safe(#[trigger] san[k]) by {
        assert(ok(san[k]));
    }
    let m = terminal_message_text(body);
    assert forall|k: int| 0 <= k < m.len() implies escape_safe(#[trigger] m[k]) by {
        if san.len() > 240 {
            if k < 237 {
                assert(m[k] == san[k]);
            } else {
                assert(m[k] == '.');
            }
        }
    }
}

proof fn lemma_terminal_chars_keep_safe(t: Seq<char>)
    requires
        forall|k: int| 0 <= k < t.len() ==> escape_safe(#[trigger] t[k]),
    ensures
        terminal_chars(t) == t,
    decreases t.len(),
{
    if t.len() > 0 {
        let init = t.drop_last();
        assert forall|k: int| 0 <= k < init.len() implies escape_safe(#[trigger] init[k]) by {
            assert(init[k] == t[k]);
        }
        lemma_terminal_chars_keep_safe(init);
        assert(escape_safe(t[t.len() - 1]));
        assert(terminal_char(t.last()) == Some(t.last()));
        assert(init.push(t.last()) =~= t);
    }
}

/// Sanitizing a sanitized text changes nothing, and a sanitized text has
/// no whitespace at either end and never two whitespace characters in a
/// row.
pub proof fn sanitize_is_idempotent(body: Seq<char>)
    ensures
        sanitized(sanitized(body)) == sanitized(body),
        single_spaced(sanitized(body)),
{
    terminal_text_is_escape_safe(body);
    lemma_terminal_chars_keep_safe(sanitized(body));
    collapse_is_idempotent(terminal_chars(body));
    collapse_is_single_spaced(terminal_chars(body));
}

/// Each kind of notification has a heading of its own: `info` has none,
/// `done`, `review` and `blocked` have pairwise different headings (a review
/// request is headed 確認依頼通知, never as a work-completed notice), so two
/// kinds with headings never give the same notification text for one body.
pub proof fn kind_headings_are_distinct(k1: NotificationKind, k2: NotificationKind, body: Seq<char>)
    ensures
        k1.heading_text() is None <==> k1 == NotificationKind::Info,
        k1 != k2 && k1.heading_text() is Some ==> k1.heading_text() != k2.heading_text(),
        k1 != k2 && k1.heading_text() is Some && k2.heading_text() is Some ==> notification_content(
            k1,
            body,
        ) != notification_content(k2, body),
        NotificationKind::Review.heading_text() == Some("確認依頼通知"@),
{
    reveal_strlit("作業完了通知");
    reveal_strlit("確認依頼通知");
    reveal_strlit("ブロック通知");
    reveal_strlit("【");
    assert("作業完了通知"@[0] != "確認依頼通知"@[0]);
    assert("作業完了通知"@[0] != "ブロック通知"@[0]);
    assert("確認依頼通知"@[0] != "ブロック通知"@[0]);
    if k1 != k2 && k1.heading_text() is Some && k2.heading_text() is Some {
        let h1 = k1.heading_text()->0;
        let h2 = k2.heading_text()->0;
        assert(h1[0] != h2[0]);
        let c1 = notification_content(k1, body);
        let c2 = notification_content(k2, body);
        assert(c1[1] == h1[0]);
        assert(c2[1] == h2[0]);
    }
}

/// The backend tells kinds and delivery channels apart by their values:
/// two different kinds never send the same value, nor do two different
/// providers.
pub proof fn backend_values_are_distinct(
    k1: NotificationKind,
    k2: NotificationKind,
    p1: NotificationProvider,
    p2: NotificationProvider,
)
    ensures
        k1 != k2 ==> k1.backend_value() != k2.backend_value(),
        p1 != p2 ==> p1.backend_value() != p2.backend_value(),
{
    reveal_strlit("info");
    reveal_strlit("done");
    reveal_strlit("review");
    reveal_strlit("blocked");
    assert("info"@[0] != "done"@[0]);
    assert("info"@[0] != "review"@[0]);
    assert("info"@[0] != "blocked"@[0]);
    assert("done"@[0] != "review"@[0]);
    assert("done"@[0] != "blocked"@[0]);
    assert("review"@[0] != "blocked"@[0]);
    reveal_strlit("slack");
    reveal_strlit("email");
    reveal_strlit("line");
    reveal_strlit("discord");
    assert("slack"@[0] != "email"@[0]);
    assert("slack"@[0] != "line"@[0]);
    assert("slack"@[0] != "discord"@[0]);
    assert("email"@[0] != "line"@[0]);
    assert("email"@[0] != "discord"@[0]);
    assert("line"@[0] != "discord"@[0]);
}

} // verus!
