//! Consent records: which consent types exist.

use vstd::prelude::*;

verus! {

/// Consent types recognized by the backend
/// (`domain/models/userconsent/consent.go` `Type` constants). Currently only
/// the two "telecommunications secrecy" disclosures exist — there is no
/// marketing/terms-of-service consent type on this endpoint.
#[derive(Clone, Copy, Debug, PartialEq, Eq)]
pub enum ConsentType {
    /// `chat_communication_secrecy_dm` — consent for admins to view your DMs
    ChatSecrecyDm,
    /// `chat_communication_secrecy_group` — consent for admins to view your group chats
    ChatSecrecyGroup,
}

#[derive(Debug)]
pub enum ConsentCommands {
    /// Show whether you have agreed to a consent type (e.g. admins viewing
    /// your DM/group chat messages). There is no `set`/`record` subcommand:
    /// the backend requires a Clerk browser session to record consent and
    /// rejects API-key auth outright, so the CLI cannot record it on your
    /// behalf — record consent from the web app instead.
    Get {
        /// Consent type to check
        consent_type: ConsentType,
        /// Output as JSON
        json: bool,
    },
}

impl ConsentType {
    /// The value the backend expects.
    pub open spec fn backend_value(self) -> Seq<char> {
        match self {
            ConsentType::ChatSecrecyDm => "chat_communication_secrecy_dm"@,
            ConsentType::ChatSecrecyGroup => "chat_communication_secrecy_group"@,
        }
    }

    pub fn as_str(self) -> (r: &'static str)
        ensures
            r@ == self.backend_value(),
    {
        match self {
            ConsentType::ChatSecrecyDm => "chat_communication_secrecy_dm",
            ConsentType::ChatSecrecyGroup => "chat_communication_secrecy_group",
        }
    }
}

} // verus!
