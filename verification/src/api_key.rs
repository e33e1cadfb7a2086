//! Personal API keys: the one-line summary used when listing them.

use vstd::prelude::*;
use crate::text::owned;

verus! {

#[derive(Debug)]
pub enum ApiKeyCommands {
    /// List your personal API keys (auto-generated MCP/CLI/Codex keys are
    /// hidden; only manually created keys are shown)
    List {
        /// Organization ID (uses default if not specified)
        org: Option<String>,
        /// Output as JSON
        json: bool,
    },
    /// Create a new API key. IMPORTANT: the plaintext key is only ever
    /// returned in this response — it cannot be retrieved again afterwards
    Create {
        /// Key name (backend defaults to "API Key (<date>)" when omitted)
        name: Option<String>,
        /// Organization ID (uses default if not specified)
        org: Option<String>,
        /// Output as JSON
        json: bool,
    },
    /// Revoke (delete) an API key
    Rm {
        /// Key ID
        id: String,
        /// Organization ID (uses default if not specified)
        org: Option<String>,
        /// Skip the confirmation prompt
        force: bool,
        /// Output as JSON
        json: bool,
    },
}

/// A personal API key as the backend lists it (the plaintext key is never
/// part of it).
#[derive(Debug)]
pub struct ApiKey {
    pub id: String,
    pub key_prefix: String,
    pub name: String,
    pub last_used_at: Option<String>,
    pub created_at: String,
    pub revoked_at: Option<String>,
}

/// `<id> [<active|revoked>] <name> (<prefix>...)`.
pub open spec fn key_line(key: ApiKey) -> Seq<char> {
    key.id@ + " ["@ + (if key.revoked_at is Some {
        "revoked"@
    } else {
        "active"@
    }) + "] "@ + key.name@ + " ("@ + key.key_prefix@ + "...)"@
}

pub fn format_key_line(key: &ApiKey) -> (r: String)
    ensures
        r@ == key_line(*key),
{
    let status = if key.revoked_at.is_some() {
        "revoked"
    } else {
        "active"
    };
    let mut r = owned(key.id.as_str());
    r.append(" [");
    r.append(status);
    r.append("] ");
    r.append(key.name.as_str());
    r.append(" (");
    r.append(key.key_prefix.as_str());
    r.append("...)");
    r
}

} // verus!
