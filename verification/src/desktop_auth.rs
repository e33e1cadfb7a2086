//! Desktop sign-in handoff commands.

use vstd::prelude::*;


verus! {

#[derive(Debug)]
pub enum DesktopAuthCommands {
    /// Redeem a browser desktop-auth start token into an auth intent
    Redeem {
        /// Start token from /desktop/browser-auth?start_token=...
        start_token: String,
        /// SHA-256 base64url hash of the browser nonce
        browser_nonce_hash: String,
        /// Output as JSON
        json: bool,
    },
    /// Complete a desktop-auth intent after browser authentication
    Complete {
        /// Desktop auth intent ID
        intent_id: String,
        /// Browser nonce stored during redeem
        browser_nonce: String,
        /// Output as JSON
        json: bool,
    },
}

impl DesktopAuthCommands {
    /// Whether the command prints JSON (which also skips the update check).
    pub fn outputs_json(&self) -> (b: bool)
        ensures
            b == match *self {
                DesktopAuthCommands::Redeem { json, .. } => json,
                DesktopAuthCommands::Complete { json, .. } => json,
            },
    {
        match self {
            DesktopAuthCommands::Redeem { json, .. } => *json,
            DesktopAuthCommands::Complete { json, .. } => *json,
        }
    }
}

} // verus!
