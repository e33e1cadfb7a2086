//! Saved credentials: the `auth` commands.

use vstd::prelude::*;


verus! {

#[derive(Debug)]
pub enum AuthCommands {
    /// Set authentication token (Clerk JWT or API Key)
    SetToken {
        /// The token to save
        token: String,
        /// API base URL (default: https://api.addness.app)
        api_url: String,
    },
    /// Show current authentication status
    Status,
    /// Remove saved credentials
    Logout,
}

} // verus!
