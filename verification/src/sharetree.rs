//! Shared goal trees: commands.

use vstd::prelude::*;


verus! {

#[derive(Debug)]
pub enum ShareTreeCommands {
    /// Create a portable, cloneable public export of a goal (and its subtree)
    Create {
        /// Organization ID (uses default if not specified)
        org: Option<String>,
        /// Source goal ID to export
        goal: String,
        /// Restrict the export to specific descendant goal IDs (repeatable).
        /// If omitted, the entire subtree is exported.
        select_goals: Vec<String>,
        /// Output as JSON
        json: bool,
    },
    /// Revoke a share-tree export
    Revoke {
        /// Share-tree ID
        id: String,
        /// Organization ID (uses default if not specified)
        org: Option<String>,
        /// Skip confirmation prompt
        force: bool,
    },
    /// List share-tree exports you created
    List {
        /// Organization ID (uses default if not specified)
        org: Option<String>,
        /// Output as JSON
        json: bool,
    },
    /// Clone a shared goal tree into your own organization
    Clone {
        /// Public ID of the share-tree export (from `share-tree get-public` or a share URL)
        public_id: String,
        /// Organization ID to clone into (uses default if not specified)
        org: Option<String>,
        /// Parent goal ID to attach the cloned root under (defaults to organization root)
        parent: Option<String>,
        /// Output as JSON
        json: bool,
    },
    /// Fetch a publicly shared goal tree by its public ID (no auth required)
    GetPublic {
        /// Public ID
        public_id: String,
        /// Output as JSON
        json: bool,
    },
}

} // verus!
