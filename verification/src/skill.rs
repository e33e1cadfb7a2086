//! AI skills, their resources and refinements: commands and update checks.

use vstd::prelude::*;
pub use crate::json::parse_json_object;
use crate::text::owned;

verus! {

#[derive(Debug)]
pub enum SkillCommands {
    /// Create a skill (a reusable AI prompt template with preferred tools)
    Create {
        /// Skill name
        name: String,
        /// Skill description
        description: String,
        /// Prompt template used when the skill is invoked
        prompt_template: String,
        /// Ordered thinking step (repeatable)
        thinking_step: Vec<String>,
        /// Preferred tool name/ID for this skill (repeatable)
        preferred_tool: Vec<String>,
        /// Tool execution order hint (free-form)
        tool_execution_order: Option<String>,
        /// Require user confirmation before running this skill
        requires_confirmation: bool,
        /// Raw JSON object of example input/output pairs
        examples_json: Option<String>,
        /// Organization ID (uses default if not specified)
        org: Option<String>,
        /// Output as JSON
        json: bool,
    },
    /// List skills in the organization
    List {
        /// Max number of results (default: 20)
        limit: Option<u32>,
        /// Pagination offset
        offset: Option<u32>,
        /// Organization ID (uses default if not specified)
        org: Option<String>,
        /// Output as JSON
        json: bool,
    },
    /// List general (platform-provided) skills available to the organization
    General {
        /// Max number of results (default: 20)
        limit: Option<u32>,
        /// Pagination offset
        offset: Option<u32>,
        /// Organization ID (uses default if not specified)
        org: Option<String>,
        /// Output as JSON
        json: bool,
    },
    /// Search skills by keyword
    Search {
        /// Search keyword
        query: String,
        /// Max number of results (default: 30)
        limit: Option<u32>,
        /// Organization ID (uses default if not specified)
        org: Option<String>,
        /// Output as JSON
        json: bool,
    },
    /// Get a single skill
    Get {
        /// Skill ID
        id: String,
        /// Organization ID (uses default if not specified)
        org: Option<String>,
        /// Output as JSON
        json: bool,
    },
    /// Update a skill (partial update; only creator or root owner may edit)
    Update {
        /// Skill ID
        id: String,
        /// New name
        name: Option<String>,
        /// New description
        description: Option<String>,
        /// New prompt template
        prompt_template: Option<String>,
        /// Replace the thinking steps list (repeatable; omit to leave unchanged)
        thinking_step: Vec<String>,
        /// Replace the preferred tools list (repeatable; omit to leave unchanged)
        preferred_tool: Vec<String>,
        /// New tool execution order hint
        tool_execution_order: Option<String>,
        /// Require user confirmation before running this skill
        requires_confirmation: Option<bool>,
        /// Raw JSON object of example input/output pairs
        examples_json: Option<String>,
        /// Organization ID (uses default if not specified)
        org: Option<String>,
        /// Output as JSON
        json: bool,
    },
    /// Delete a skill
    Delete {
        /// Skill ID
        id: String,
        /// Organization ID (uses default if not specified)
        org: Option<String>,
        /// Skip the confirmation prompt
        force: bool,
        /// Output as JSON
        json: bool,
    },
    /// Show usage/success-rate performance for a skill
    Performance {
        /// Skill ID
        id: String,
        /// Organization ID (uses default if not specified)
        org: Option<String>,
        /// Output as JSON
        json: bool,
    },
    /// Manage supplementary skill resources (reference text attached to a skill)
    Resource {
        command: SkillResourceCommands,
    },
    /// Accept or reject AI-suggested skill improvements
    Refinement {
        command: SkillRefinementCommands,
    },
}

#[derive(Debug)]
pub enum SkillResourceCommands {
    /// Create a skill resource
    Create {
        /// Skill ID
        skill_id: String,
        /// Resource name
        name: String,
        /// Content type (free-form, e.g. "text/markdown")
        content_type: Option<String>,
        /// Resource content
        content: String,
        /// Organization ID (uses default if not specified)
        org: Option<String>,
        /// Output as JSON
        json: bool,
    },
    /// List a skill's resources (content omitted; use `get` for full content)
    List {
        /// Skill ID
        skill_id: String,
        /// Organization ID (uses default if not specified)
        org: Option<String>,
        /// Output as JSON
        json: bool,
    },
    /// Get a single skill resource (with full content)
    Get {
        /// Skill ID
        skill_id: String,
        /// Resource ID
        resource_id: String,
        /// Organization ID (uses default if not specified)
        org: Option<String>,
        /// Output as JSON
        json: bool,
    },
    /// Update a skill resource (partial update)
    Update {
        /// Skill ID
        skill_id: String,
        /// Resource ID
        resource_id: String,
        /// New name
        name: Option<String>,
        /// New content
        content: Option<String>,
        /// Organization ID (uses default if not specified)
        org: Option<String>,
        /// Output as JSON
        json: bool,
    },
    /// Delete a skill resource
    Delete {
        /// Skill ID
        skill_id: String,
        /// Resource ID
        resource_id: String,
        /// Organization ID (uses default if not specified)
        org: Option<String>,
        /// Skip the confirmation prompt
        force: bool,
        /// Output as JSON
        json: bool,
    },
}

#[derive(Debug)]
pub enum SkillRefinementCommands {
    /// Accept an AI-suggested skill refinement (updates the skill in place)
    Accept {
        /// Refinement ID
        refinement_id: String,
        /// Organization ID (uses default if not specified)
        org: Option<String>,
        /// Output as JSON
        json: bool,
    },
    /// Reject an AI-suggested skill refinement
    Reject {
        /// Refinement ID
        refinement_id: String,
        /// Organization ID (uses default if not specified)
        org: Option<String>,
        /// Output as JSON
        json: bool,
    },
}

pub open spec fn no_update_fields_error() -> Seq<char> {
    "At least one field to update must be specified"@
}

/// `skill update`: at least one field must change.
pub fn ensure_skill_update(
    name: &Option<String>,
    description: &Option<String>,
    prompt_template: &Option<String>,
    thinking_step: &Vec<String>,
    preferred_tool: &Vec<String>,
    tool_execution_order: &Option<String>,
    requires_confirmation: Option<bool>,
    examples_json: &Option<String>,
) -> (r: Result<(), String>)
    ensures
        r is Ok <==> (name is Some || description is Some || prompt_template is Some
            || thinking_step@.len() > 0 || preferred_tool@.len() > 0 || tool_execution_order is Some
            || requires_confirmation is Some || examples_json is Some),
        r matches Err(e) ==> e@ == no_update_fields_error(),
{
    if name.is_none() && description.is_none() && prompt_template.is_none() && thinking_step.len()
        == 0 && preferred_tool.len() == 0 && tool_execution_order.is_none()
        && requires_confirmation.is_none() && examples_json.is_none() {
        return Err(owned("At least one field to update must be specified"));
    }
    Ok(())
}

/// `skill resource update`: a name or content must be given.
pub fn ensure_resource_update(name: &Option<String>, content: &Option<String>) -> (r: Result<
    (),
    String,
>)
    ensures
        r is Ok <==> (name is Some || content is Some),
        r matches Err(e) ==> e@ == "At least one of --name/--content is required"@,
{
    if name.is_none() && content.is_none() {
        return Err(owned("At least one of --name/--content is required"));
    }
    Ok(())
}

} // verus!
