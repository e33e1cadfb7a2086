//! Organization tools: commands and update checks.

use vstd::prelude::*;
pub use crate::json::parse_json_object;
use crate::goal_detail::{
    cat, dim, line1, lines_view, no_lines, plain, push_line, seg, SegModel, Segment,
};
use crate::stream_event::Style;
use crate::text::{dec, owned, u64_text};

verus! {

#[derive(Debug)]
pub enum ToolCommands {
    /// Create a tool (an executable action an AI skill can invoke)
    Create {
        /// Tool name
        name: String,
        /// Tool description
        description: String,
        /// Execution backend
        executor: String,
        /// Raw JSON object with executor-specific configuration
        executor_config_json: String,
        /// Raw JSON array of parameter definitions (see `addness tool create --help`)
        parameters_json: Option<String>,
        /// Require user confirmation before executing this tool
        requires_confirmation: bool,
        /// Environment this tool may run in (repeatable, e.g. "development")
        allowed_environment: Vec<String>,
        /// Maximum execution time in seconds
        max_execution_time: Option<i64>,
        /// Make this tool visible to the whole organization (default: creator only)
        is_public: bool,
        /// Organization ID (uses default if not specified)
        org: Option<String>,
        /// Output as JSON
        json: bool,
    },
    /// List tools in the organization
    List {
        /// Max number of results (default: 20)
        limit: Option<u32>,
        /// Pagination offset
        offset: Option<u32>,
        /// Organization ID (uses default if not specified)
        org: Option<String>,
        /// Output as JSON
        json: bool,
    },
    /// Search tools by keyword
    Search {
        /// Search keyword
        query: String,
        /// Max number of results (default: 30)
        limit: Option<u32>,
        /// Organization ID (uses default if not specified)
        org: Option<String>,
        /// Output as JSON
        json: bool,
    },
    /// Get a single tool
    Get {
        /// Tool ID
        id: String,
        /// Organization ID (uses default if not specified)
        org: Option<String>,
        /// Output as JSON
        json: bool,
    },
    /// Update a tool (partial update; executor backend cannot be changed)
    Update {
        /// Tool ID
        id: String,
        /// New name
        name: Option<String>,
        /// New description
        description: Option<String>,
        /// Replace the executor-specific configuration (raw JSON object)
        executor_config_json: Option<String>,
        /// Replace the parameter definitions (raw JSON array)
        parameters_json: Option<String>,
        /// Require user confirmation before executing this tool
        requires_confirmation: Option<bool>,
        /// Replace the allowed environments list (repeatable; omit to leave unchanged)
        allowed_environment: Vec<String>,
        /// Maximum execution time in seconds
        max_execution_time: Option<i64>,
        /// Make this tool visible to the whole organization
        is_public: Option<bool>,
        /// Organization ID (uses default if not specified)
        org: Option<String>,
        /// Output as JSON
        json: bool,
    },
    /// Delete a tool
    Delete {
        /// Tool ID
        id: String,
        /// Organization ID (uses default if not specified)
        org: Option<String>,
        /// Skip the confirmation prompt
        force: bool,
        /// Output as JSON
        json: bool,
    },
    /// Execute a tool
    Execute {
        /// Tool ID
        id: String,
        /// Raw JSON object of parameter values to pass to the tool
        parameters_json: String,
        /// Target environment (must be one of the tool's allowed environments, if set)
        environment: Option<String>,
        /// Organization ID (uses default if not specified)
        org: Option<String>,
        /// Output as JSON
        json: bool,
    },
}


/// `tool update`: at least one field must change.
pub fn ensure_tool_update(
    name: &Option<String>,
    description: &Option<String>,
    executor_config_json: &Option<String>,
    parameters_json: &Option<String>,
    requires_confirmation: Option<bool>,
    allowed_environment: &Vec<String>,
    max_execution_time: Option<i64>,
    is_public: Option<bool>,
) -> (r: Result<(), String>)
    ensures
        r is Ok <==> (name is Some || description is Some || executor_config_json is Some
            || parameters_json is Some || requires_confirmation is Some || allowed_environment@.len()
            > 0 || max_execution_time is Some || is_public is Some),
        r matches Err(e) ==> e@ == "At least one field to update must be specified"@,
{
    if name.is_none() && description.is_none() && executor_config_json.is_none()
        && parameters_json.is_none() && requires_confirmation.is_none() && allowed_environment.len()
        == 0 && max_execution_time.is_none() && is_public.is_none() {
        return Err(owned("At least one field to update must be specified"));
    }
    Ok(())
}

// ---------------------------------------------------------------------------
// Listing lines
// ---------------------------------------------------------------------------

/// A tool as the tool list returns it.
#[derive(Debug)]
pub struct ToolItem {
    pub id: String,
    pub name: String,
    pub executor: String,
}

/// `<id> — <name> [<executor>]`.
pub open spec fn tool_line(t: ToolItem) -> Seq<SegModel> {
    seq![plain(t.id@ + " — "@ + t.name@ + " ["@ + t.executor@ + "]"@)]
}

/// One line per tool, in order.
pub open spec fn tool_item_lines(tools: Seq<ToolItem>) -> Seq<Seq<SegModel>>
    decreases tools.len(),
{
    if tools.len() == 0 {
        Seq::empty()
    } else {
        tool_item_lines(tools.drop_last()).push(tool_line(tools.last()))
    }
}

/// What `tool list` prints: a dimmed note when there are none, else one
/// line per tool and the total.
pub open spec fn tool_list_text(tools: Seq<ToolItem>, total: u64) -> Seq<Seq<SegModel>> {
    if tools.len() == 0 {
        seq![seq![dim("No tools found."@)]]
    } else {
        tool_item_lines(tools).push(seq![plain(dec(total as nat) + " total"@)])
    }
}

/// What `tool search` prints: a dimmed note when nothing matched, else one
/// line per tool.
pub open spec fn tool_search_text(tools: Seq<ToolItem>) -> Seq<Seq<SegModel>> {
    if tools.len() == 0 {
        seq![seq![dim("No matching tools found."@)]]
    } else {
        tool_item_lines(tools)
    }
}

fn push_tool_lines(out: &mut Vec<Vec<Segment>>, tools: &[ToolItem])
    ensures
        lines_view(final(out)@) == lines_view(old(out)@) + tool_item_lines(tools@),
{
    let ghost start = lines_view(out@);
    let mut i: usize = 0;
    while i < tools.len()
        invariant
            i <= tools@.len(),
            lines_view(out@) == start + tool_item_lines(tools@.take(i as int)),
        decreases tools@.len() - i,
    {
        let t = &tools[i];
        let mut text = cat(t.id.as_str(), " — ");
        text.append(t.name.as_str());
        text.append(" [");
        text.append(t.executor.as_str());
        text.append("]");
        push_line(out, line1(seg(text, Style::Plain)));
        proof {
            assert(tools@.take(i + 1).drop_last() =~= tools@.take(i as int));
            assert(lines_view(out@) =~= start + tool_item_lines(tools@.take(i + 1)));
        }
        i = i + 1;
    }
    assert(tools@.take(tools@.len() as int) =~= tools@);
}

pub fn tool_list_lines(tools: &[ToolItem], total: u64) -> (r: Vec<Vec<Segment>>)
    ensures
        lines_view(r@) == tool_list_text(tools@, total),
{
    let mut out = no_lines();
    if tools.len() == 0 {
        push_line(&mut out, line1(seg(owned("No tools found."), Style::Dimmed)));
        assert(lines_view(out@) =~= tool_list_text(tools@, total));
        return out;
    }
    push_tool_lines(&mut out, tools);
    let n = u64_text(total);
    push_line(&mut out, line1(seg(cat(n.as_str(), " total"), Style::Plain)));
    assert(lines_view(out@) =~= tool_list_text(tools@, total));
    out
}

pub fn tool_search_lines(tools: &[ToolItem]) -> (r: Vec<Vec<Segment>>)
    ensures
        lines_view(r@) == tool_search_text(tools@),
{
    let mut out = no_lines();
    if tools.len() == 0 {
        push_line(&mut out, line1(seg(owned("No matching tools found."), Style::Dimmed)));
        assert(lines_view(out@) =~= tool_search_text(tools@));
        return out;
    }
    push_tool_lines(&mut out, tools);
    assert(lines_view(out@) =~= Seq::<Seq<SegModel>>::empty() + tool_item_lines(tools@));
    out
}

/// `Created tool <id> — <name>` / `Updated tool ...`.
pub fn tool_saved_line(verb: &str, id: &str, name: &str) -> (r: String)
    ensures
        r@ == verb@ + " tool "@ + id@ + " — "@ + name@,
{
    let mut s = cat(verb, " tool ");
    s.append(id);
    s.append(" — ");
    s.append(name);
    s
}

} // verus!
