//! Organizations: resolving which organization a command targets.

use vstd::prelude::*;
use crate::goal::{read_text_arg, TextArg};
use crate::text::{
    char_count, chars_of, is_blank, owned, str_eq, string_from_range, to_upper, trim, trim_bounds, trimmed,
    unicode_upper,
};

verus! {

#[derive(Debug)]
pub enum OrgCommands {
    /// List organizations you belong to
    List {
        /// Output as JSON
        json: bool,
    },
    /// Switch current organization
    Switch {
        /// Organization ID
        id: String,
    },
    /// Show current organization
    Current {
        /// Output as JSON
        json: bool,
    },
    /// Create a new organization
    Create {
        /// Organization name
        name: String,
        /// Organization type: PERSONAL or BUSINESS (default PERSONAL)
        type_: String,
        /// Team scale (required for BUSINESS): SOLO, 2_5, 6_20, 21_50, 50_PLUS
        team_scale: Option<String>,
        /// Plan type: FREE, PACKAGE, or SUBSCRIPTION
        plan_type: Option<String>,
        /// Industry text
        industry: Option<String>,
        /// Phone number
        phone_number: Option<String>,
        /// Browser timezone for initial organization settings (default Asia/Tokyo on API)
        browser_timezone: Option<String>,
        /// Logo URL
        logo_url: Option<String>,
        /// Switch current organization to the created organization
        switch: bool,
        /// Output as JSON
        json: bool,
    },
    /// Update an organization's name
    Update {
        /// Organization ID
        id: String,
        /// New name
        name: String,
        /// Output as JSON
        json: bool,
    },
    /// Delete an organization
    Rm {
        /// Organization ID
        id: String,
        /// Skip confirmation prompt
        force: bool,
    },
    /// Update the organization's context text (free-form AI context)
    SetContext {
        /// Organization ID
        id: String,
        /// Inline context text
        text: Option<String>,
        /// Read context text from a file
        text_file: Option<String>,
        /// Output as JSON
        json: bool,
    },
    /// Show a single organization's details
    Get {
        /// Organization ID
        id: String,
        /// Output as JSON
        json: bool,
    },
    /// List all organizations (subscription-scoped, paginated) matching an optional name
    ListAll {
        /// Filter by organization name (partial match)
        name: Option<String>,
        /// Maximum number of results
        limit: Option<u16>,
        /// Number of results to skip
        offset: Option<u64>,
        /// Output as JSON
        json: bool,
    },
    /// Show the organization's root goal owner
    RootOwner {
        /// Organization ID
        id: String,
        /// Output as JSON
        json: bool,
    },
    /// Show the root goal you can access in the organization
    AccessibleRoot {
        /// Organization ID
        id: String,
        /// Output as JSON
        json: bool,
    },
    /// Show the organization's AI agent member
    AiAgentMember {
        /// Organization ID
        id: String,
        /// Output as JSON
        json: bool,
    },
    /// Show the organization's payment access state
    AccessState {
        /// Organization ID
        id: String,
        /// Output as JSON
        json: bool,
    },
    /// Show your member record within the organization
    CurrentMember {
        /// Organization ID
        id: String,
        /// Output as JSON
        json: bool,
    },
    /// Check whether you are an admin of the organization
    AdminCheck {
        /// Organization ID
        id: String,
        /// Output as JSON
        json: bool,
    },
    /// Show the organization's context text
    GetContext {
        /// Organization ID
        id: String,
        /// Output as JSON
        json: bool,
    },
    /// List revisions of the organization's context text
    ContextRevisions {
        /// Organization ID
        id: String,
        /// Maximum number of revisions to return
        limit: Option<u16>,
        /// Output as JSON
        json: bool,
    },
}

/// The error when no organization is given and none is current.
pub open spec fn no_org_error() -> Seq<char> {
    "No organization specified.\nUse --org <id> or set a current with: addness org switch <id>"@
}

/// The organization a command targets: the `--org` flag when given,
/// otherwise the current organization from the settings (`current`).
pub fn resolve_org_id(flag: Option<&str>, current: Option<&str>) -> (r: Result<String, String>)
    ensures
        match flag {
            Some(f) => r matches Ok(id) && id@ == f@,
            None => match current {
                Some(c) => r matches Ok(id) && id@ == c@,
                None => r matches Err(e) && e@ == no_org_error(),
            },
        },
{
    if let Some(id) = flag {
        return Ok(owned(id));
    }
    match current {
        Some(id) => Ok(owned(id)),
        None => Err(owned("No organization specified.\nUse --org <id> or set a current with: addness org switch <id>")),
    }
}

/// The trimmed value, unless it is absent or blank.
pub fn non_empty(value: &Option<String>) -> (r: Option<String>)
    ensures
        match *value {
            Some(s) => if is_blank(s@) {
                r is None
            } else {
                r matches Some(t) && t@ == trim(s@)
            },
            None => r is None,
        },
{
    match value {
        Some(s) => {
            let v = chars_of(s.as_str());
            let (lo, hi) = trim_bounds(&v);
            if lo < hi {
                Some(string_from_range(&v, lo, hi))
            } else {
                None
            }
        },
        None => None,
    }
}

/// Which stored token a newly created organization should inherit: none
/// when it already has one; otherwise the current organization's token,
/// else any stored token.
pub fn token_to_copy_for_created_org(
    has_token_for_created_org: bool,
    current_org_token: Option<&str>,
    any_token: Option<&str>,
) -> (r: Option<String>)
    ensures
        has_token_for_created_org ==> r is None,
        !has_token_for_created_org ==> match current_org_token {
            Some(t) => r matches Some(x) && x@ == t@,
            None => match any_token {
                Some(t) => r matches Some(x) && x@ == t@,
                None => r is None,
            },
        },
{
    if has_token_for_created_org {
        return None;
    }
    match current_org_token {
        Some(t) => Some(owned(t)),
        None => match any_token {
            Some(t) => Some(owned(t)),
            None => None,
        },
    }
}

// ---------------------------------------------------------------------------
// Creating an organization
// ---------------------------------------------------------------------------

/// What `org create` sends: the type upper-cased, the choices trimmed and
/// upper-cased, the free texts trimmed; blank values are left out.
#[derive(Debug)]
pub struct CreateOrganizationParams {
    pub name: String,
    pub organization_type: String,
    pub team_scale: Option<String>,
    pub plan_type: Option<String>,
    pub industry: Option<String>,
    pub phone_number: Option<String>,
    pub browser_timezone: Option<String>,
    pub logo_url: Option<String>,
}

/// A choice flag as the command reads it: trimmed and upper-cased, and left
/// out when that leaves nothing.
pub open spec fn normalized_choice(value: Option<Seq<char>>) -> Option<Seq<char>> {
    match value {
        Some(v) => {
            let u = unicode_upper(trim(v));
            if u.len() == 0 {
                None
            } else {
                Some(u)
            }
        },
        None => None,
    }
}

/// The team scales an organization may declare.
pub open spec fn is_team_scale(s: Seq<char>) -> bool {
    s == "SOLO"@ || s == "2_5"@ || s == "6_20"@ || s == "21_50"@ || s == "50_PLUS"@
}

/// The plan types an organization may start with.
pub open spec fn is_plan_type(s: Seq<char>) -> bool {
    s == "FREE"@ || s == "PACKAGE"@ || s == "SUBSCRIPTION"@
}

/// Why `org create` refuses its flags, checked in this order; `None` when
/// it accepts them.
pub open spec fn create_org_error(
    org_type: Seq<char>,
    team_scale: Option<Seq<char>>,
    plan_type: Option<Seq<char>>,
) -> Option<Seq<char>> {
    let t = unicode_upper(org_type);
    let ts = normalized_choice(team_scale);
    let pt = normalized_choice(plan_type);
    if !(t == "PERSONAL"@ || t == "BUSINESS"@) {
        Some("Invalid --type '"@ + org_type + "'. Use PERSONAL or BUSINESS."@)
    } else if t == "BUSINESS"@ && ts is None {
        Some("--team-scale is required for BUSINESS (one of SOLO, 2_5, 6_20, 21_50, 50_PLUS)"@)
    } else {
        match ts {
            Some(scale) if !is_team_scale(scale) => Some(
                "Invalid --team-scale '"@ + scale + "'. Use SOLO, 2_5, 6_20, 21_50, or 50_PLUS."@,
            ),
            _ => match pt {
                Some(plan) if !is_plan_type(plan) => Some(
                    "Invalid --plan-type '"@ + plan + "'. Use FREE, PACKAGE, or SUBSCRIPTION."@,
                ),
                _ => None,
            },
        }
    }
}

/// The trimmed text, unless absent or blank.
pub open spec fn trimmed_text(value: Option<Seq<char>>) -> Option<Seq<char>> {
    match value {
        Some(s) => if is_blank(s) {
            None
        } else {
            Some(trim(s))
        },
        None => None,
    }
}

fn normalize_choice(value: &Option<String>) -> (r: Option<String>)
    ensures
        opt_text(r) == normalized_choice(opt_text(*value)),
{
    match value {
        Some(v) => {
            let t = trimmed(v.as_str());
            let u = to_upper(t.as_str());
            if char_count(u.as_str()) == 0 {
                None
            } else {
                Some(u)
            }
        },
        None => None,
    }
}

/// The text of an optional string.
pub open spec fn opt_text(o: Option<String>) -> Option<Seq<char>> {
    match o {
        Some(s) => Some(s@),
        None => None,
    }
}

fn one_of(s: &str, choices: &[&str]) -> (b: bool)
    ensures
        b == exists|i: int| 0 <= i < choices@.len() && choices@[i]@ == s@,
{
    let mut i: usize = 0;
    while i < choices.len()
        invariant
            i <= choices@.len(),
            forall|j: int| 0 <= j < i ==> choices@[j]@ != s@,
        decreases choices@.len() - i,
    {
        if str_eq(choices[i], s) {
            return true;
        }
        i = i + 1;
    }
    false
}

/// The parameters `org create` sends, or why it refuses its flags.
pub fn build_create_organization_params(
    name: &str,
    org_type: &str,
    team_scale: &Option<String>,
    plan_type: &Option<String>,
    industry: &Option<String>,
    phone_number: &Option<String>,
    browser_timezone: &Option<String>,
    logo_url: &Option<String>,
) -> (r: Result<CreateOrganizationParams, String>)
    ensures
        match create_org_error(org_type@, opt_text(*team_scale), opt_text(*plan_type)) {
            Some(e) => r matches Err(m) && m@ == e,
            None => r matches Ok(p) && {
                &&& p.name@ == name@
                &&& p.organization_type@ == unicode_upper(org_type@)
                &&& opt_text(p.team_scale) == normalized_choice(opt_text(*team_scale))
                &&& opt_text(p.plan_type) == normalized_choice(opt_text(*plan_type))
                &&& opt_text(p.industry) == trimmed_text(opt_text(*industry))
                &&& opt_text(p.phone_number) == trimmed_text(opt_text(*phone_number))
                &&& opt_text(p.browser_timezone) == trimmed_text(opt_text(*browser_timezone))
                &&& opt_text(p.logo_url) == trimmed_text(opt_text(*logo_url))
            },
        },
{
    let upper_type = to_upper(org_type);
    if !(str_eq(upper_type.as_str(), "PERSONAL") || str_eq(upper_type.as_str(), "BUSINESS")) {
        let mut e = owned("Invalid --type '");
        e.append(org_type);
        e.append("'. Use PERSONAL or BUSINESS.");
        return Err(e);
    }
    let scale = normalize_choice(team_scale);
    if str_eq(upper_type.as_str(), "BUSINESS") && scale.is_none() {
        return Err(
            owned("--team-scale is required for BUSINESS (one of SOLO, 2_5, 6_20, 21_50, 50_PLUS)"),
        );
    }
    if let Some(sc) = &scale {
        let scales = ["SOLO", "2_5", "6_20", "21_50", "50_PLUS"];
        if !one_of(sc.as_str(), &scales) {
            let mut e = owned("Invalid --team-scale '");
            e.append(sc.as_str());
            e.append("'. Use SOLO, 2_5, 6_20, 21_50, or 50_PLUS.");
            return Err(e);
        }
    }
    let plan = normalize_choice(plan_type);
    if let Some(pl) = &plan {
        let plans = ["FREE", "PACKAGE", "SUBSCRIPTION"];
        if !one_of(pl.as_str(), &plans) {
            let mut e = owned("Invalid --plan-type '");
            e.append(pl.as_str());
            e.append("'. Use FREE, PACKAGE, or SUBSCRIPTION.");
            return Err(e);
        }
    }
    Ok(CreateOrganizationParams {
        name: owned(name),
        organization_type: upper_type,
        team_scale: scale,
        plan_type: plan,
        industry: non_empty(industry),
        phone_number: non_empty(phone_number),
        browser_timezone: non_empty(browser_timezone),
        logo_url: non_empty(logo_url),
    })
}

/// Where `org set-context` takes its text from: exactly one of `--text` and
/// `--text-file`.
pub fn context_source(text: Option<&String>, text_file: Option<&String>) -> (r: Result<
    TextArg,
    String,
>)
    ensures
        match (text, text_file) {
            (Some(s), None) => r matches Ok(TextArg::Inline(t)) && t@ == s@,
            (None, Some(p)) => r matches Ok(TextArg::File(t)) && t@ == p@,
            (Some(_), Some(_)) => r matches Err(e) && e@
                == "Specify only one of --text or --text-file"@,
            (None, None) => r matches Err(e) && e@ == "Specify --text or --text-file"@,
        },
{
    match read_text_arg(text, text_file, "--text", "--text-file") {
        Ok(Some(arg)) => Ok(arg),
        Ok(None) => Err(owned("Specify --text or --text-file")),
        Err(e) => {
            proof {
                reveal_strlit("Specify only one of ");
                reveal_strlit("--text");
                reveal_strlit(" or ");
                reveal_strlit("--text-file");
                reveal_strlit("Specify only one of --text or --text-file");
                assert("Specify only one of "@ + "--text"@ + " or "@ + "--text-file"@
                    =~= "Specify only one of --text or --text-file"@);
            }
            Err(e)
        },
    }
}

// ---------------------------------------------------------------------------
// Switching and result lines
// ---------------------------------------------------------------------------

/// An organization as the organization list returns it.
#[derive(Debug)]
pub struct OrgSummary {
    pub id: String,
    pub name: String,
}

/// The index of the first organization with this ID.
pub open spec fn first_org_with(orgs: Seq<OrgSummary>, id: Seq<char>) -> Option<int>
    decreases orgs.len(),
{
    if orgs.len() == 0 {
        None
    } else if orgs[0].id@ == id {
        Some(0)
    } else {
        match first_org_with(orgs.drop_first(), id) {
            Some(i) => Some(i + 1),
            None => None,
        }
    }
}

proof fn lemma_first_org_skip(orgs: Seq<OrgSummary>, id: Seq<char>, i: int)
    requires
        0 <= i <= orgs.len(),
        forall|j: int| 0 <= j < i ==> (#[trigger] orgs[j]).id@ != id,
    ensures
        first_org_with(orgs, id) == (match first_org_with(orgs.subrange(i, orgs.len() as int), id) {
            Some(k) => Some(k + i),
            None => None,
        }),
    decreases i,
{
    if i > 0 {
        let t = orgs.drop_first();
        lemma_first_org_skip(t, id, i - 1);
        assert(t.subrange(i - 1, t.len() as int) =~= orgs.subrange(i, orgs.len() as int));
    } else {
        assert(orgs.subrange(0, orgs.len() as int) =~= orgs);
    }
}

/// The error of `org switch` to an organization you do not belong to.
pub open spec fn not_member_error(id: Seq<char>) -> Seq<char> {
    "Organization '"@ + id + "' not found in your account.\nUse `addness org list` to see available organizations."@
}

/// `org switch` checks that you belong to the organization: the line it
/// prints on success, naming the first organization with that ID.
pub fn switch_target(id: &str, orgs: &[OrgSummary]) -> (r: Result<String, String>)
    ensures
        r is Ok <==> exists|i: int| 0 <= i < orgs@.len() && orgs@[i].id@ == id@,
        match first_org_with(orgs@, id@) {
            Some(i) => r matches Ok(line) && line@ == "Switched to organization: "@
                + orgs@[i].name@ + " ("@ + id@ + ")"@,
            None => r matches Err(e) && e@ == not_member_error(id@),
        },
{
    let mut i: usize = 0;
    while i < orgs.len()
        invariant
            i <= orgs@.len(),
            forall|j: int| 0 <= j < i ==> (#[trigger] orgs@[j]).id@ != id@,
        decreases orgs@.len() - i,
    {
        if str_eq(orgs[i].id.as_str(), id) {
            proof {
                lemma_first_org_skip(orgs@, id@, i as int);
            }
            let mut line = owned("Switched to organization: ");
            line.append(orgs[i].name.as_str());
            line.append(" (");
            line.append(id);
            line.append(")");
            return Ok(line);
        }
        i = i + 1;
    }
    proof {
        lemma_first_org_skip(orgs@, id@, i as int);
    }
    let mut e = owned("Organization '");
    e.append(id);
    e.append("' not found in your account.\nUse `addness org list` to see available organizations.");
    Err(e)
}

/// After a switch: an empty line and a warning when credentials are stored
/// but none of them is for the organization; nothing otherwise.
pub fn switch_key_warning(credentials_stored: bool, has_token_for_org: bool) -> (r: Vec<String>)
    ensures
        credentials_stored && !has_token_for_org ==> r@.len() == 2 && r@[0]@ == Seq::<char>::empty()
            && r@[1]@
            == "Warning: No API key stored for this organization. Run `addness login` to authenticate this org, or `addness configure` if you have a key for it."@,
        !(credentials_stored && !has_token_for_org) ==> r@.len() == 0,
{
    let mut v: Vec<String> = Vec::new();
    if credentials_stored && !has_token_for_org {
        v.push(String::new());
        v.push(owned("Warning: No API key stored for this organization. Run `addness login` to authenticate this org, or `addness configure` if you have a key for it."));
    }
    v
}

/// What `org create` prints: the new organization, then that it is now
/// current, or how to switch to it.
pub fn created_org_lines(name: &str, id: &str, switched: bool) -> (r: Vec<String>)
    ensures
        r@.len() == 2,
        r@[0]@ == "Organization created: "@ + name@ + " ("@ + id@ + ")"@,
        r@[1]@ == (if switched {
            "Switched to organization: "@ + id@
        } else {
            "Switch with: addness org switch "@ + id@
        }),
{
    let mut first = owned("Organization created: ");
    first.append(name);
    first.append(" (");
    first.append(id);
    first.append(")");
    let second = if switched {
        let mut t = owned("Switched to organization: ");
        t.append(id);
        t
    } else {
        let mut t = owned("Switch with: addness org switch ");
        t.append(id);
        t
    };
    let mut v: Vec<String> = Vec::new();
    v.push(first);
    v.push(second);
    v
}

/// `org current`: the current organization's ID, or the error where none
/// is set.
pub fn current_org(current: Option<&str>) -> (r: Result<String, String>)
    ensures
        match current {
            Some(c) => r matches Ok(id) && id@ == c@,
            None => r matches Err(e) && e@
                == "No current organization set. Run: addness org switch <id>"@,
        },
{
    match current {
        Some(c) => Ok(owned(c)),
        None => Err(owned("No current organization set. Run: addness org switch <id>")),
    }
}

} // verus!
