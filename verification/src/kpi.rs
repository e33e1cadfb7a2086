//! KPIs: target and update checks.

use vstd::prelude::*;
use crate::text::owned;

verus! {

#[derive(Debug)]
pub enum KpiCommands {
    /// Add a KPI to a goal
    Add {
        /// Goal ID
        goal: String,
        /// KPI title
        title: String,
        /// Unit (e.g. "件", "%", "円")
        unit: String,
        /// Target value (integer, must be > 0)
        target: i32,
        /// Current actual value (optional)
        actual: Option<i32>,
        /// Output as JSON
        json: bool,
    },
    /// Update a KPI
    Update {
        /// KPI ID
        id: String,
        /// New title
        title: Option<String>,
        /// New unit
        unit: Option<String>,
        /// New target value
        target: Option<i32>,
        /// New actual value
        actual: Option<i32>,
        /// Output as JSON
        json: bool,
    },
    /// Remove a KPI
    Rm {
        /// KPI ID
        id: String,
        /// Skip confirmation prompt
        force: bool,
    },
}

pub open spec fn kpi_target_error() -> Seq<char> {
    "--target must be greater than 0 (backend rejects 0 due to binding:required)"@
}

/// `kpi add --target`: the backend rejects a target of 0 or less.
pub fn ensure_kpi_target(target: i32) -> (r: Result<(), String>)
    ensures
        r is Ok <==> target > 0,
        r matches Err(e) ==> e@ == kpi_target_error(),
{
    if target <= 0 {
        return Err(owned("--target must be greater than 0 (backend rejects 0 due to binding:required)"));
    }
    Ok(())
}

pub open spec fn kpi_nothing_error() -> Seq<char> {
    "Nothing to update. Specify --title, --unit, --target, or --actual."@
}

/// `kpi update`: at least one field must change.
pub fn ensure_kpi_update(
    title: &Option<String>,
    unit: &Option<String>,
    target: Option<i32>,
    actual: Option<i32>,
) -> (r: Result<(), String>)
    ensures
        r is Ok <==> (title is Some || unit is Some || target is Some || actual is Some),
        r matches Err(e) ==> e@ == kpi_nothing_error(),
{
    if title.is_none() && unit.is_none() && target.is_none() && actual.is_none() {
        return Err(owned("Nothing to update. Specify --title, --unit, --target, or --actual."));
    }
    Ok(())
}

} // verus!
