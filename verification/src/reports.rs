//! Report endpoints.
use vstd::prelude::*;
use crate::error::{Guard, StudyCycleErrorType, StudyCycleResult, require_guard};

verus! {

/// What resolving (or reopening) a report records: the admin who did it and
/// the new state.
#[derive(Debug, Clone, Copy, PartialEq, Eq, Structural)]
pub struct ReportResolution {
    pub resolver_id: i32,
    pub resolved: bool,
}

/// Resolving (or reopening) a report of a private message is for admins
/// only; the report records the acting admin and the requested state.
pub fn resolve_pm_report(admin_ok: bool, person_id: i32, resolved: bool) -> (res: StudyCycleResult<
    ReportResolution,
>)
    ensures
        res == (if admin_ok { Ok(ReportResolution { resolver_id: person_id, resolved }) } else { Err::<
            ReportResolution,
            StudyCycleErrorType,
        >(StudyCycleErrorType::Refused(Guard::Admin)) }),
{
    require_guard(admin_ok, Guard::Admin)?;
    Ok(ReportResolution { resolver_id: person_id, resolved })
}

} // verus!
