//! Budget levels of daily LLM spending.

use vstd::prelude::*;

verus! {

/// Where the day's spending stands against its cap: under the warning
/// threshold, past it, or past the deny threshold.
#[derive(Debug, Clone, Copy, PartialEq, Eq, Structural)]
pub enum BudgetLevel {
    Pass,
    Warn,
    Deny,
}

/// The serialized name of a level.
pub open spec fn spec_budget_label(l: BudgetLevel) -> Seq<char> {
    match l {
        BudgetLevel::Pass => "ok"@,
        BudgetLevel::Warn => "warn"@,
        BudgetLevel::Deny => "deny"@,
    }
}

impl BudgetLevel {
    /// The serialized name of the level (`ok`, `warn`, `deny`).
    pub fn label(&self) -> (r: &'static str)
        ensures
            r@ == spec_budget_label(*self),
    {
        match self {
            BudgetLevel::Pass => "ok",
            BudgetLevel::Warn => "warn",
            BudgetLevel::Deny => "deny",
        }
    }
}

} // verus!
