//! The escalation level of a diagnostic.
use vstd::prelude::*;
use vstd::std_specs::cmp::{PartialOrdIs, PartialOrdSpec};

verus! {

/// A severity level for diagnostic messages, ordered
/// `Help < Note < Warning < Error < Bug`.
#[derive(Copy, Clone, Hash, Debug, PartialEq, Eq, Structural, Ord)]
pub enum Severity {
    /// A help message.
    Help,
    /// A note.
    Note,
    /// A warning.
    Warning,
    /// An error.
    Error,
    /// An unexpected bug.
    Bug,
}

impl Severity {
    /// The position of the severity in the escalation order, from 0 (`Help`)
    /// to 4 (`Bug`).
    pub open spec fn rank(self) -> nat {
        match self {
            Severity::Help => 0,
            Severity::Note => 1,
            Severity::Warning => 2,
            Severity::Error => 3,
            Severity::Bug => 4,
        }
    }

    /// The position of the severity in the escalation order.
    pub fn level(&self) -> (r: u8)
        ensures
            r as nat == self.rank(),
    {
        match self {
            Severity::Help => 0,
            Severity::Note => 1,
            Severity::Warning => 2,
            Severity::Error => 3,
            Severity::Bug => 4,
        }
    }
}

/// The order of two ranks, as `Ord` orders integers.
pub open spec fn order_of(a: nat, b: nat) -> core::cmp::Ordering {
    if a < b {
        core::cmp::Ordering::Less
    } else if a == b {
        core::cmp::Ordering::Equal
    } else {
        core::cmp::Ordering::Greater
    }
}

impl PartialOrd for Severity {
    fn partial_cmp(&self, other: &Severity) -> (r: Option<core::cmp::Ordering>) {
        let a = self.level();
        let b = other.level();
        if a < b {
            Some(core::cmp::Ordering::Less)
        } else if a == b {
            Some(core::cmp::Ordering::Equal)
        } else {
            Some(core::cmp::Ordering::Greater)
        }
    }
}

impl vstd::std_specs::cmp::PartialOrdSpecImpl for Severity {
    open spec fn obeys_partial_cmp_spec() -> bool {
        true
    }

    open spec fn partial_cmp_spec(&self, other: &Severity) -> Option<core::cmp::Ordering> {
        Some(order_of(self.rank(), other.rank()))
    }
}

/// Severities form a total order that follows their rank: any two are
/// comparable, exactly one of `a < b`, `a == b`, `a > b` holds, `a < b`
/// exactly when `a` ranks below `b`, the order is transitive, and
/// `Help < Note < Warning < Error < Bug`.
pub proof fn severity_total_order(a: Severity, b: Severity, c: Severity)
    ensures
        a.partial_cmp_spec(&b) is Some,
        a.is_lt(&b) <==> a.rank() < b.rank(),
        a.is_gt(&b) <==> b.is_lt(&a),
        a.is_le(&b) <==> (a.is_lt(&b) || a == b),
        a.is_lt(&b) || a == b || a.is_gt(&b),
        !(a.is_lt(&b) && a == b),
        !(a.is_lt(&b) && a.is_gt(&b)),
        (a.is_lt(&b) && b.is_lt(&c)) ==> a.is_lt(&c),
        Severity::Help.is_lt(&Severity::Note),
        Severity::Note.is_lt(&Severity::Warning),
        Severity::Warning.is_lt(&Severity::Error),
        Severity::Error.is_lt(&Severity::Bug),
{
}

} // verus!
