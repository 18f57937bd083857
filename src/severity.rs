use vstd::prelude::*;
use vstd::string::*;

verus! {

/// How urgently an event is displayed.
#[derive(Clone, Copy, Debug, PartialEq, Eq, Structural)]
pub enum Severity {
    Warning,
    Informational,
}

/// Only the exact, case-sensitive type `Normal` is informational.
pub open spec fn severity_of(event_type: Seq<char>) -> Severity {
    if event_type == "Normal"@ {
        Severity::Informational
    } else {
        Severity::Warning
    }
}

pub fn classify(event_type: &str) -> (r: Severity)
    ensures
        r == severity_of(event_type@),
{
    let given = String::from_str(event_type);
    let normal = String::from_str("Normal");
    if given == normal {
        Severity::Informational
    } else {
        Severity::Warning
    }
}

} // verus!
