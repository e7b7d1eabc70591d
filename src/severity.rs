use vstd::prelude::*;

verus! {

/// A Bugsnag event has three severity levels:
/// error, the default for unhandled errors; warning, the default for manual
/// notifications; info, for purely informational notifications.
#[derive(Clone, Copy, Debug, PartialEq, Eq, Structural)]
pub enum SeverityLevel {
    Error,
    Warning,
    Info,
}

/// The lowercase spelling of a severity level, as it appears on the wire.
pub open spec fn severity_name(level: SeverityLevel) -> Seq<char> {
    match level {
        SeverityLevel::Error => "error"@,
        SeverityLevel::Warning => "warning"@,
        SeverityLevel::Info => "info"@,
    }
}

/// Each level's name is spelled in lowercase ASCII letters.
pub proof fn lemma_severity_lowercase(level: SeverityLevel)
    ensures
        severity_name(level).len() > 0,
        forall|i: int| 0 <= i < severity_name(level).len() ==> 'a' <= #[trigger] severity_name(level)[i] <= 'z',
{
    reveal_strlit("error");
    reveal_strlit("warning");
    reveal_strlit("info");
}

impl SeverityLevel {
    /// The lowercase spelling of this level.
    pub fn as_str(&self) -> (r: &'static str)
        ensures
            r@ == severity_name(*self),
    {
        match self {
            SeverityLevel::Error => "error",
            SeverityLevel::Warning => "warning",
            SeverityLevel::Info => "info",
        }
    }

    /// The lowercase spelling of this level, as an owned string.
    pub fn to_string(&self) -> (r: String)
        ensures
            r@ == severity_name(*self),
    {
        self.as_str().to_owned()
    }
}

} // verus!
