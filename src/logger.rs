use vstd::prelude::*;

verus! {

/// The stage of the computation a log message belongs to.
#[derive(Clone, Copy, Debug, PartialEq, Eq, Structural)]
pub enum LogStep {
    /// Inspection of the equation's structure and its fields.
    Structure,
    /// Search for the unknown among the fields.
    Setup,
    /// Evaluation of the equation itself.
    Compute,
}

/// The tag that starts every line of a step.
pub open spec fn step_label(step: LogStep) -> Seq<char> {
    match step {
        LogStep::Structure => "[Structure]"@,
        LogStep::Setup => "[Setup]"@,
        LogStep::Compute => "[Compute]"@,
    }
}

impl LogStep {
    /// The tag of this step, such as `[Setup]`.
    pub fn label(&self) -> (r: String)
        ensures
            r@ == step_label(*self),
    {
        match self {
            LogStep::Structure => String::from_str("[Structure]"),
            LogStep::Setup => String::from_str("[Setup]"),
            LogStep::Compute => String::from_str("[Compute]"),
        }
    }
}

/// Which steps are logged; none by default.
#[derive(Clone, Copy, Debug, PartialEq, Eq, Structural)]
pub struct LogFilter {
    pub structure: bool,
    pub setup: bool,
    pub compute: bool,
}

/// Whether the filter lets messages of the step through.
pub open spec fn allowed(filter: LogFilter, step: LogStep) -> bool {
    match step {
        LogStep::Structure => filter.structure,
        LogStep::Setup => filter.setup,
        LogStep::Compute => filter.compute,
    }
}

impl LogFilter {
    /// A filter that logs nothing.
    pub fn silent() -> (r: LogFilter)
        ensures
            forall|step: LogStep| !allowed(r, step),
    {
        LogFilter { structure: false, setup: false, compute: false }
    }

    /// Whether messages of `step` are logged.
    pub fn allows(&self, step: LogStep) -> (r: bool)
        ensures
            r == allowed(*self, step),
    {
        match step {
            LogStep::Structure => self.structure,
            LogStep::Setup => self.setup,
            LogStep::Compute => self.compute,
        }
    }
}

/// The line to print for a message of `step`, or `None` when the filter
/// does not log that step. The line is the step's tag, a space, and the
/// message.
pub fn log(filter: &LogFilter, step: LogStep, message: &str) -> (r: Option<String>)
    ensures
        r is Some <==> allowed(*filter, step),
        r matches Some(line) ==> line@ == step_label(step) + " "@ + message@,
{
    if filter.allows(step) {
        let line = step.label().concat(" ").concat(message);
        Some(line)
    } else {
        None
    }
}

/// The line to print for a message about the equation's structure.
pub fn log_structure(filter: &LogFilter, message: String) -> (r: Option<String>)
    ensures
        r is Some <==> filter.structure,
        r matches Some(line) ==> line@ == "[Structure]"@ + " "@ + message@,
{
    log(filter, LogStep::Structure, message.as_str())
}

} // verus!
