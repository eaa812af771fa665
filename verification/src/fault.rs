//! What can go wrong in a run, and how much each failure matters.

use vstd::prelude::*;

verus! {

/// A failure of one step of a run.
#[derive(Clone, Copy, Debug, PartialEq, Eq, Structural)]
pub enum Fault {
    /// The configuration could not be read, or holds a value that cannot be taken.
    Configuration,
    /// The window or its graphics context could not be made.
    ContextCreation,
    /// The context could not be made current on the render thread.
    ContextActivation,
    /// The table of graphics functions could not be loaded.
    FunctionTable,
    /// The driver's version string is not UTF-8.
    VersionDecoding,
    /// A frame could not be presented.
    Presentation,
    /// The render thread ended abnormally, or could not be joined.
    RenderJoin,
    /// The stop signal found no render thread to take it.
    StopSend,
    /// A resize found no render thread to take it.
    ResizeSend,
    /// The render loop looked for a stop signal and none was pending.
    StopNotPending,
}

/// How much a failure matters.
#[derive(Clone, Copy, Debug, PartialEq, Eq, Structural)]
pub enum Severity {
    /// The run cannot start.
    FatalAtStartup,
    /// The run cannot go on.
    FatalAtRuntime,
    /// Expected in a healthy run; nothing is done about it.
    Benign,
}

impl Fault {
    /// How much this failure matters.
    pub open spec fn spec_severity(self) -> Severity {
        match self {
            Fault::Configuration
            | Fault::ContextCreation
            | Fault::ContextActivation
            | Fault::FunctionTable
            | Fault::VersionDecoding => Severity::FatalAtStartup,
            Fault::Presentation | Fault::RenderJoin | Fault::StopSend => Severity::FatalAtRuntime,
            Fault::ResizeSend | Fault::StopNotPending => Severity::Benign,
        }
    }

    /// Whether the run ends on this failure.
    pub open spec fn spec_is_fatal(self) -> bool {
        !(self.spec_severity() is Benign)
    }

    /// How much this failure matters: what keeps the window and its context from coming
    /// up is fatal at start-up, what breaks presentation or shutdown is fatal at run time,
    /// and what a healthy run meets now and then is benign.
    #[verifier::when_used_as_spec(spec_severity)]
    pub fn severity(self) -> (severity: Severity)
        ensures
            severity == self.spec_severity(),
    {
        match self {
            Fault::Configuration => Severity::FatalAtStartup,
            Fault::ContextCreation => Severity::FatalAtStartup,
            Fault::ContextActivation => Severity::FatalAtStartup,
            Fault::FunctionTable => Severity::FatalAtStartup,
            Fault::VersionDecoding => Severity::FatalAtStartup,
            Fault::Presentation => Severity::FatalAtRuntime,
            Fault::RenderJoin => Severity::FatalAtRuntime,
            Fault::StopSend => Severity::FatalAtRuntime,
            Fault::ResizeSend => Severity::Benign,
            Fault::StopNotPending => Severity::Benign,
        }
    }

    /// Whether the run ends on this failure. Nothing fatal is retried or passed over.
    #[verifier::when_used_as_spec(spec_is_fatal)]
    pub fn is_fatal(self) -> (fatal: bool)
        ensures
            fatal == self.spec_is_fatal(),
    {
        match self.severity() {
            Severity::Benign => false,
            _ => true,
        }
    }
}

} // verus!
