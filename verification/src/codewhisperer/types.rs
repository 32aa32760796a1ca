//! The data that the operation's input and the modelled error carry.

use vstd::prelude::*;

verus! {

/// Why access was denied.
#[derive(Clone, Copy, Debug, PartialEq, Eq, Structural)]
pub enum AccessDeniedExceptionReason {
    UnauthorizedCustomizationResourceAccess,
    UnauthorizedWorkspaceContextFeatureAccess,
    TemporarilySuspended,
    FeatureNotSupported,
}

/// What the request is for.
#[derive(Clone, Copy, Debug, PartialEq, Eq, Structural)]
pub enum Intent {
    Dev,
    Doc,
}

/// What kind of documentation a `Doc` request asks for.
#[derive(Clone, Copy, Debug, PartialEq, Eq, Structural)]
pub enum DocGenerationInteractionType {
    GenerateReadme,
    UpdateReadme,
    EditReadme,
}

/// Detail that goes with the intent.
#[derive(Clone, Copy, Debug, PartialEq, Eq, Structural)]
pub enum IntentContext {
    Documentation(DocGenerationInteractionType),
}

/// A workspace as it was uploaded for the request.
#[derive(Clone, Debug, PartialEq)]
pub struct WorkspaceState {
    pub upload_id: String,
    pub programming_language: String,
}

/// One step of a plan: what to do in which file.
#[derive(Clone, Debug, PartialEq)]
pub struct TaskAssistPlanStep {
    pub file_path: String,
    pub description: String,
    pub start_line: Option<i32>,
    pub end_line: Option<i32>,
}

} // verus!
