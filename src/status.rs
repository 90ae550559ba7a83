//! Rendering results, failure causes, and the status progression of a request.
use vstd::prelude::*;
use crate::tree::NamedFile;

verus! {

/// The files a rendering produced, in order.
#[derive(Clone, Debug)]
pub struct RenderingResult {
    pub files: Vec<NamedFile>,
}

/// Why a rendering attempt failed.
#[derive(Clone, Debug)]
pub enum RenderingError {
    ProjectNotFound,
    ProjectMetadataMissing,
    ConnectionToRenderingServerFailed,
    TemplateNotFound,
    CommunicationError,
    CouldntLoadHandlebarTemplates(String),
    /// The template engine did not run successfully; holds the rendering log
    HandlebarsRenderingFailed(String),
    /// A file expected after an export step is missing: (file path, rendering log)
    MissingExpectedFileToKeep(String, String),
    /// The PDF renderer did not run successfully; holds the rendering log
    VivliostyleRenderingFailed(String),
    /// The document converter did not run successfully; holds the log
    PandocConversionFailed(String),
    NoResultFiles,
    Other(String),
}

/// The human-readable text of a rendering error.
pub open spec fn error_text(e: RenderingError) -> Seq<char> {
    match e {
        RenderingError::ProjectNotFound => "Couldn't find project to render."@,
        RenderingError::ProjectMetadataMissing => "Couldn't find project metadata."@,
        RenderingError::ConnectionToRenderingServerFailed => "Couldn't connect to a rendering server."@,
        RenderingError::TemplateNotFound => "Couldn't find the projects template."@,
        RenderingError::CommunicationError => "Communication Error with rendering server occurred."@,
        RenderingError::CouldntLoadHandlebarTemplates(log) => "Couldn't register Template: "@ + log@,
        RenderingError::HandlebarsRenderingFailed(log) => "Couldn't render Template: "@ + log@,
        RenderingError::MissingExpectedFileToKeep(file, log) =>
            "Couldn't find the expected file "@ + file@ + " after rendering: "@ + log@,
        RenderingError::VivliostyleRenderingFailed(log) => "Couldn't render PDF with vivliostyle: "@ + log@,
        RenderingError::PandocConversionFailed(log) => "Couldn't convert with pandoc: "@ + log@,
        RenderingError::NoResultFiles => "No file was transmitted. Check your templates export steps."@,
        RenderingError::Other(other) => "Error occured: "@ + other@,
    }
}

impl RenderingError {
    /// The human-readable text of this error, for display.
    pub fn message(&self) -> (r: String)
        ensures
            r@ == error_text(*self),
    {
        match self {
            RenderingError::ProjectNotFound => "Couldn't find project to render.".to_owned(),
            RenderingError::ProjectMetadataMissing => "Couldn't find project metadata.".to_owned(),
            RenderingError::ConnectionToRenderingServerFailed => "Couldn't connect to a rendering server.".to_owned(),
            RenderingError::TemplateNotFound => "Couldn't find the projects template.".to_owned(),
            RenderingError::CommunicationError => "Communication Error with rendering server occurred.".to_owned(),
            RenderingError::CouldntLoadHandlebarTemplates(log) =>
                "Couldn't register Template: ".to_owned().concat(log.as_str()),
            RenderingError::HandlebarsRenderingFailed(log) =>
                "Couldn't render Template: ".to_owned().concat(log.as_str()),
            RenderingError::MissingExpectedFileToKeep(file, log) =>
                "Couldn't find the expected file ".to_owned().concat(file.as_str()).concat(
                    " after rendering: ",
                ).concat(log.as_str()),
            RenderingError::VivliostyleRenderingFailed(log) =>
                "Couldn't render PDF with vivliostyle: ".to_owned().concat(log.as_str()),
            RenderingError::PandocConversionFailed(log) =>
                "Couldn't convert with pandoc: ".to_owned().concat(log.as_str()),
            RenderingError::NoResultFiles => "No file was transmitted. Check your templates export steps.".to_owned(),
            RenderingError::Other(other) => "Error occured: ".to_owned().concat(other.as_str()),
        }
    }
}

/// Where a rendering request stands.
#[derive(Clone, Debug)]
pub enum RenderingStatus {
    QueuedOnLocal,
    PreparingOnLocal,
    PreparedOnLocal,
    SendToRenderingServer,
    RequestingTemplate,
    TransmittingTemplate,
    QueuedOnRendering,
    Running,
    Finished(RenderingResult),
    /// The result was saved locally: path of the result file, path of the result folder
    SavedOnLocal(String, String),
    Failed(RenderingError),
}

/// The position of a status on the path to success; `Failed` stands off it.
pub open spec fn stage(s: RenderingStatus) -> int {
    match s {
        RenderingStatus::QueuedOnLocal => 0,
        RenderingStatus::PreparingOnLocal => 1,
        RenderingStatus::PreparedOnLocal => 2,
        RenderingStatus::SendToRenderingServer => 3,
        RenderingStatus::RequestingTemplate => 4,
        RenderingStatus::TransmittingTemplate => 5,
        RenderingStatus::QueuedOnRendering => 6,
        RenderingStatus::Running => 7,
        RenderingStatus::Finished(_) => 8,
        RenderingStatus::SavedOnLocal(_, _) => 9,
        RenderingStatus::Failed(_) => -1,
    }
}

/// The moves a request may make: one step forward on the path to success,
/// straight from sending to queued on the renderer when the template is
/// already there, or to `Failed` from any state that is not terminal.
pub open spec fn valid_transition(from: RenderingStatus, to: RenderingStatus) -> bool {
    if from is Failed || from is SavedOnLocal {
        false
    } else if to is Failed {
        true
    } else {
        ||| stage(to) == stage(from) + 1
        ||| (from is SendToRenderingServer && to is QueuedOnRendering)
    }
}

/// A sequence of statuses that a request can pass through, one valid move at a time.
pub open spec fn is_status_path(path: Seq<RenderingStatus>) -> bool {
    &&& path.len() > 0
    &&& forall|i: int| 0 <= i < path.len() - 1 ==> valid_transition(#[trigger] path[i], path[i + 1])
}

impl RenderingStatus {
    /// The position of this status on the path to success; -1 for `Failed`.
    pub fn stage(&self) -> (r: i8)
        ensures
            r == stage(*self),
    {
        match self {
            RenderingStatus::QueuedOnLocal => 0,
            RenderingStatus::PreparingOnLocal => 1,
            RenderingStatus::PreparedOnLocal => 2,
            RenderingStatus::SendToRenderingServer => 3,
            RenderingStatus::RequestingTemplate => 4,
            RenderingStatus::TransmittingTemplate => 5,
            RenderingStatus::QueuedOnRendering => 6,
            RenderingStatus::Running => 7,
            RenderingStatus::Finished(_) => 8,
            RenderingStatus::SavedOnLocal(_, _) => 9,
            RenderingStatus::Failed(_) => -1,
        }
    }

    /// Whether no move leads out of this status.
    pub fn is_terminal(&self) -> (r: bool)
        ensures
            r == (self is Failed || self is SavedOnLocal),
    {
        matches!(self, RenderingStatus::Failed(_) | RenderingStatus::SavedOnLocal(_, _))
    }

    /// Whether a request in this status may move to `next`.
    pub fn can_transition_to(&self, next: &RenderingStatus) -> (r: bool)
        ensures
            r == valid_transition(*self, *next),
    {
        if self.is_terminal() {
            false
        } else if matches!(next, RenderingStatus::Failed(_)) {
            true
        } else {
            let a = self.stage();
            let b = next.stage();
            b == a + 1 || (matches!(self, RenderingStatus::SendToRenderingServer) && matches!(
                next,
                RenderingStatus::QueuedOnRendering
            ))
        }
    }
}

impl Default for RenderingStatus {
    fn default() -> (r: Self)
        ensures
            r is QueuedOnLocal,
    {
        RenderingStatus::QueuedOnLocal
    }
}

/// No move leads out of `Failed`.
pub proof fn lemma_failed_is_absorbing(failed: RenderingStatus, next: RenderingStatus)
    requires
        failed is Failed,
    ensures
        !valid_transition(failed, next),
{
}

/// A path of statuses from `QueuedOnLocal` that reaches `SavedOnLocal` never
/// passes through `Failed`, and on any path `Failed` can only come last.
pub proof fn lemma_status_paths(path: Seq<RenderingStatus>)
    requires
        is_status_path(path),
    ensures
        forall|i: int| 0 <= i < path.len() && (#[trigger] path[i]) is Failed ==> i == path.len() - 1,
        path[0] is QueuedOnLocal && path.last() is SavedOnLocal ==> forall|i: int|
            0 <= i < path.len() ==> !(#[trigger] path[i] is Failed),
{
    assert forall|i: int| 0 <= i < path.len() && (#[trigger] path[i]) is Failed implies i == path.len() - 1 by {
        if i < path.len() - 1 {
            assert(valid_transition(path[i], path[i + 1]));
        }
    }
}

} // verus!
