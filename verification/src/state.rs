use vstd::prelude::*;

use crate::error::AppError;
use crate::ids::{DocumentId, WorkspaceId};

verus! {

/// The session's focus: which workspace and which document are active.
///
/// Nothing here is persisted; it starts empty in every process. A document
/// belongs to one workspace, so switching (or clearing) the workspace also
/// clears the active document.
pub struct AppState {
    active_workspace_id: Option<WorkspaceId>,
    active_document_id: Option<DocumentId>,
}

impl AppState {
    pub closed spec fn workspace(&self) -> Option<WorkspaceId> {
        self.active_workspace_id
    }

    pub closed spec fn document(&self) -> Option<DocumentId> {
        self.active_document_id
    }

    /// A state with nothing active.
    pub fn new() -> (r: Self)
        ensures
            r.workspace() is None,
            r.document() is None,
    {
        AppState { active_workspace_id: None, active_document_id: None }
    }

    pub fn active_workspace_id(&self) -> (r: Result<Option<WorkspaceId>, AppError>)
        ensures
            r == Ok::<Option<WorkspaceId>, AppError>(self.workspace()),
    {
        Ok(self.active_workspace_id)
    }

    /// Makes `id` the active workspace and clears the active document.
    pub fn set_active_workspace_id(&mut self, id: Option<WorkspaceId>) -> (r: Result<(), AppError>)
        ensures
            r is Ok,
            final(self).workspace() == id,
            final(self).document() is None,
    {
        self.active_workspace_id = id;
        self.active_document_id = None;
        Ok(())
    }

    pub fn active_document_id(&self) -> (r: Result<Option<DocumentId>, AppError>)
        ensures
            r == Ok::<Option<DocumentId>, AppError>(self.document()),
    {
        Ok(self.active_document_id)
    }

    /// Makes `id` the active document; the active workspace is unchanged.
    pub fn set_active_document_id(&mut self, id: Option<DocumentId>) -> (r: Result<(), AppError>)
        ensures
            r is Ok,
            final(self).document() == id,
            final(self).workspace() == old(self).workspace(),
    {
        self.active_document_id = id;
        Ok(())
    }
}

} // verus!
