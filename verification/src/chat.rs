//! Conversation memory: chat sessions and their messages.
use vstd::prelude::*;

use crate::ids::{ChatMessageId, ChatSessionId, DocumentId, WorkspaceId};
use crate::records::{duplicate_opt_string, opt_string_view, Record};

verus! {

/// The answering regime a chat session runs under.
#[derive(Debug, Clone, Copy, PartialEq, Eq, Structural)]
pub enum ChatMode {
    Normal,
    Research,
    ExamRestricted,
}

/// Who wrote a chat message.
#[derive(Debug, Clone, Copy, PartialEq, Eq, Structural)]
pub enum ChatRole {
    User,
    Assistant,
}

#[derive(Debug, Clone)]
pub struct ChatSession {
    pub id: ChatSessionId,
    pub workspace_id: WorkspaceId,
    pub document_id: Option<DocumentId>,
    pub title: String,
    pub mode: ChatMode,
    pub created_at: String,
    pub updated_at: String,
}

pub ghost struct ChatSessionView {
    pub id: ChatSessionId,
    pub workspace_id: WorkspaceId,
    pub document_id: Option<DocumentId>,
    pub title: Seq<char>,
    pub mode: ChatMode,
    pub created_at: Seq<char>,
    pub updated_at: Seq<char>,
}

impl View for ChatSession {
    type V = ChatSessionView;

    open spec fn view(&self) -> ChatSessionView {
        ChatSessionView {
            id: self.id,
            workspace_id: self.workspace_id,
            document_id: self.document_id,
            title: self.title@,
            mode: self.mode,
            created_at: self.created_at@,
            updated_at: self.updated_at@,
        }
    }
}

impl Record for ChatSession {
    fn duplicate(&self) -> (r: Self) {
        ChatSession {
            id: self.id,
            workspace_id: self.workspace_id,
            document_id: self.document_id,
            title: self.title.clone(),
            mode: self.mode,
            created_at: self.created_at.clone(),
            updated_at: self.updated_at.clone(),
        }
    }
}

#[derive(Debug, Clone)]
pub struct ChatMessage {
    pub id: ChatMessageId,
    pub session_id: ChatSessionId,
    pub role: ChatRole,
    pub content: String,
    pub engine_pipeline_used: Option<String>,
    pub created_at: String,
}

pub ghost struct ChatMessageView {
    pub id: ChatMessageId,
    pub session_id: ChatSessionId,
    pub role: ChatRole,
    pub content: Seq<char>,
    pub engine_pipeline_used: Option<Seq<char>>,
    pub created_at: Seq<char>,
}

impl View for ChatMessage {
    type V = ChatMessageView;

    open spec fn view(&self) -> ChatMessageView {
        ChatMessageView {
            id: self.id,
            session_id: self.session_id,
            role: self.role,
            content: self.content@,
            engine_pipeline_used: opt_string_view(self.engine_pipeline_used),
            created_at: self.created_at@,
        }
    }
}

impl Record for ChatMessage {
    fn duplicate(&self) -> (r: Self) {
        ChatMessage {
            id: self.id,
            session_id: self.session_id,
            role: self.role,
            content: self.content.clone(),
            engine_pipeline_used: duplicate_opt_string(&self.engine_pipeline_used),
            created_at: self.created_at.clone(),
        }
    }
}

} // verus!
