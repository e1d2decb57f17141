//! In-process Student Memory stores. Each store keeps its records in
//! insertion order; reads select by a key, writes append, replace or
//! remove, and nothing is ever removed as a side effect of another record
//! being removed.
use vstd::prelude::*;

use crate::chat::{ChatMessage, ChatMessageView, ChatSession, ChatSessionView};
use crate::error::AppError;
use crate::ids::{AnnotationId, BookmarkId, ChatSessionId, DocumentId, WorkspaceId};
use crate::memory::{Annotation, AnnotationView, Bookmark, BookmarkView};
use crate::records::{filter_records, is_first_match, no_match, position_record, views, Record};

verus! {

pub open spec fn annotation_in_document(d: DocumentId) -> spec_fn(AnnotationView) -> bool {
    |a: AnnotationView| a.document_id == d
}

pub open spec fn annotation_not_id(id: AnnotationId) -> spec_fn(AnnotationView) -> bool {
    |a: AnnotationView| a.id != id
}

pub open spec fn annotation_has_id(id: AnnotationId) -> spec_fn(AnnotationView) -> bool {
    |a: AnnotationView| a.id == id
}

/// The annotations after `update(a)`: the first one sharing `a`'s id is
/// replaced by `a`; with no such annotation nothing changes.
pub open spec fn annotations_after_update(s: Seq<AnnotationView>, a: AnnotationView) -> Seq<AnnotationView> {
    if exists|i: int| is_first_match(s, annotation_has_id(a.id), i) {
        s.update(choose|i: int| is_first_match(s, annotation_has_id(a.id), i), a)
    } else {
        s
    }
}

/// Annotations, in insertion order.
pub struct InMemoryAnnotationRepository {
    annotations: Vec<Annotation>,
}

impl View for InMemoryAnnotationRepository {
    type V = Seq<AnnotationView>;

    closed spec fn view(&self) -> Seq<AnnotationView> {
        views(self.annotations@)
    }
}

impl InMemoryAnnotationRepository {
    pub fn new() -> (r: Self)
        ensures
            r@ == Seq::<AnnotationView>::empty(),
    {
        let r = InMemoryAnnotationRepository { annotations: Vec::new() };
        assert(r@ =~= Seq::<AnnotationView>::empty());
        r
    }

    /// The annotations of one document, in insertion order.
    pub fn list_for_document(&self, document_id: DocumentId) -> (r: Result<Vec<Annotation>, AppError>)
        ensures
            r matches Ok(v) && views(v@) == self@.filter(annotation_in_document(document_id)),
    {
        let v = filter_records(
            &self.annotations,
            |a: &Annotation| -> (b: bool)
                ensures b == (a@.document_id == document_id)
                { a.document_id == document_id },
            Ghost(annotation_in_document(document_id)),
        );
        Ok(v)
    }

    /// Appends `annotation` as given.
    pub fn insert(&mut self, annotation: Annotation) -> (r: Result<Annotation, AppError>)
        ensures
            r matches Ok(a) && a@ == annotation@,
            final(self)@ == old(self)@.push(annotation@),
    {
        let copy = annotation.duplicate();
        self.annotations.push(annotation);
        assert(views(self.annotations@) =~= views(old(self).annotations@).push(copy@));
        Ok(copy)
    }

    /// Replaces the first annotation sharing `annotation`'s id; an unknown
    /// id changes nothing. Returns `annotation` either way.
    pub fn update(&mut self, annotation: Annotation) -> (r: Result<Annotation, AppError>)
        ensures
            r matches Ok(a) && a@ == annotation@,
            final(self)@ == annotations_after_update(old(self)@, annotation@),
    {
        let id = annotation.id;
        let pos = position_record(
            &self.annotations,
            |a: &Annotation| -> (b: bool)
                ensures b == (a@.id == id)
                { a.id == id },
            Ghost(annotation_has_id(id)),
        );
        let copy = annotation.duplicate();
        match pos {
            Some(i) => {
                self.annotations.set(i, annotation);
                proof {
                    let s = old(self)@;
                    let p = annotation_has_id(copy@.id);
                    assert(is_first_match(s, p, i as int));
                    let j = choose|j: int| is_first_match(s, p, j);
                    assert(is_first_match(s, p, j));
                    if j < i {
                        assert(!p(s[j]));
                    } else if i < j {
                        assert(!p(s[i as int]));
                    }
                    assert(j == i);
                    assert(views(self.annotations@) =~= s.update(i as int, copy@));
                }
            },
            None => {
                proof {
                    let s = old(self)@;
                    let p = annotation_has_id(id);
                    assert(no_match(s, p));
                    if exists|i: int| is_first_match(s, p, i) {
                        let j = choose|j: int| is_first_match(s, p, j);
                        assert(p(s[j]));
                    }
                    
                }
            },
        }
        Ok(copy)
    }

    /// Removes every annotation with id `id`.
    pub fn delete(&mut self, id: AnnotationId) -> (r: Result<(), AppError>)
        ensures
            r is Ok,
            final(self)@ == old(self)@.filter(annotation_not_id(id)),
    {
        let kept = filter_records(
            &self.annotations,
            |a: &Annotation| -> (b: bool)
                ensures b == (a@.id != id)
                { a.id != id },
            Ghost(annotation_not_id(id)),
        );
        self.annotations = kept;
        Ok(())
    }
}

pub open spec fn bookmark_in_document(d: DocumentId) -> spec_fn(BookmarkView) -> bool {
    |b: BookmarkView| b.document_id == d
}

pub open spec fn bookmark_not_id(id: BookmarkId) -> spec_fn(BookmarkView) -> bool {
    |b: BookmarkView| b.id != id
}

/// Bookmarks, in insertion order.
pub struct InMemoryBookmarkRepository {
    bookmarks: Vec<Bookmark>,
}

impl View for InMemoryBookmarkRepository {
    type V = Seq<BookmarkView>;

    closed spec fn view(&self) -> Seq<BookmarkView> {
        views(self.bookmarks@)
    }
}

impl InMemoryBookmarkRepository {
    pub fn new() -> (r: Self)
        ensures
            r@ == Seq::<BookmarkView>::empty(),
    {
        let r = InMemoryBookmarkRepository { bookmarks: Vec::new() };
        assert(r@ =~= Seq::<BookmarkView>::empty());
        r
    }

    /// The bookmarks of one document, in insertion order.
    pub fn list_for_document(&self, document_id: DocumentId) -> (r: Result<Vec<Bookmark>, AppError>)
        ensures
            r matches Ok(v) && views(v@) == self@.filter(bookmark_in_document(document_id)),
    {
        let v = filter_records(
            &self.bookmarks,
            |b: &Bookmark| -> (r: bool)
                ensures r == (b@.document_id == document_id)
                { b.document_id == document_id },
            Ghost(bookmark_in_document(document_id)),
        );
        Ok(v)
    }

    /// Appends `bookmark` as given.
    pub fn insert(&mut self, bookmark: Bookmark) -> (r: Result<Bookmark, AppError>)
        ensures
            r matches Ok(b) && b@ == bookmark@,
            final(self)@ == old(self)@.push(bookmark@),
    {
        let copy = bookmark.duplicate();
        self.bookmarks.push(bookmark);
        assert(views(self.bookmarks@) =~= views(old(self).bookmarks@).push(copy@));
        Ok(copy)
    }

    /// Removes every bookmark with id `id`.
    pub fn delete(&mut self, id: BookmarkId) -> (r: Result<(), AppError>)
        ensures
            r is Ok,
            final(self)@ == old(self)@.filter(bookmark_not_id(id)),
    {
        let kept = filter_records(
            &self.bookmarks,
            |b: &Bookmark| -> (r: bool)
                ensures r == (b@.id != id)
                { b.id != id },
            Ghost(bookmark_not_id(id)),
        );
        self.bookmarks = kept;
        Ok(())
    }
}

pub open spec fn session_in_workspace(w: WorkspaceId) -> spec_fn(ChatSessionView) -> bool {
    |s: ChatSessionView| s.workspace_id == w
}

pub open spec fn message_in_session(id: ChatSessionId) -> spec_fn(ChatMessageView) -> bool {
    |m: ChatMessageView| m.session_id == id
}

/// Chat sessions and messages, each in insertion order.
pub struct InMemoryChatRepository {
    sessions: Vec<ChatSession>,
    messages: Vec<ChatMessage>,
}

impl InMemoryChatRepository {
    pub closed spec fn sessions(&self) -> Seq<ChatSessionView> {
        views(self.sessions@)
    }

    pub closed spec fn messages(&self) -> Seq<ChatMessageView> {
        views(self.messages@)
    }

    pub fn new() -> (r: Self)
        ensures
            r.sessions() == Seq::<ChatSessionView>::empty(),
            r.messages() == Seq::<ChatMessageView>::empty(),
    {
        let r = InMemoryChatRepository { sessions: Vec::new(), messages: Vec::new() };
        assert(r.sessions() =~= Seq::<ChatSessionView>::empty());
        assert(r.messages() =~= Seq::<ChatMessageView>::empty());
        r
    }

    /// The sessions of one workspace, in creation order.
    pub fn list_sessions_for_workspace(&self, workspace_id: WorkspaceId) -> (r: Result<Vec<ChatSession>, AppError>)
        ensures
            r matches Ok(v) && views(v@) == self.sessions().filter(session_in_workspace(workspace_id)),
    {
        let v = filter_records(
            &self.sessions,
            |s: &ChatSession| -> (r: bool)
                ensures r == (s@.workspace_id == workspace_id)
                { s.workspace_id == workspace_id },
            Ghost(session_in_workspace(workspace_id)),
        );
        Ok(v)
    }

    /// Appends `session` as given.
    pub fn create_session(&mut self, session: ChatSession) -> (r: Result<ChatSession, AppError>)
        ensures
            r matches Ok(s) && s@ == session@,
            final(self).sessions() == old(self).sessions().push(session@),
            final(self).messages() == old(self).messages(),
    {
        let copy = session.duplicate();
        self.sessions.push(session);
        assert(views(self.sessions@) =~= views(old(self).sessions@).push(copy@));
        Ok(copy)
    }

    /// Appends `message` as given.
    pub fn append_message(&mut self, message: ChatMessage) -> (r: Result<ChatMessage, AppError>)
        ensures
            r matches Ok(m) && m@ == message@,
            final(self).messages() == old(self).messages().push(message@),
            final(self).sessions() == old(self).sessions(),
    {
        let copy = message.duplicate();
        self.messages.push(message);
        assert(views(self.messages@) =~= views(old(self).messages@).push(copy@));
        Ok(copy)
    }

    /// The messages of one session, in the order they were appended.
    pub fn list_messages(&self, session_id: ChatSessionId) -> (r: Result<Vec<ChatMessage>, AppError>)
        ensures
            r matches Ok(v) && views(v@) == self.messages().filter(message_in_session(session_id)),
    {
        let v = filter_records(
            &self.messages,
            |m: &ChatMessage| -> (r: bool)
                ensures r == (m@.session_id == session_id)
                { m.session_id == session_id },
            Ghost(message_in_session(session_id)),
        );
        Ok(v)
    }
}

/// An inserted annotation is listed for its document, after the
/// document's earlier annotations; the listing of every other document is
/// unchanged.
pub proof fn law_inserted_annotation_is_listed(s: Seq<AnnotationView>, a: AnnotationView, d: DocumentId)
    ensures
        s.push(a).filter(annotation_in_document(a.document_id)) == s.filter(annotation_in_document(a.document_id)).push(
            a,
        ),
        d != a.document_id ==> s.push(a).filter(annotation_in_document(d)) == s.filter(annotation_in_document(d)),
{
    reveal(Seq::filter);
    assert(s.push(a).drop_last() =~= s);
}

/// After a bookmark is deleted no bookmark with its id is left, and every
/// other bookmark stays, in order.
pub proof fn law_deleted_bookmark_is_gone(s: Seq<BookmarkView>, id: BookmarkId)
    ensures
        forall|k: int|
            0 <= k < s.filter(bookmark_not_id(id)).len() ==> #[trigger] s.filter(bookmark_not_id(id))[k].id != id,
        forall|b: BookmarkView| b.id != id && s.contains(b) ==> #[trigger] s.filter(bookmark_not_id(id)).contains(b),
{
    assert forall|k: int| 0 <= k < s.filter(bookmark_not_id(id)).len() implies #[trigger] s.filter(
        bookmark_not_id(id),
    )[k].id != id by {
        s.lemma_filter_pred(bookmark_not_id(id), k);
    }
    assert forall|b: BookmarkView| b.id != id && s.contains(b) implies #[trigger] s.filter(
        bookmark_not_id(id),
    ).contains(b) by {
        let i = choose|i: int| 0 <= i < s.len() && s[i] == b;
        s.lemma_filter_contains(bookmark_not_id(id), i);
    }
}

} // verus!
