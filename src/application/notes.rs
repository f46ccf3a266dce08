//! Creating notes and reading them by identifier or slug.

use vstd::prelude::*;
use crate::adapters::token::IdTokenProvider;
use crate::application::exceptions::{ApplicationError, ErrorView};
use crate::application::note_gateway::{NoteReader, NoteWriter};
use crate::application::pagination::{page_window, pagination_errors, PageRequest};
use crate::application::projects::create_project_failure;
use crate::application::users::create_user_failure;
use crate::domain::id::is_id;
use crate::domain::note::{
    note_description, note_errors, note_slug, Note, NoteId, NoteListItem, NOTE_ID_SIZE,
};
use crate::domain::time::Timestamp;

verus! {

/// A request to create a note.
#[derive(Debug)]
pub struct CreateNoteRequest {
    pub title: String,
    pub body: String,
}

/// The note as created.
#[derive(Debug)]
pub struct CreateNoteResult {
    pub id: NoteId,
    pub slug: String,
    pub title: String,
    pub description: String,
    pub body: String,
    pub created_at: Timestamp,
    pub updated_at: Option<Timestamp>,
}

/// Creates a note for a signed-in caller.
pub struct CreateNote {
    pub id_provider: IdTokenProvider,
}

/// The failure a note creation meets, if any.
pub open spec fn create_note_failure(is_auth: bool, title: Seq<char>, body: Seq<char>) -> Option<
    ErrorView,
> {
    if !is_auth {
        Some(ErrorView::Unauthorized)
    } else if note_errors(title, body).len() > 0 {
        Some(ErrorView::ValidationError(note_errors(title, body)))
    } else {
        None
    }
}

impl CreateNote {
    /// Checks the caller and builds the note, without storing it.
    pub fn prepare(&self, data: CreateNoteRequest) -> (r: Result<Note, ApplicationError>)
        ensures
            match create_note_failure(self.id_provider@.is_auth, data.title@, data.body@) {
                Some(e) => r matches Err(x) && x@ == e,
                None => r matches Ok(n) && n.title@ == data.title@ && n.body@ == data.body@
                    && n.slug@ == note_slug(data.title@) && n.description@ == note_description(
                    data.body@,
                ) && is_id(n.id@, NOTE_ID_SIZE as nat) && n.updated_at is None
                    && n.created_at.unix_micros >= 0,
            },
    {
        if !self.id_provider.signed_in() {
            return Err(ApplicationError::Unauthorized);
        }
        match Note::create(data.title, data.body) {
            Ok(n) => Ok(n),
            Err(e) => Err(ApplicationError::ValidationError(e)),
        }
    }

    /// Creates the note and stores it through `note_writer`. An anonymous
    /// caller or a broken bound leaves the store untouched.
    pub fn execute<W: NoteWriter>(&self, note_writer: &mut W, data: CreateNoteRequest) -> (r:
        Result<CreateNoteResult, ApplicationError>)
        ensures
            match create_note_failure(self.id_provider@.is_auth, data.title@, data.body@) {
                Some(e) => (r matches Err(x) && x@ == e) && *final(note_writer) == *old(note_writer),
                None => r matches Ok(n) && n.title@ == data.title@ && n.body@ == data.body@
                    && n.slug@ == note_slug(data.title@) && n.description@ == note_description(
                    data.body@,
                ) && is_id(n.id@, NOTE_ID_SIZE as nat) && n.updated_at is None
                    && n.created_at.unix_micros >= 0,
            },
    {
        let note = self.prepare(data)?;
        note_writer.save(&note);
        Ok(CreateNoteResult::from_note(note))
    }
}

impl CreateNoteResult {
    /// The record of a created note: every field of `note`, the one handed
    /// to the writer.
    pub fn from_note(note: Note) -> (r: CreateNoteResult)
        ensures
            r.id@ == note.id@,
            r.slug@ == note.slug@,
            r.title@ == note.title@,
            r.description@ == note.description@,
            r.body@ == note.body@,
            r.created_at == note.created_at,
            r.updated_at == note.updated_at,
    {
        CreateNoteResult {
            id: note.id,
            slug: note.slug,
            title: note.title,
            description: note.description,
            body: note.body,
            created_at: note.created_at,
            updated_at: note.updated_at,
        }
    }
}

/// Every write use case turns an anonymous caller away with `Unauthorized`,
/// whatever the inputs; their `execute` then leaves the store as it was.
pub proof fn lemma_identity_gate(
    title: Seq<char>,
    body: Seq<char>,
    description: Seq<char>,
    url: Option<Seq<char>>,
    username: Seq<char>,
)
    ensures
        create_note_failure(false, title, body) == Some(ErrorView::Unauthorized),
        create_project_failure(false, title, description, url) == Some(ErrorView::Unauthorized),
        create_user_failure(false, username) == Some(ErrorView::Unauthorized),
{
}

/// A note as read back.
#[derive(Debug)]
pub struct NoteResult {
    pub id: NoteId,
    pub slug: String,
    pub title: String,
    pub description: String,
    pub body: String,
    pub created_at: Timestamp,
    pub updated_at: Option<Timestamp>,
}

impl NoteResult {
    /// All fields of `note`.
    pub fn from_note(note: Note) -> (r: NoteResult)
        ensures
            r.id@ == note.id@,
            r.slug@ == note.slug@,
            r.title@ == note.title@,
            r.description@ == note.description@,
            r.body@ == note.body@,
            r.created_at == note.created_at,
            r.updated_at == note.updated_at,
    {
        NoteResult {
            id: note.id,
            slug: note.slug,
            title: note.title,
            description: note.description,
            body: note.body,
            created_at: note.created_at,
            updated_at: note.updated_at,
        }
    }

    /// The result for what the store returned: the note, or `NotFound`.
    pub fn from_lookup(found: Option<Note>) -> (r: Result<NoteResult, ApplicationError>)
        ensures
            match found {
                Some(n) => r matches Ok(x) && x.id@ == n.id@ && x.slug@ == n.slug@ && x.title@
                    == n.title@ && x.body@ == n.body@ && x.description@ == n.description@
                    && x.created_at == n.created_at && x.updated_at == n.updated_at,
                None => r matches Err(e) && e@ == ErrorView::NotFound,
            },
    {
        match found {
            Some(n) => Ok(NoteResult::from_note(n)),
            None => Err(ApplicationError::NotFound),
        }
    }
}

pub type GetByIdNoteResult = NoteResult;

pub type GetBySlugNoteResult = NoteResult;

/// A request for a note by identifier.
#[derive(Debug)]
pub struct GetByIdNoteRequest {
    pub id: NoteId,
}

/// Reads a note by identifier; open to everyone.
pub struct GetByIdNote<'a, R: NoteReader> {
    pub note_reader: &'a R,
}

impl<'a, R: NoteReader> GetByIdNote<'a, R> {
    /// The note stored under the identifier, or `NotFound`.
    pub fn execute(&self, data: GetByIdNoteRequest) -> (r: Result<GetByIdNoteResult, ApplicationError>)
        ensures
            r matches Err(e) ==> e@ == ErrorView::NotFound,
    {
        let found = self.note_reader.get(&data.id);
        NoteResult::from_lookup(found)
    }
}

/// A request for a note by slug.
#[derive(Debug)]
pub struct GetBySlugNoteRequest {
    pub slug: String,
}

/// Reads a note by slug; open to everyone.
pub struct GetBySlugNote<'a, R: NoteReader> {
    pub note_reader: &'a R,
}

impl<'a, R: NoteReader> GetBySlugNote<'a, R> {
    /// A note stored under the slug, or `NotFound`.
    pub fn execute(&self, data: GetBySlugNoteRequest) -> (r: Result<GetBySlugNoteResult, ApplicationError>)
        ensures
            r matches Err(e) ==> e@ == ErrorView::NotFound,
    {
        let found = self.note_reader.get_by_slug(&data.slug);
        NoteResult::from_lookup(found)
    }
}

/// Lists notes without their bodies, a page at a time; open to everyone.
pub struct ListNotes<'a, R: NoteReader> {
    pub note_reader: &'a R,
}

impl<'a, R: NoteReader> ListNotes<'a, R> {
    /// The notes of the requested page; a malformed page request fails with
    /// the failures by field name.
    pub fn execute(&self, data: PageRequest) -> (r: Result<Vec<NoteListItem>, ApplicationError>)
        ensures
            pagination_errors(data.page, data.per_page).len() == 0 <==> r is Ok,
            r matches Err(e) ==> e@ == ErrorView::ValidationError(
                pagination_errors(data.page, data.per_page),
            ),
    {
        let (limit, offset) = page_window(&data)?;
        Ok(self.note_reader.range(&limit, &offset))
    }
}

} // verus!

