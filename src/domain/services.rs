//! Services that build records from parts the caller has already checked.

use vstd::prelude::*;
use crate::domain::id::{generate_id, is_id};
use crate::domain::note::{note_slug, Note, NOTE_ID_SIZE, NOTE_SLUG_SOURCE};
use crate::domain::project::{opt_view, Project, PROJECT_ID_SIZE};
use crate::domain::text::{slugify_text, take_chars};
use crate::domain::time::{utc_now, Timestamp};

verus! {

/// Builds and rebuilds notes without checking bounds.
pub struct NoteService {}

impl NoteService {
    /// A new note with a fresh identifier and the current time; the slug is
    /// derived from the title.
    pub fn create_note(&self, title: String, description: String, body: String) -> (r: Note)
        ensures
            is_id(r.id@, NOTE_ID_SIZE as nat),
            r.title@ == title@,
            r.slug@ == note_slug(title@),
            r.description@ == description@,
            r.body@ == body@,
            r.created_at.unix_micros >= 0,
            r.updated_at is None,
    {
        let id = generate_id(NOTE_ID_SIZE);
        let head = take_chars(title.as_str(), NOTE_SLUG_SOURCE);
        let slug = slugify_text(head.as_str());
        Note { id, slug, title, description, body, created_at: utc_now(), updated_at: None }
    }

    /// The note with new title, description and body, stamped as updated now;
    /// identifier and creation time stay.
    pub fn update_note(&self, note: Note, title: String, description: String, body: String) -> (r:
        Note)
        ensures
            r.id@ == note.id@,
            r.created_at == note.created_at,
            r.title@ == title@,
            r.slug@ == note_slug(title@),
            r.description@ == description@,
            r.body@ == body@,
            r.updated_at is Some,
    {
        let head = take_chars(title.as_str(), NOTE_SLUG_SOURCE);
        let slug = slugify_text(head.as_str());
        Note { title, slug, description, body, updated_at: Some(utc_now()), ..note }
    }
}

/// Builds and rebuilds projects without checking bounds.
pub struct ProjectService {}

impl ProjectService {
    /// A new project with a fresh identifier.
    pub fn create_project(
        &self,
        title: String,
        description: String,
        url: Option<String>,
        created_at: Timestamp,
    ) -> (r: Project)
        ensures
            is_id(r.id@, PROJECT_ID_SIZE as nat),
            r.title@ == title@,
            r.description@ == description@,
            opt_view(r.url) == opt_view(url),
            r.created_at == created_at,
    {
        Project { id: generate_id(PROJECT_ID_SIZE), title, description, url, created_at }
    }

    /// The project with new fields; the identifier stays.
    pub fn update_project(
        &self,
        project: Project,
        title: String,
        description: String,
        url: Option<String>,
        created_at: Timestamp,
    ) -> (r: Project)
        ensures
            r.id@ == project.id@,
            r.title@ == title@,
            r.description@ == description@,
            opt_view(r.url) == opt_view(url),
            r.created_at == created_at,
    {
        Project { title, description, url, created_at, ..project }
    }
}

} // verus!
