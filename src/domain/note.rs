//! Notes: short texts with a title, a slug and a description derived from
//! them, and their construction and update rules.

use vstd::prelude::*;
use crate::domain::field_errors::{
    has_field, insert_sorted, length_error, too_long, with_error, FieldEntry, FieldErrors,
};
use crate::domain::id::{generate_id, is_id};
use crate::domain::text::{is_slug, prefix, slug_of, slugify_text, take_chars};
use crate::domain::time::{utc_now, Timestamp};
use crate::domain::text;

verus! {

/// Length of a note identifier.
pub const NOTE_ID_SIZE: usize = 16;

/// Longest title, in characters.
pub const NOTE_TITLE_MAX: usize = 128;

/// Longest description, in characters.
pub const NOTE_DESCRIPTION_MAX: usize = 256;

/// Longest body, in characters.
pub const NOTE_BODY_MAX: usize = 32768;

/// How many leading characters of the title the slug is made from.
pub const NOTE_SLUG_SOURCE: usize = 50;

pub type NoteId = String;

/// A note as the contracts see it.
pub struct NoteView {
    pub id: Seq<char>,
    pub slug: Seq<char>,
    pub title: Seq<char>,
    pub description: Seq<char>,
    pub body: Seq<char>,
    pub created_at: Timestamp,
    pub updated_at: Option<Timestamp>,
}

/// A note.
#[derive(Clone, Debug)]
pub struct Note {
    /// Opaque identifier, used for internal lookups.
    pub id: NoteId,
    /// URL-friendly form of the title.
    pub slug: String,
    pub title: String,
    /// The opening characters of the body.
    pub description: String,
    pub body: String,
    pub created_at: Timestamp,
    pub updated_at: Option<Timestamp>,
}

/// A note without its body, as listings show it.
#[derive(Clone, Debug)]
pub struct NoteListItem {
    pub id: NoteId,
    pub slug: String,
    pub title: String,
    pub description: String,
    pub created_at: Timestamp,
    pub updated_at: Option<Timestamp>,
}

impl View for Note {
    type V = NoteView;

    open spec fn view(&self) -> NoteView {
        NoteView {
            id: self.id@,
            slug: self.slug@,
            title: self.title@,
            description: self.description@,
            body: self.body@,
            created_at: self.created_at,
            updated_at: self.updated_at,
        }
    }
}

/// The slug a title gives: the slug of its first 50 characters.
pub open spec fn note_slug(title: Seq<char>) -> Seq<char> {
    slug_of(prefix(title, NOTE_SLUG_SOURCE as nat))
}

/// The description a body gives: its first 256 characters.
pub open spec fn note_description(body: Seq<char>) -> Seq<char> {
    prefix(body, NOTE_DESCRIPTION_MAX as nat)
}

/// Every bound that a title and a body break, by field name.
pub open spec fn note_errors(title: Seq<char>, body: Seq<char>) -> Seq<FieldEntry> {
    with_error(
        with_error(Seq::empty(), "title"@, length_error(title, NOTE_TITLE_MAX as nat)),
        "body"@,
        length_error(body, NOTE_BODY_MAX as nat),
    )
}

/// The invariants of a note: bounded title and body, derived slug and
/// description, a 16-character identifier, no update before creation.
pub open spec fn note_wf(n: NoteView) -> bool {
    &&& is_id(n.id, NOTE_ID_SIZE as nat)
    &&& 1 <= n.title.len() <= NOTE_TITLE_MAX
    &&& 1 <= n.body.len() <= NOTE_BODY_MAX
    &&& n.slug == note_slug(n.title)
    &&& n.description == note_description(n.body)
}

/// The note that `Note::assemble` builds from valid parts.
pub open spec fn assembled_note(
    id: Seq<char>,
    title: Seq<char>,
    body: Seq<char>,
    created_at: Timestamp,
) -> NoteView {
    NoteView {
        id,
        slug: note_slug(title),
        title,
        description: note_description(body),
        body,
        created_at,
        updated_at: None,
    }
}

/// The note that an update with valid parts leaves behind.
pub open spec fn updated_note(n: NoteView, title: Seq<char>, body: Seq<char>, now: Timestamp) -> NoteView {
    NoteView {
        slug: note_slug(title),
        title,
        description: note_description(body),
        body,
        updated_at: Some(now),
        ..n
    }
}

/// Checks a title and a body against the note bounds.
pub fn check_note_fields(title: &str, body: &str) -> (r: FieldErrors)
    ensures
        r@ == note_errors(title@, body@),
{
    let mut errors = FieldErrors::new();
    let title_len = title.unicode_len();
    if title_len == 0 {
        errors.insert(String::from_str("title"), String::from_str("must not be empty"));
    } else if title_len > NOTE_TITLE_MAX {
        errors.insert(String::from_str("title"), too_long(title_len, NOTE_TITLE_MAX));
    }
    let body_len = body.unicode_len();
    if body_len == 0 {
        errors.insert(String::from_str("body"), String::from_str("must not be empty"));
    } else if body_len > NOTE_BODY_MAX {
        errors.insert(String::from_str("body"), too_long(body_len, NOTE_BODY_MAX));
    }
    errors
}

impl Note {
    /// Builds a note from an identifier and a creation time already at hand.
    /// Fails, naming each field at fault, when the title or the body is empty
    /// or too long.
    pub fn assemble(id: String, title: String, body: String, created_at: Timestamp) -> (r: Result<
        Note,
        FieldErrors,
    >)
        ensures
            match r {
                Ok(n) => note_errors(title@, body@).len() == 0 && n@ == assembled_note(
                    id@,
                    title@,
                    body@,
                    created_at,
                ) && is_slug(n.slug@),
                Err(e) => note_errors(title@, body@).len() > 0 && e@ == note_errors(title@, body@),
            },
    {
        let errors = check_note_fields(title.as_str(), body.as_str());
        if !errors.is_empty() {
            return Err(errors);
        }
        let head = take_chars(title.as_str(), NOTE_SLUG_SOURCE);
        let slug = slugify_text(head.as_str());
        let description = take_chars(body.as_str(), NOTE_DESCRIPTION_MAX);
        Ok(Note { id, slug, title, description, body, created_at, updated_at: None })
    }

    /// Creates a note with a fresh identifier, stamped with the current time.
    /// Fails, naming each field at fault, when the title or the body is empty
    /// or too long.
    pub fn create(title: String, body: String) -> (r: Result<Note, FieldErrors>)
        ensures
            match r {
                Ok(n) => {
                    &&& note_errors(title@, body@).len() == 0
                    &&& n.title@ == title@
                    &&& n.body@ == body@
                    &&& n.slug@ == note_slug(title@)
                    &&& is_slug(n.slug@)
                    &&& n.description@ == note_description(body@)
                    &&& is_id(n.id@, NOTE_ID_SIZE as nat)
                    &&& n.updated_at is None
                    &&& n.created_at.unix_micros >= 0
                    &&& note_wf(n@)
                },
                Err(e) => note_errors(title@, body@).len() > 0 && e@ == note_errors(title@, body@),
            },
    {
        let errors = check_note_fields(title.as_str(), body.as_str());
        if !errors.is_empty() {
            return Err(errors);
        }
        let id = generate_id(NOTE_ID_SIZE);
        let now = utc_now();
        proof {
            lemma_valid_lengths(title@, body@);
        }
        Note::assemble(id, title, body, now)
    }

    /// Replaces title and body as of time `now`, deriving slug and description
    /// again. On failure the note is left as it was.
    pub fn update_at(&mut self, title: String, body: String, now: Timestamp) -> (r: Result<
        (),
        FieldErrors,
    >)
        ensures
            match r {
                Ok(_) => note_errors(title@, body@).len() == 0 && final(self)@ == updated_note(
                    old(self)@,
                    title@,
                    body@,
                    now,
                ),
                Err(e) => {
                    &&& note_errors(title@, body@).len() > 0
                    &&& e@ == note_errors(title@, body@)
                    &&& final(self)@ == old(self)@
                },
            },
    {
        let errors = check_note_fields(title.as_str(), body.as_str());
        if !errors.is_empty() {
            return Err(errors);
        }
        let head = take_chars(title.as_str(), NOTE_SLUG_SOURCE);
        self.slug = slugify_text(head.as_str());
        self.description = take_chars(body.as_str(), NOTE_DESCRIPTION_MAX);
        self.title = title;
        self.body = body;
        self.updated_at = Some(now);
        Ok(())
    }

    /// Replaces title and body, stamping the current time.
    pub fn update(&mut self, title: String, body: String) -> (r: Result<(), FieldErrors>)
        ensures
            match r {
                Ok(_) => {
                    &&& note_errors(title@, body@).len() == 0
                    &&& final(self).title@ == title@
                    &&& final(self).body@ == body@
                    &&& final(self).slug@ == note_slug(title@)
                    &&& final(self).description@ == note_description(body@)
                    &&& final(self).id@ == old(self).id@
                    &&& final(self).created_at == old(self).created_at
                    &&& final(self).updated_at is Some
                },
                Err(e) => {
                    &&& note_errors(title@, body@).len() > 0
                    &&& e@ == note_errors(title@, body@)
                    &&& final(self)@ == old(self)@
                },
            },
    {
        let now = utc_now();
        self.update_at(title, body, now)
    }

    /// An identical copy.
    pub fn duplicate(&self) -> (r: Note)
        ensures
            r@ == self@,
    {
        Note {
            id: self.id.clone(),
            slug: self.slug.clone(),
            title: self.title.clone(),
            description: self.description.clone(),
            body: self.body.clone(),
            created_at: self.created_at,
            updated_at: self.updated_at,
        }
    }

    /// The listing form: everything but the body.
    pub fn list_item(&self) -> (r: NoteListItem)
        ensures
            r.id@ == self.id@,
            r.slug@ == self.slug@,
            r.title@ == self.title@,
            r.description@ == self.description@,
            r.created_at == self.created_at,
            r.updated_at == self.updated_at,
    {
        NoteListItem {
            id: self.id.clone(),
            slug: self.slug.clone(),
            title: self.title.clone(),
            description: self.description.clone(),
            created_at: self.created_at,
            updated_at: self.updated_at,
        }
    }
}

/// Within the bounds there is nothing to report.
proof fn lemma_valid_lengths(title: Seq<char>, body: Seq<char>)
    requires
        note_errors(title, body).len() == 0,
    ensures
        1 <= title.len() <= NOTE_TITLE_MAX,
        1 <= body.len() <= NOTE_BODY_MAX,
{
    lemma_note_errors_fields(title, body);
}

/// The failures name exactly the fields whose bounds are broken.
pub proof fn lemma_note_errors_fields(title: Seq<char>, body: Seq<char>)
    ensures
        has_field(note_errors(title, body), "title"@) <==> (title.len() == 0 || title.len()
            > NOTE_TITLE_MAX),
        has_field(note_errors(title, body), "body"@) <==> (body.len() == 0 || body.len()
            > NOTE_BODY_MAX),
        note_errors(title, body).len() == 0 <==> (1 <= title.len() <= NOTE_TITLE_MAX && 1
            <= body.len() <= NOTE_BODY_MAX),
{
    reveal_strlit("title");
    reveal_strlit("body");
    let t = "title"@;
    let b = "body"@;
    assert(t[0] == 't' && b[0] == 'b');
    assert(t != b);
    assert(text::text_lt(b, t));
    let e1 = with_error(Seq::empty(), t, length_error(title, NOTE_TITLE_MAX as nat));
    let e2 = note_errors(title, body);
    match length_error(title, NOTE_TITLE_MAX as nat) {
        Some(m) => {
            assert(e1 =~= seq![(t, m)]);
        },
        None => {
            assert(e1 =~= Seq::<FieldEntry>::empty());
        },
    }
    match length_error(body, NOTE_BODY_MAX as nat) {
        Some(m) => {
            if e1.len() == 0 {
                assert(e2 =~= seq![(b, m)]);
            } else {
                assert(insert_sorted(e1.drop_first(), b, m) =~= seq![(b, m)]);
                assert(e2 =~= seq![(b, m), e1[0]]);
            }
        },
        None => {
            assert(e2 == e1);
        },
    }
    if has_field(e2, t) {
        let i = choose|i: int| 0 <= i < e2.len() && #[trigger] e2[i].0 == t;
        assert(e2[i].0 == t);
    }
    if has_field(e2, b) {
        let i = choose|i: int| 0 <= i < e2.len() && #[trigger] e2[i].0 == b;
        assert(e2[i].0 == b);
    }
    if title.len() == 0 || title.len() > NOTE_TITLE_MAX {
        assert(e2[e2.len() - 1].0 == t);
    }
    if body.len() == 0 || body.len() > NOTE_BODY_MAX {
        assert(e2[0].0 == b);
    }
}

/// A title over 128 characters or a body over 32768 characters makes
/// construction fail, and the failures name exactly the fields at fault.
pub proof fn lemma_note_bounds(title: Seq<char>, body: Seq<char>)
    requires
        title.len() > NOTE_TITLE_MAX || body.len() > NOTE_BODY_MAX,
    ensures
        note_errors(title, body).len() > 0,
        has_field(note_errors(title, body), "title"@) <==> (title.len() == 0 || title.len()
            > NOTE_TITLE_MAX),
        has_field(note_errors(title, body), "body"@) <==> (body.len() == 0 || body.len()
            > NOTE_BODY_MAX),
{
    lemma_note_errors_fields(title, body);
}

/// The slug of a created note comes from the first 50 characters of its
/// title, and is made of lowercase letters, digits and single hyphens.
pub proof fn lemma_note_slug(id: Seq<char>, title: Seq<char>, body: Seq<char>, at: Timestamp)
    ensures
        assembled_note(id, title, body, at).slug == slug_of(prefix(title, 50)),
        assembled_note(id, title, body, at).description == prefix(body, 256),
{
}

/// An update stamped no earlier than the creation time keeps `updated_at`
/// set and not before `created_at`.
pub proof fn lemma_update_time(n: NoteView, title: Seq<char>, body: Seq<char>, now: Timestamp)
    requires
        now.unix_micros >= n.created_at.unix_micros,
    ensures
        updated_note(n, title, body, now).updated_at matches Some(u) && u.unix_micros
            >= updated_note(n, title, body, now).created_at.unix_micros,
        assembled_note(n.id, title, body, now).updated_at is None,
{
}

} // verus!
