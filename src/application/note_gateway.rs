//! Persistence contracts for notes, split into reading, writing and removal,
//! and an in-memory store that follows them.

use vstd::prelude::*;
use crate::domain::field_errors::text_equal;
use crate::domain::note::{Note, NoteId, NoteListItem, NoteView};

verus! {

/// Looks notes up.
pub trait NoteReader {
    fn get(&self, id: &NoteId) -> Option<Note>;

    fn get_by_slug(&self, slug: &String) -> Option<Note>;

    fn range(&self, limit: &u64, offset: &u64) -> Vec<NoteListItem>;
}

/// Stores a note, inserting or updating by identifier.
pub trait NoteWriter {
    fn save(&mut self, note: &Note);
}

/// Deletes a note by identifier; an unknown identifier is no error.
pub trait NoteRemover {
    fn remove(&mut self, note_id: &NoteId);
}

/// All three capabilities together.
pub trait NoteGateway: NoteReader + NoteWriter + NoteRemover {
}

/// What `save` stores for `n`: `n` itself, keeping the creation time of a
/// note already stored under the same identifier.
pub open spec fn saved_note(store: Map<Seq<char>, NoteView>, n: NoteView) -> NoteView {
    if store.contains_key(n.id) {
        NoteView { created_at: store[n.id].created_at, ..n }
    } else {
        n
    }
}

/// The store after `save(n)`: an upsert keyed by identifier.
pub open spec fn upsert_note(store: Map<Seq<char>, NoteView>, n: NoteView) -> Map<
    Seq<char>,
    NoteView,
> {
    store.insert(n.id, saved_note(store, n))
}

/// The map a list of stored notes stands for.
pub open spec fn notes_map(s: Seq<NoteView>) -> Map<Seq<char>, NoteView>
    decreases s.len(),
{
    if s.len() == 0 {
        Map::empty()
    } else {
        notes_map(s.drop_last()).insert(s.last().id, s.last())
    }
}

/// No identifier occurs twice.
pub open spec fn note_ids_unique(s: Seq<NoteView>) -> bool {
    forall|i: int, j: int| 0 <= i < j < s.len() ==> #[trigger] s[i].id != #[trigger] s[j].id
}

/// With unique identifiers, every stored note is what the map holds for its
/// identifier.
pub proof fn lemma_notes_map_member(s: Seq<NoteView>, i: int)
    requires
        note_ids_unique(s),
        0 <= i < s.len(),
    ensures
        notes_map(s).contains_key(s[i].id),
        notes_map(s)[s[i].id] == s[i],
    decreases s.len(),
{
    if i < s.len() - 1 {
        lemma_notes_map_member(s.drop_last(), i);
        assert(s.drop_last()[i] == s[i]);
    }
}

/// The map holds exactly the identifiers that occur in the list.
pub proof fn lemma_notes_map_keys(s: Seq<NoteView>, k: Seq<char>)
    ensures
        notes_map(s).contains_key(k) <==> exists|i: int| 0 <= i < s.len() && #[trigger] s[i].id == k,
    decreases s.len(),
{
    if s.len() > 0 {
        let t = s.drop_last();
        lemma_notes_map_keys(t, k);
        if notes_map(t).contains_key(k) {
            let i = choose|i: int| 0 <= i < t.len() && #[trigger] t[i].id == k;
            assert(s[i].id == k);
        }
        if exists|i: int| 0 <= i < s.len() && #[trigger] s[i].id == k {
            let i = choose|i: int| 0 <= i < s.len() && #[trigger] s[i].id == k;
            if i < s.len() - 1 {
                assert(t[i].id == k);
            }
        }
    }
}

/// The views of a list of notes.
pub open spec fn note_views(v: Seq<Note>) -> Seq<NoteView> {
    v.map_values(|n: Note| n@)
}

/// Notes held in memory, in order of first storage.
pub struct InMemoryNoteGateway {
    notes: Vec<Note>,
}

impl InMemoryNoteGateway {
    /// The stored notes, in order.
    pub closed spec fn entries(&self) -> Seq<NoteView> {
        note_views(self.notes@)
    }

    #[verifier::type_invariant]
    spec fn wf(self) -> bool {
        note_ids_unique(self.entries())
    }
}

impl View for InMemoryNoteGateway {
    type V = Map<Seq<char>, NoteView>;

    closed spec fn view(&self) -> Map<Seq<char>, NoteView> {
        notes_map(self.entries())
    }
}

impl InMemoryNoteGateway {
    /// An empty store.
    pub fn new() -> (r: InMemoryNoteGateway)
        ensures
            r@ == Map::<Seq<char>, NoteView>::empty(),
    {
        let r = InMemoryNoteGateway { notes: Vec::new() };
        assert(r.entries() =~= Seq::<NoteView>::empty());
        r
    }

    /// Number of stored notes.
    pub fn len(&self) -> (r: usize)
        ensures
            r == self@.dom().len(),
    {
        proof {
            use_type_invariant(self);
            lemma_notes_map_len(self.entries());
        }
        self.notes.len()
    }

    /// The note stored under `id`.
    pub fn find(&self, id: &str) -> (r: Option<Note>)
        ensures
            match r {
                Some(n) => self@.contains_key(id@) && n@ == self@[id@],
                None => !self@.contains_key(id@),
            },
    {
        proof {
            use_type_invariant(self);
        }
        let ghost s = self.entries();
        let mut i: usize = 0;
        while i < self.notes.len()
            invariant
                s == self.entries(),
                note_ids_unique(s),
                i <= s.len(),
                forall|j: int| 0 <= j < i ==> #[trigger] s[j].id != id@,
            decreases self.notes.len() - i,
        {
            assert(s[i as int] == self.notes@[i as int]@);
            if text_equal(self.notes[i].id.as_str(), id) {
                proof {
                    lemma_notes_map_member(s, i as int);
                }
                return Some(self.notes[i].duplicate());
            }
            i = i + 1;
        }
        proof {
            lemma_notes_map_keys(s, id@);
        }
        None
    }

    /// Some stored note whose slug is `slug`.
    pub fn find_by_slug(&self, slug: &str) -> (r: Option<Note>)
        ensures
            match r {
                Some(n) => n.slug@ == slug@ && self@.contains_key(n.id@) && self@[n.id@] == n@,
                None => forall|k: Seq<char>| #[trigger] self@.contains_key(k) ==> self@[k].slug != slug@,
            },
    {
        proof {
            use_type_invariant(self);
        }
        let ghost s = self.entries();
        let mut i: usize = 0;
        while i < self.notes.len()
            invariant
                s == self.entries(),
                note_ids_unique(s),
                i <= s.len(),
                forall|j: int| 0 <= j < i ==> #[trigger] s[j].slug != slug@,
            decreases self.notes.len() - i,
        {
            assert(s[i as int] == self.notes@[i as int]@);
            if text_equal(self.notes[i].slug.as_str(), slug) {
                proof {
                    lemma_notes_map_member(s, i as int);
                }
                return Some(self.notes[i].duplicate());
            }
            i = i + 1;
        }
        proof {
            assert forall|k: Seq<char>| #[trigger] self@.contains_key(k) implies self@[k].slug
                != slug@ by {
                lemma_notes_map_keys(s, k);
                let j = choose|j: int| 0 <= j < s.len() && #[trigger] s[j].id == k;
                lemma_notes_map_member(s, j);
            }
        }
        None
    }

    /// Up to `limit` notes without their bodies, skipping the first `offset`
    /// in order of storage.
    pub fn list(&self, limit: u64, offset: u64) -> (r: Vec<NoteListItem>)
        ensures
            r@.len() == if offset >= self.entries().len() {
                0
            } else if self.entries().len() - offset < limit {
                self.entries().len() - offset
            } else {
                limit as int
            },
            forall|i: int|
                0 <= i < r@.len() ==> {
                    let n = #[trigger] self.entries()[offset + i];
                    &&& r@[i].id@ == n.id
                    &&& r@[i].slug@ == n.slug
                    &&& r@[i].title@ == n.title
                    &&& r@[i].description@ == n.description
                    &&& r@[i].created_at == n.created_at
                    &&& r@[i].updated_at == n.updated_at
                },
    {
        let ghost s = self.entries();
        let mut out: Vec<NoteListItem> = Vec::new();
        let n = self.notes.len();
        if offset as u128 >= n as u128 {
            return out;
        }
        let start = offset as usize;
        let mut i: usize = start;
        while i < n && ((i - start) as u64) < limit
            invariant
                s == self.entries(),
                n == s.len(),
                start == offset,
                start <= i <= n,
                out@.len() == i - start,
                (i - start) <= limit,
                forall|j: int|
                    0 <= j < out@.len() ==> {
                        let m = #[trigger] s[offset + j];
                        &&& out@[j].id@ == m.id
                        &&& out@[j].slug@ == m.slug
                        &&& out@[j].title@ == m.title
                        &&& out@[j].description@ == m.description
                        &&& out@[j].created_at == m.created_at
                        &&& out@[j].updated_at == m.updated_at
                    },
            decreases n - i,
        {
            assert(s[i as int] == self.notes@[i as int]@);
            out.push(self.notes[i].list_item());
            i = i + 1;
        }
        out
    }

    /// Removes the note stored under `id`, if there is one.
    pub fn delete(&mut self, id: &str)
        ensures
            final(self)@ == old(self)@.remove(id@),
    {
        proof {
            use_type_invariant(&*self);
        }
        let ghost s = self.entries();
        let mut kept: Vec<Note> = Vec::new();
        let mut i: usize = 0;
        assert(s.take(0) =~= Seq::<NoteView>::empty());
        assert(note_views(kept@) =~= Seq::<NoteView>::empty());
        while i < self.notes.len()
            invariant
                i <= s.len(),
                s == self.entries(),
                note_ids_unique(s),
                s.len() == self.notes@.len(),
                notes_map(note_views(kept@)) =~= notes_map(s.take(i as int)).remove(id@),
                note_ids_unique(note_views(kept@)),
            decreases self.notes.len() - i,
        {
            assert(s[i as int] == self.notes@[i as int]@);
            assert(s.take(i + 1).drop_last() =~= s.take(i as int));
            if !text_equal(self.notes[i].id.as_str(), id) {
                let ghost before = note_views(kept@);
                proof {
                    lemma_notes_map_keys(s.take(i as int), s[i as int].id);
                    if notes_map(s.take(i as int)).contains_key(s[i as int].id) {
                        let m = choose|m: int|
                            0 <= m < i && #[trigger] s.take(i as int)[m].id == s[i as int].id;
                        assert(s[m].id == s[i as int].id);
                    }
                    lemma_push_unique(before, s[i as int]);
                }
                kept.push(self.notes[i].duplicate());
                assert(note_views(kept@) =~= before.push(s[i as int]));
                assert(before.push(s[i as int]).drop_last() =~= before);
                assert(notes_map(note_views(kept@)) =~= notes_map(s.take(i + 1)).remove(id@));
            } else {
                assert(notes_map(s.take(i + 1)) == notes_map(s.take(i as int)).insert(
                    id@,
                    s[i as int],
                ));
                assert(notes_map(s.take(i + 1)).remove(id@) =~= notes_map(s.take(i as int)).remove(
                    id@,
                ));
            }
            i = i + 1;
        }
        assert(s.take(s.len() as int) =~= s);
        self.notes = kept;
    }

    /// Stores `note` under its identifier, keeping the creation time of a
    /// note already stored there.
    pub fn store(&mut self, note: &Note)
        ensures
            final(self)@ == upsert_note(old(self)@, note@),
    {
        let existing = self.find(note.id.as_str());
        let mut copy = note.duplicate();
        match existing {
            Some(e) => {
                copy.created_at = e.created_at;
            },
            None => {},
        }
        let ghost v = copy@;
        self.delete(note.id.as_str());
        proof {
            use_type_invariant(&*self);
            lemma_notes_map_keys(self.entries(), note.id@);
        }
        let mut notes: Vec<Note> = Vec::new();
        std::mem::swap(&mut self.notes, &mut notes);
        let ghost before = note_views(notes@);
        proof {
            lemma_push_unique(before, v);
        }
        notes.push(copy);
        assert(note_views(notes@) =~= before.push(v));
        self.notes = notes;
        assert(before.push(v).drop_last() =~= before);
        assert(self@ =~= upsert_note(old(self)@, note@));
    }
}

/// Appending a note under a new identifier keeps identifiers unique.
proof fn lemma_push_unique(s: Seq<NoteView>, v: NoteView)
    requires
        note_ids_unique(s),
        !notes_map(s).contains_key(v.id),
    ensures
        note_ids_unique(s.push(v)),
{
    lemma_notes_map_keys(s, v.id);
    let t = s.push(v);
    assert forall|a: int, b: int| 0 <= a < b < t.len() implies #[trigger] t[a].id
        != #[trigger] t[b].id by {
        assert(t[a] == s[a]);
        if b < s.len() {
            assert(t[b] == s[b]);
        }
    }
}

/// The number of stored notes is the number of identifiers.
proof fn lemma_notes_map_len(s: Seq<NoteView>)
    requires
        note_ids_unique(s),
    ensures
        notes_map(s).dom().finite(),
        notes_map(s).dom().len() == s.len(),
    decreases s.len(),
{
    if s.len() > 0 {
        let t = s.drop_last();
        lemma_notes_map_len(t);
        lemma_notes_map_keys(t, s.last().id);
        if notes_map(t).contains_key(s.last().id) {
            let i = choose|i: int| 0 <= i < t.len() && #[trigger] t[i].id == s.last().id;
            assert(s[i].id == s[s.len() - 1].id);
        }
    }
}

impl NoteReader for InMemoryNoteGateway {
    fn get(&self, id: &NoteId) -> (r: Option<Note>)
        ensures
            match r {
                Some(n) => self@.contains_key(id@) && n@ == self@[id@],
                None => !self@.contains_key(id@),
            },
    {
        self.find(id.as_str())
    }

    fn get_by_slug(&self, slug: &String) -> (r: Option<Note>)
        ensures
            match r {
                Some(n) => n.slug@ == slug@ && self@.contains_key(n.id@) && self@[n.id@] == n@,
                None => forall|k: Seq<char>| #[trigger] self@.contains_key(k) ==> self@[k].slug != slug@,
            },
    {
        self.find_by_slug(slug.as_str())
    }

    fn range(&self, limit: &u64, offset: &u64) -> (r: Vec<NoteListItem>)
        ensures
            r@.len() == if *offset >= self.entries().len() {
                0
            } else if self.entries().len() - *offset < *limit {
                self.entries().len() - *offset
            } else {
                *limit as int
            },
            forall|i: int|
                0 <= i < r@.len() ==> {
                    let n = #[trigger] self.entries()[*offset + i];
                    &&& r@[i].id@ == n.id
                    &&& r@[i].slug@ == n.slug
                    &&& r@[i].title@ == n.title
                    &&& r@[i].description@ == n.description
                    &&& r@[i].created_at == n.created_at
                    &&& r@[i].updated_at == n.updated_at
                },
    {
        self.list(*limit, *offset)
    }
}

impl NoteWriter for InMemoryNoteGateway {
    fn save(&mut self, note: &Note)
        ensures
            final(self)@ == upsert_note(old(self)@, note@),
    {
        self.store(note)
    }
}

impl NoteRemover for InMemoryNoteGateway {
    fn remove(&mut self, note_id: &NoteId)
        ensures
            final(self)@ == old(self)@.remove(note_id@),
    {
        self.delete(note_id.as_str())
    }
}

impl NoteGateway for InMemoryNoteGateway {
}

/// Saving the same note twice leaves the store as saving it once.
pub proof fn lemma_save_idempotent(store: Map<Seq<char>, NoteView>, n: NoteView)
    ensures
        upsert_note(upsert_note(store, n), n) == upsert_note(store, n),
{
    assert(upsert_note(upsert_note(store, n), n) =~= upsert_note(store, n));
}

/// Removing the same identifier twice leaves the store as removing it once.
pub proof fn lemma_remove_idempotent(store: Map<Seq<char>, NoteView>, id: Seq<char>)
    ensures
        store.remove(id).remove(id) == store.remove(id),
        !store.remove(id).contains_key(id),
{
    assert(store.remove(id).remove(id) =~= store.remove(id));
}

} // verus!
