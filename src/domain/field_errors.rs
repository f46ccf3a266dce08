//! Validation failures: a map from field name to an explanation, kept sorted
//! by field name.

use vstd::prelude::*;
use crate::domain::text::{decimal, push_decimal, text_less, text_lt};
use crate::domain::text;

verus! {

/// One failure as the contracts see it: field name and explanation.
pub type FieldEntry = (Seq<char>, Seq<char>);

/// Field names strictly increase along the sequence.
pub open spec fn keys_sorted(s: Seq<FieldEntry>) -> bool {
    forall|i: int| 0 <= i < s.len() - 1 ==> text_lt(#[trigger] s[i].0, s[i + 1].0)
}

/// Sets the explanation for field `k` in a sorted sequence: the entry for `k`
/// is replaced, or a new one goes where the order puts it.
pub open spec fn insert_sorted(s: Seq<FieldEntry>, k: Seq<char>, v: Seq<char>) -> Seq<FieldEntry>
    decreases s.len(),
{
    if s.len() == 0 {
        seq![(k, v)]
    } else if text_lt(s[0].0, k) {
        seq![s[0]] + insert_sorted(s.drop_first(), k, v)
    } else if s[0].0 == k {
        seq![(k, v)] + s.drop_first()
    } else {
        seq![(k, v)] + s
    }
}

/// Whether some entry names field `k`.
pub open spec fn has_field(s: Seq<FieldEntry>, k: Seq<char>) -> bool {
    exists|i: int| 0 <= i < s.len() && #[trigger] s[i].0 == k
}

/// `name: explanation`.
pub open spec fn render_entry(e: FieldEntry) -> Seq<char> {
    e.0 + ": "@ + e.1
}

/// The rendered entries, separated by `, `.
pub open spec fn render_entries(s: Seq<FieldEntry>) -> Seq<char>
    decreases s.len(),
{
    if s.len() == 0 {
        Seq::empty()
    } else if s.len() == 1 {
        render_entry(s[0])
    } else {
        render_entries(s.drop_last()) + ", "@ + render_entry(s.last())
    }
}

/// The text form of a failure map: `[a: x, b: y]`, in order of field name.
pub open spec fn render_field_errors(s: Seq<FieldEntry>) -> Seq<char> {
    "["@ + render_entries(s) + "]"@
}

/// The explanation given for a value whose length exceeds its bound.
pub open spec fn too_long_message(len: nat, max: nat) -> Seq<char> {
    "is too long: "@ + decimal(len) + " > "@ + decimal(max)
}

/// The explanation given for a value that must not be empty.
pub open spec fn empty_message() -> Seq<char> {
    "must not be empty"@
}

/// What is wrong with a value whose length must lie in `1..=max`, if anything.
pub open spec fn length_error(s: Seq<char>, max: nat) -> Option<Seq<char>> {
    if s.len() == 0 {
        Some(empty_message())
    } else if s.len() > max {
        Some(too_long_message(s.len(), max))
    } else {
        None
    }
}

/// Adds the failure for `field`, if there is one.
pub open spec fn with_error(s: Seq<FieldEntry>, field: Seq<char>, e: Option<Seq<char>>) -> Seq<
    FieldEntry,
> {
    match e {
        Some(m) => insert_sorted(s, field, m),
        None => s,
    }
}

/// Validation failures, one explanation per field, sorted by field name.
#[derive(Debug)]
pub struct FieldErrors {
    entries: Vec<(String, String)>,
}

impl View for FieldErrors {
    type V = Seq<FieldEntry>;

    closed spec fn view(&self) -> Seq<FieldEntry> {
        self.entries@.map_values(|e: (String, String)| (e.0@, e.1@))
    }
}

/// Splits `insert_sorted` at the first entry whose name is not below `k`.
proof fn lemma_insert_sorted_at(s: Seq<FieldEntry>, k: Seq<char>, v: Seq<char>, p: int)
    requires
        0 <= p <= s.len(),
        forall|j: int| 0 <= j < p ==> text_lt(#[trigger] s[j].0, k),
        p < s.len() ==> !text_lt(s[p].0, k),
    ensures
        insert_sorted(s, k, v) == if p == s.len() {
            s + seq![(k, v)]
        } else if s[p].0 == k {
            s.take(p) + seq![(k, v)] + s.skip(p + 1)
        } else {
            s.take(p) + seq![(k, v)] + s.skip(p)
        },
    decreases p,
{
    if p == 0 {
        if s.len() == 0 {
            assert(s + seq![(k, v)] =~= seq![(k, v)]);
        } else if s[0].0 == k {
            assert(s.take(0) + seq![(k, v)] + s.skip(1) =~= seq![(k, v)] + s.drop_first());
        } else {
            assert(s.take(0) + seq![(k, v)] + s.skip(0) =~= seq![(k, v)] + s);
        }
    } else {
        let t = s.drop_first();
        assert forall|j: int| 0 <= j < p - 1 implies text_lt(#[trigger] t[j].0, k) by {
            assert(t[j] == s[j + 1]);
        }
        lemma_insert_sorted_at(t, k, v, p - 1);
        if p == s.len() {
            assert(seq![s[0]] + (t + seq![(k, v)]) =~= s + seq![(k, v)]);
        } else if s[p].0 == k {
            assert(seq![s[0]] + (t.take(p - 1) + seq![(k, v)] + t.skip(p)) =~= s.take(p) + seq![
                (k, v),
            ] + s.skip(p + 1));
        } else {
            assert(seq![s[0]] + (t.take(p - 1) + seq![(k, v)] + t.skip(p - 1)) =~= s.take(p)
                + seq![(k, v)] + s.skip(p));
        }
    }
}

impl FieldErrors {
    #[verifier::type_invariant]
    spec fn wf(self) -> bool {
        keys_sorted(self@)
    }

    /// A map with no failures.
    pub fn new() -> (r: FieldErrors)
        ensures
            r@ == Seq::<FieldEntry>::empty(),
    {
        let r = FieldErrors { entries: Vec::new() };
        assert(r@ =~= Seq::<FieldEntry>::empty());
        r
    }

    /// The number of fields with a failure.
    pub fn len(&self) -> (r: usize)
        ensures
            r == self@.len(),
    {
        self.entries.len()
    }

    /// Whether no field has a failure.
    pub fn is_empty(&self) -> (r: bool)
        ensures
            r == (self@.len() == 0),
    {
        self.entries.len() == 0
    }

    /// The name and explanation at position `i`, in order of field name.
    pub fn entry(&self, i: usize) -> (r: (&String, &String))
        requires
            i < self@.len(),
        ensures
            r.0@ == self@[i as int].0,
            r.1@ == self@[i as int].1,
    {
        let e = &self.entries[i];
        (&e.0, &e.1)
    }

    /// The explanation recorded for `field`, if any.
    pub fn get(&self, field: &str) -> (r: Option<&String>)
        ensures
            r is Some <==> has_field(self@, field@),
            r matches Some(m) ==> exists|i: int|
                0 <= i < self@.len() && self@[i].0 == field@ && #[trigger] self@[i].1 == m@,
    {
        let mut i: usize = 0;
        while i < self.entries.len()
            invariant
                i <= self@.len(),
                self@.len() == self.entries@.len(),
                forall|j: int| 0 <= j < i ==> #[trigger] self@[j].0 != field@,
            decreases self.entries.len() - i,
        {
            let e = &self.entries[i];
            assert(self@[i as int] == (e.0@, e.1@));
            if text_equal(e.0.as_str(), field) {
                assert(self@[i as int].0 == field@ && self@[i as int].1 == e.1@);
                assert(has_field(self@, field@));
                return Some(&e.1);
            }
            i = i + 1;
        }
        None
    }

    /// Records `message` as the explanation for `field`, replacing an earlier one.
    pub fn insert(&mut self, field: String, message: String)
        ensures
            final(self)@ == insert_sorted(old(self)@, field@, message@),
    {
        proof {
            use_type_invariant(&*self);
        }
        let ghost s = self@;
        let n = self.entries.len();
        let mut p: usize = 0;
        let mut stop = false;
        while p < n && !stop
            invariant
                n == s.len(),
                s == self@,
                p <= n,
                forall|j: int| 0 <= j < p ==> text_lt(#[trigger] s[j].0, field@),
                stop ==> p < n && !text_lt(s[p as int].0, field@),
            decreases n - p + (if stop { 0int } else { 1int }),
        {
            assert(s[p as int].0 == self.entries@[p as int].0@);
            if text_less(self.entries[p].0.as_str(), field.as_str()) {
                p = p + 1;
            } else {
                stop = true;
            }
        }
        proof {
            lemma_insert_sorted_at(s, field@, message@, p as int);
        }
        let replace = p < n && self.entries[p].0 == field;
        let ghost k = field@;
        let ghost v = message@;
        let mut entries: Vec<(String, String)> = Vec::new();
        std::mem::swap(&mut self.entries, &mut entries);
        if replace {
            entries.set(p, (field, message));
        } else {
            entries.insert(p, (field, message));
        }
        let ghost t = insert_sorted(s, k, v);
        assert(entries@.map_values(|e: (String, String)| (e.0@, e.1@)) =~= t);
        proof {
            assert forall|i: int| 0 <= i < t.len() - 1 implies text_lt(#[trigger] t[i].0, t[i + 1].0) by {
                if p < n && !replace {
                    text::lemma_text_lt_trichotomy(s[p as int].0, k);
                }
            }
        }
        self.entries = entries;
    }
}

/// Decides whether two strings hold the same characters.
pub fn text_equal(a: &str, b: &str) -> (r: bool)
    ensures
        r == (a@ == b@),
{
    let la = a.unicode_len();
    let lb = b.unicode_len();
    if la != lb {
        return false;
    }
    let mut i: usize = 0;
    while i < la
        invariant
            la == a@.len(),
            lb == b@.len(),
            la == lb,
            i <= la,
            forall|j: int| 0 <= j < i ==> a@[j] == b@[j],
        decreases la - i,
    {
        if a.get_char(i) != b.get_char(i) {
            return false;
        }
        i = i + 1;
    }
    assert(a@ =~= b@);
    true
}

/// Renders a failure map as `[a: x, b: y]`, in order of field name.
pub fn format_map(errors: &FieldErrors) -> (r: String)
    ensures
        r@ == render_field_errors(errors@),
{
    let mut out = String::from_str("[");
    let n = errors.len();
    let mut i: usize = 0;
    while i < n
        invariant
            n == errors@.len(),
            i <= n,
            out@ == "["@ + render_entries(errors@.take(i as int)),
        decreases n - i,
    {
        let (key, value) = errors.entry(i);
        let ghost before = out@;
        if i > 0 {
            out.append(", ");
        }
        out.append(key.as_str());
        out.append(": ");
        out.append(value.as_str());
        proof {
            let t = errors@.take(i + 1);
            assert(t.drop_last() =~= errors@.take(i as int));
            assert(t.last() == errors@[i as int]);
            if i == 0 {
                assert(errors@.take(0) =~= Seq::<FieldEntry>::empty());
            }
            assert(out@ =~= "["@ + render_entries(t));
        }
        i = i + 1;
    }
    out.append("]");
    assert(errors@.take(n as int) =~= errors@);
    out
}

/// Builds `is too long: <len> > <max>`.
pub fn too_long(len: usize, max: usize) -> (r: String)
    ensures
        r@ == too_long_message(len as nat, max as nat),
{
    let mut out = String::from_str("is too long: ");
    push_decimal(&mut out, len);
    out.append(" > ");
    push_decimal(&mut out, max);
    out
}

} // verus!
