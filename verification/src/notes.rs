//! Notes: creating, changing and deleting them in the list that is kept on disk.

use vstd::prelude::*;
use vstd::string::*;
use crate::text::{
    decimal, is_text_less, lemma_decimal_round_trip, lemma_text_less_irreflexive,
    lemma_text_less_transitive, push_decimal, push_signed_decimal,
    signed_decimal, text_less, to_chars,
};

verus! {

/// One note.
#[derive(Clone, Debug, PartialEq, Eq)]
pub struct Note {
    pub id: String,
    pub title: String,
    pub content: String,
    pub updated_at: String,
}

/// Why a note could not be changed.
#[derive(Clone, Copy, Debug, PartialEq, Eq)]
pub enum NoteError {
    /// No note has this identifier.
    NotFound,
}

impl NoteError {
    /// The message for the user.
    pub fn message(&self) -> (m: &'static str)
        ensures
            m@ == "Note not found"@,
    {
        "Note not found"
    }
}

/// Whether one of `notes` has the identifier `id`.
pub open spec fn has_note(notes: Seq<Note>, id: Seq<char>) -> bool {
    exists|i: int| 0 <= i < notes.len() && (#[trigger] notes[i]).id@ == id
}

/// Those of `notes` whose identifier is not `id`, in their order.
pub open spec fn without_note(notes: Seq<Note>, id: Seq<char>) -> Seq<Note>
    decreases notes.len(),
{
    if notes.len() == 0 {
        Seq::empty()
    } else if notes.last().id@ == id {
        without_note(notes.drop_last(), id)
    } else {
        without_note(notes.drop_last(), id).push(notes.last())
    }
}

/// The identifier that is tried in round `suffix` for a note made at
/// `base` milliseconds: `note_` and the time, then from the second round on
/// an underscore and the number of the round.
pub open spec fn candidate_id(base: i64, suffix: nat) -> Seq<char> {
    if suffix == 0 {
        "note_"@ + signed_decimal(base as int)
    } else {
        "note_"@ + signed_decimal(base as int) + "_"@ + decimal(suffix)
    }
}

/// The title of a note that was given none.
pub open spec fn default_title() -> Seq<char> {
    "Nova nota"@
}

fn copy_note(n: &Note) -> (c: Note)
    ensures
        c == *n,
{
    Note {
        id: n.id.clone(),
        title: n.title.clone(),
        content: n.content.clone(),
        updated_at: n.updated_at.clone(),
    }
}

fn position(notes: &Vec<Note>, id: &String) -> (at: Option<usize>)
    ensures
        at is Some <==> has_note(notes@, id@),
        at matches Some(i) ==> i < notes@.len() && notes@[i as int].id@ == id@ && forall|j: int|
            0 <= j < i ==> (#[trigger] notes@[j]).id@ != id@,
{
    let mut i: usize = 0;
    while i < notes.len()
        invariant
            i <= notes@.len(),
            forall|j: int| 0 <= j < i ==> (#[trigger] notes@[j]).id@ != id@,
        decreases notes@.len() - i,
    {
        if notes[i].id == *id {
            return Some(i);
        }
        i = i + 1;
    }
    None
}

/// The identifier that is tried in round `suffix` for a note made at `base`.
pub fn note_id(base: i64, suffix: u32) -> (id: String)
    ensures
        id@ == candidate_id(base, suffix as nat),
{
    let mut id = String::from_str("note_");
    push_signed_decimal(&mut id, base);
    if suffix != 0 {
        id.push('_');
        push_decimal(&mut id, suffix as u64);
        proof {
            reveal_strlit("_");
            assert("_"@ =~= seq!['_']);
            assert(id@ =~= candidate_id(base, suffix as nat));
        }
    }
    id
}

/// Whether no two of `keys` are the same.
pub open spec fn distinct_keys(keys: Seq<Seq<char>>) -> bool {
    forall|i: int, j: int| 0 <= i < j < keys.len() ==> keys[i] != keys[j]
}

/// Among more different identifiers than there are notes, one is free.
pub proof fn lemma_some_key_is_free(notes: Seq<Note>, keys: Seq<Seq<char>>)
    requires
        distinct_keys(keys),
        keys.len() > notes.len(),
    ensures
        exists|i: int| 0 <= i < keys.len() && !has_note(notes, #[trigger] keys[i]),
    decreases notes.len(),
{
    if notes.len() == 0 {
        assert(!has_note(notes, keys[0]));
    } else {
        let taken = notes.last().id@;
        let at = if exists|i: int| 0 <= i < keys.len() && keys[i] == taken {
            choose|i: int| 0 <= i < keys.len() && keys[i] == taken
        } else {
            0
        };
        let fewer = keys.remove(at);
        assert forall|i: int, j: int| 0 <= i < j < fewer.len() implies fewer[i] != fewer[j] by {
            let i0 = if i < at {
                i
            } else {
                i + 1
            };
            let j0 = if j < at {
                j
            } else {
                j + 1
            };
            assert(fewer[i] == keys[i0]);
            assert(fewer[j] == keys[j0]);
        }
        lemma_some_key_is_free(notes.drop_last(), fewer);
        let f = choose|i: int|
            0 <= i < fewer.len() && !has_note(notes.drop_last(), #[trigger] fewer[i]);
        let k = if f < at {
            f
        } else {
            f + 1
        };
        assert(fewer[f] == keys[k]);
        assert(keys[k] != taken) by {
            if keys[k] == taken {
                assert(keys[at] == taken);
                if k < at {
                    assert(keys[k] != keys[at]);
                } else {
                    assert(keys[at] != keys[k]);
                }
            }
        }
        assert(!has_note(notes, keys[k])) by {
            if has_note(notes, keys[k]) {
                let w = choose|w: int| 0 <= w < notes.len() && (#[trigger] notes[w]).id@ == keys[k];
                assert(w < notes.len() - 1);
                assert(notes.drop_last()[w] == notes[w]);
            }
        }
    }
}

/// The identifiers of different rounds are different.
pub proof fn lemma_candidates_differ(base: i64, j: nat, k: nat)
    requires
        j != k,
    ensures
        candidate_id(base, j) != candidate_id(base, k),
{
    reveal_strlit("_");
    let head = "note_"@ + signed_decimal(base as int);
    lemma_decimal_round_trip(j);
    lemma_decimal_round_trip(k);
    if j > 0 && k > 0 {
        let a = head + "_"@ + decimal(j);
        let b = head + "_"@ + decimal(k);
        assert(a.skip(head.len() as int + 1) =~= decimal(j));
        assert(b.skip(head.len() as int + 1) =~= decimal(k));
    } else if j > 0 {
        assert((head + "_"@ + decimal(j)).len() > head.len());
    } else {
        assert((head + "_"@ + decimal(k)).len() > head.len());
    }
}

/// An identifier for a new note made at `base` milliseconds: that of the
/// first round whose identifier no note has yet. There is always one,
/// unless there are more notes than rounds.
pub fn generate_note_id(existing: &Vec<Note>, base: i64) -> (id: Option<String>)
    ensures
        match id {
            Some(s) => exists|k: nat|
                k <= existing@.len() && k <= u32::MAX && s@ == candidate_id(base, k) && !has_note(
                    existing@,
                    s@,
                ) && forall|j: nat| j < k ==> has_note(existing@, #[trigger] candidate_id(base, j)),
            None => existing@.len() > u32::MAX,
        },
{
    let mut suffix: u32 = 0;
    loop
        invariant
            suffix <= existing@.len(),
            forall|j: nat| j < suffix ==> has_note(existing@, #[trigger] candidate_id(base, j)),
        decreases existing@.len() - suffix,
    {
        let id = note_id(base, suffix);
        if position(existing, &id).is_none() {
            return Some(id);
        }
        if suffix as usize >= existing.len() {
            proof {
                let keys = Seq::new(suffix as nat + 1, |k: int| candidate_id(base, k as nat));
                assert forall|i: int, j: int| 0 <= i < j < keys.len() implies keys[i]
                    != keys[j] by {
                    lemma_candidates_differ(base, i as nat, j as nat);
                }
                lemma_some_key_is_free(existing@, keys);
                let free = choose|i: int|
                    0 <= i < keys.len() && !has_note(existing@, #[trigger] keys[i]);
                assert(has_note(existing@, candidate_id(base, free as nat)));
                assert(false);
            }
            return None;
        }
        if suffix == u32::MAX {
            return None;
        }
        suffix = suffix + 1;
    }
}

/// Create a new note at the end of the list and hand out a copy of it. The
/// note has no content; its title is "Nova nota" unless one is given.
pub fn create_note(notes: &mut Vec<Note>, id: String, title: Option<String>, now: String) -> (note:
    Note)
    ensures
        note.id == id,
        note.title@ == (match title {
            Some(t) => t@,
            None => default_title(),
        }),
        note.content@.len() == 0,
        note.updated_at == now,
        final(notes)@ == old(notes)@.push(note),
{
    let title = match title {
        Some(t) => t,
        None => String::from_str("Nova nota"),
    };
    let note = Note { id, title, content: String::new(), updated_at: now };
    let copy = copy_note(&note);
    notes.push(note);
    copy
}

/// Update the first note with the identifier `id` and hand out a copy of it.
pub fn update_note(
    notes: &mut Vec<Note>,
    id: &String,
    title: String,
    content: String,
    now: String,
) -> (r: Result<Note, NoteError>)
    ensures
        r is Ok <==> has_note(old(notes)@, id@),
        r is Err ==> *final(notes) == *old(notes),
        r matches Ok(note) ==> note.title == title && note.content == content && note.updated_at
            == now && exists|i: int|
            0 <= i < old(notes)@.len() && (#[trigger] old(notes)@[i]).id@ == id@ && (forall|j: int|
                0 <= j < i ==> (#[trigger] old(notes)@[j]).id@ != id@) && note.id == old(
                notes,
            )@[i].id && final(notes)@ == old(notes)@.update(i, note),
{
    match position(notes, id) {
        Some(i) => {
            let updated = Note { id: notes[i].id.clone(), title, content, updated_at: now };
            let copy = copy_note(&updated);
            notes.set(i, updated);
            Ok(copy)
        },
        None => Err(NoteError::NotFound),
    }
}

/// Delete every note with the identifier `id`.
pub fn delete_note(notes: &mut Vec<Note>, id: &String)
    ensures
        final(notes)@ == without_note(old(notes)@, id@),
{
    let mut kept: Vec<Note> = Vec::new();
    let mut i: usize = 0;
    while i < notes.len()
        invariant
            i <= notes@.len(),
            *notes == *old(notes),
            kept@ == without_note(notes@.take(i as int), id@),
        decreases notes@.len() - i,
    {
        proof {
            assert(notes@.take(i + 1).drop_last() =~= notes@.take(i as int));
            assert(notes@.take(i + 1).last() == notes@[i as int]);
        }
        if notes[i].id != *id {
            kept.push(copy_note(&notes[i]));
        }
        i = i + 1;
    }
    proof {
        assert(notes@.take(notes@.len() as int) =~= notes@);
    }
    *notes = kept;
}

/// Where a note changed at `changed` goes in a list that has the newest
/// first: before the first note that was changed earlier, behind all others.
pub open spec fn place_for(sorted: Seq<Note>, changed: Seq<char>) -> int
    decreases sorted.len(),
{
    if sorted.len() == 0 {
        0
    } else if text_less(sorted[0].updated_at@, changed) {
        0
    } else {
        1 + place_for(sorted.skip(1), changed)
    }
}

/// `notes` with the newest first. Notes that were changed at the same time
/// keep their order.
pub open spec fn newest_first(notes: Seq<Note>) -> Seq<Note>
    decreases notes.len(),
{
    if notes.len() == 0 {
        Seq::empty()
    } else {
        let rest = newest_first(notes.drop_last());
        rest.insert(place_for(rest, notes.last().updated_at@), notes.last())
    }
}

/// Whether no note of `notes` stands before one that was changed later.
pub open spec fn is_newest_first(notes: Seq<Note>) -> bool {
    forall|i: int, j: int|
        0 <= i < j < notes.len() ==> !text_less(
            (#[trigger] notes[i]).updated_at@,
            (#[trigger] notes[j]).updated_at@,
        )
}

proof fn lemma_place_for(sorted: Seq<Note>, changed: Seq<char>)
    ensures
        0 <= place_for(sorted, changed) <= sorted.len(),
        forall|i: int|
            0 <= i < place_for(sorted, changed) ==> !text_less(
                (#[trigger] sorted[i]).updated_at@,
                changed,
            ),
        place_for(sorted, changed) < sorted.len() ==> text_less(
            sorted[place_for(sorted, changed)].updated_at@,
            changed,
        ),
    decreases sorted.len(),
{
    if sorted.len() > 0 && !text_less(sorted[0].updated_at@, changed) {
        lemma_place_for(sorted.skip(1), changed);
        let p = place_for(sorted.skip(1), changed);
        assert forall|i: int| 0 <= i < 1 + p implies !text_less(
            (#[trigger] sorted[i]).updated_at@,
            changed,
        ) by {
            if i > 0 {
                assert(sorted.skip(1)[i - 1] == sorted[i]);
            }
        }
        if 1 + p < sorted.len() {
            assert(sorted.skip(1)[p] == sorted[1 + p]);
        }
    }
}

/// Sorting puts the newest first and neither loses nor invents a note.
pub proof fn lemma_newest_first_sorts(notes: Seq<Note>)
    ensures
        is_newest_first(newest_first(notes)),
        newest_first(notes).to_multiset() == notes.to_multiset(),
        newest_first(notes).len() == notes.len(),
    decreases notes.len(),
{
    if notes.len() == 0 {
        assert(notes =~= Seq::<Note>::empty());
    } else {
        let rest = newest_first(notes.drop_last());
        let x = notes.last();
        let p = place_for(rest, x.updated_at@);
        lemma_newest_first_sorts(notes.drop_last());
        lemma_place_for(rest, x.updated_at@);
        let out = rest.insert(p, x);
        assert forall|i: int, j: int| 0 <= i < j < out.len() implies !text_less(
            (#[trigger] out[i]).updated_at@,
            (#[trigger] out[j]).updated_at@,
        ) by {
            if j == p {
                assert(out[i] == rest[i]);
                assert(out[j] == x);
            } else if i == p {
                assert(out[i] == x);
                assert(out[j] == rest[j - 1]);
                if text_less(x.updated_at@, rest[j - 1].updated_at@) {
                    lemma_text_less_transitive(
                        rest[p].updated_at@,
                        x.updated_at@,
                        rest[j - 1].updated_at@,
                    );
                    if j - 1 > p {
                        assert(!text_less(rest[p].updated_at@, rest[j - 1].updated_at@));
                    } else {
                        lemma_text_less_irreflexive(rest[p].updated_at@);
                    }
                }
            } else {
                let i0 = if i < p {
                    i
                } else {
                    i - 1
                };
                let j0 = if j < p {
                    j
                } else {
                    j - 1
                };
                assert(out[i] == rest[i0]);
                assert(out[j] == rest[j0]);
            }
        }
        vstd::seq_lib::to_multiset_insert(rest, p, x);
        vstd::seq_lib::to_multiset_build(notes.drop_last(), x);
        assert(notes.drop_last().push(x) =~= notes);
        assert(out.to_multiset() =~= notes.to_multiset());
    }
}

/// List all notes with the newest first. Notes that were changed at the
/// same time keep their order.
pub fn list_notes(notes: &Vec<Note>) -> (sorted: Vec<Note>)
    ensures
        sorted@ == newest_first(notes@),
        is_newest_first(sorted@),
        sorted@.to_multiset() == notes@.to_multiset(),
{
    let mut sorted: Vec<Note> = Vec::new();
    let mut i: usize = 0;
    proof {
        assert(notes@.take(0) =~= Seq::<Note>::empty());
    }
    while i < notes.len()
        invariant
            i <= notes@.len(),
            sorted@ == newest_first(notes@.take(i as int)),
        decreases notes@.len() - i,
    {
        let note = copy_note(&notes[i]);
        let changed = to_chars(note.updated_at.as_str());
        let mut p: usize = 0;
        proof {
            assert(sorted@.skip(0) =~= sorted@);
            lemma_newest_first_sorts(notes@.take(i as int));
        }
        while p < sorted.len() && !is_text_less(
            &to_chars(sorted[p].updated_at.as_str()),
            &changed,
        )
            invariant
                p <= sorted@.len(),
                changed@ == note.updated_at@,
                place_for(sorted@, changed@) == p + place_for(sorted@.skip(p as int), changed@),
            decreases sorted@.len() - p,
        {
            proof {
                assert(sorted@.skip(p as int)[0] == sorted@[p as int]);
                assert(sorted@.skip(p as int).skip(1) =~= sorted@.skip(p + 1));
            }
            p = p + 1;
        }
        proof {
            if p < sorted@.len() {
                assert(sorted@.skip(p as int)[0] == sorted@[p as int]);
            }
            assert(notes@.take(i + 1).drop_last() =~= notes@.take(i as int));
            assert(notes@.take(i + 1).last() == notes@[i as int]);
        }
        sorted.insert(p, note);
        i = i + 1;
    }
    proof {
        assert(notes@.take(notes@.len() as int) =~= notes@);
        lemma_newest_first_sorts(notes@);
    }
    sorted
}

/// Whether the text of a notes file holds no notes: it is empty or blank.
pub open spec fn is_blank(content: Seq<char>) -> bool {
    forall|i: int| 0 <= i < content.len() ==> whitespace(#[trigger] content[i])
}

/// Whether a character is white space as Unicode defines it: tab to
/// carriage return, the space, the next-line control, the no-break space,
/// the Ogham space mark, the spaces from en quad to hair space, the line
/// and the paragraph separator, the narrow no-break space, the medium
/// mathematical space, and the ideographic space.
pub open spec fn whitespace(c: char) -> bool {
    let n = c as u32;
    ||| 0x09 <= n <= 0x0D
    ||| n == 0x20
    ||| n == 0x85
    ||| n == 0xA0
    ||| n == 0x1680
    ||| 0x2000 <= n <= 0x200A
    ||| n == 0x2028
    ||| n == 0x2029
    ||| n == 0x202F
    ||| n == 0x205F
    ||| n == 0x3000
}

/// Whether a character is white space as Unicode defines it.
pub fn is_whitespace(c: char) -> (r: bool)
    ensures
        r == whitespace(c),
{
    let n: u32 = c as u32;
    (0x09 <= n && n <= 0x0D) || n == 0x20 || n == 0x85 || n == 0xA0 || n == 0x1680 || (0x2000 <= n
        && n <= 0x200A) || n == 0x2028 || n == 0x2029 || n == 0x202F || n == 0x205F || n == 0x3000
}

/// Whether the text of a notes file holds no notes: it is empty or blank.
pub fn notes_file_is_blank(content: &str) -> (r: bool)
    ensures
        r == is_blank(content@),
{
    let chars = crate::text::to_chars(content);
    let mut i: usize = 0;
    while i < chars.len()
        invariant
            i <= chars@.len(),
            chars@ == content@,
            forall|j: int| 0 <= j < i ==> whitespace(#[trigger] chars@[j]),
        decreases chars@.len() - i,
    {
        if !is_whitespace(chars[i]) {
            assert(!whitespace(content@[i as int]));
            return false;
        }
        i = i + 1;
    }
    true
}

} // verus!
