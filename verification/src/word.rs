//! Words of four field elements, and the note ids made of them.

use vstd::prelude::*;

use crate::protocol;
use crate::text;

verus! {

/// The number of elements of the field that words are made of.
pub const FIELD_ORDER: u64 = 0xFFFF_FFFF_0000_0001;

/// Whether `elements` are four field elements, each in canonical form.
pub open spec fn is_word(elements: Seq<u64>) -> bool {
    &&& elements.len() == 4
    &&& forall|i: int| 0 <= i < 4 ==> #[trigger] elements[i] < FIELD_ORDER
}

/// Four field elements, each in canonical form. A word is viewed as its elements.
#[derive(Debug, Clone, Copy, PartialEq, Eq, Structural)]
pub struct Word {
    pub(crate) a: u64,
    pub(crate) b: u64,
    pub(crate) c: u64,
    pub(crate) d: u64,
}

impl View for Word {
    type V = Seq<u64>;

    closed spec fn view(&self) -> Seq<u64> {
        seq![self.a, self.b, self.c, self.d]
    }
}

impl Word {
    #[verifier::type_invariant]
    spec fn canonical(self) -> bool {
        is_word(self@)
    }

    /// Returns the word of the given elements, or `None` where one of them is not in canonical
    /// form.
    pub fn new(elements: [u64; 4]) -> (r: Option<Word>)
        ensures
            r is Some <==> is_word(elements@),
            r matches Some(word) ==> word@ == elements@,
    {
        if elements[0] < FIELD_ORDER && elements[1] < FIELD_ORDER && elements[2] < FIELD_ORDER
            && elements[3] < FIELD_ORDER {
            Some(Word { a: elements[0], b: elements[1], c: elements[2], d: elements[3] })
        } else {
            None
        }
    }

    /// Returns the word of four zero elements.
    pub fn empty() -> (r: Word)
        ensures
            r@ == seq![0u64, 0, 0, 0],
    {
        Word { a: 0, b: 0, c: 0, d: 0 }
    }

    /// Returns the elements of the word.
    pub fn as_elements(&self) -> (r: [u64; 4])
        ensures
            r@ == self@,
            is_word(r@),
    {
        proof {
            use_type_invariant(self);
        }
        [self.a, self.b, self.c, self.d]
    }
}

/// Words are equal where their elements are.
pub proof fn lemma_word_view(v: Word, w: Word)
    ensures
        v@.len() == 4,
        v == w <==> v@ == w@,
{
    assert(v@ == w@ ==> v@[0] == w@[0] && v@[1] == w@[1] && v@[2] == w@[2] && v@[3] == w@[3]);
}

// NOTE ID

/// The unique identifier of a note. It is viewed as the elements of its word.
#[derive(Debug, Clone, Copy, PartialEq, Eq, Structural)]
pub struct NoteId {
    word: Word,
}

impl View for NoteId {
    type V = Seq<u64>;

    closed spec fn view(&self) -> Seq<u64> {
        self.word@
    }
}

/// The elements of a note id, the most significant one first. Ids are ordered by them.
pub type NoteKey = (u64, u64, u64, u64);

/// The key of the note id of the given elements.
pub open spec fn key_of(id: Seq<u64>) -> NoteKey {
    (id[3], id[2], id[1], id[0])
}

impl NoteId {
    /// Returns the note id that the given word is.
    pub fn from_raw(word: Word) -> (r: NoteId)
        ensures
            r@ == word@,
    {
        NoteId { word }
    }

    /// Returns the word that the note id is.
    pub fn as_word(&self) -> (r: Word)
        ensures
            r@ == self@,
    {
        self.word
    }

    /// Returns the key by which a collection orders the note.
    pub fn key(&self) -> (r: NoteKey)
        ensures
            r == key_of(self@),
    {
        (self.word.d, self.word.c, self.word.b, self.word.a)
    }

    /// Returns the note id in hexadecimal, prefixed with `0x`.
    pub fn to_hex(&self) -> (r: String)
        ensures
            r@ == text::word_text(self@),
    {
        protocol::note_id_text(&self.word)
    }
}

/// Two note ids have the same key only where they are the same id.
pub proof fn law_keys_tell_ids_apart(v: NoteId, w: NoteId)
    ensures
        key_of(v@) == key_of(w@) <==> v == w,
{
    lemma_word_view(v.word, w.word);
    lemma_word_view(w.word, v.word);
    assert(key_of(v@) == key_of(w@) ==> v@ =~= w@);
}

/// Whether a key comes before another: the first elements in which they differ decide.
pub open spec fn key_before(k: NoteKey, l: NoteKey) -> bool {
    ||| k.0 < l.0
    ||| k.0 == l.0 && k.1 < l.1
    ||| k.0 == l.0 && k.1 == l.1 && k.2 < l.2
    ||| k.0 == l.0 && k.1 == l.1 && k.2 == l.2 && k.3 < l.3
}

/// The integer whose limbs are the elements of a note id, the least significant one first.
pub open spec fn id_value(id: Seq<u64>) -> int {
    id[0] + 0x1_0000_0000_0000_0000 * (id[1] + 0x1_0000_0000_0000_0000 * (id[2]
        + 0x1_0000_0000_0000_0000 * id[3]))
}

/// Note ids are ordered by their keys as the integers whose limbs they are.
pub proof fn law_keys_order_as_integers(v: NoteId, w: NoteId)
    ensures
        key_before(key_of(v@), key_of(w@)) <==> id_value(v@) < id_value(w@),
{
}

/// Four elements are a word where each is below the order of the field, which is 2^64 - 2^32 + 1.
pub proof fn law_words_are_canonical(a: u64, b: u64, c: u64, d: u64)
    ensures
        is_word(seq![a, b, c, d]) <==> {
            let order = 0x1_0000_0000_0000_0000 - 0x1_0000_0000 + 1;
            a < order && b < order && c < order && d < order
        },
{
    let elements = seq![a, b, c, d];
    if is_word(elements) {
        assert(elements[0] < FIELD_ORDER && elements[1] < FIELD_ORDER);
        assert(elements[2] < FIELD_ORDER && elements[3] < FIELD_ORDER);
    }
}

} // verus!
