//! Note attachments: public extensions of a note, and the commitments to them.

use vstd::prelude::*;

use crate::errors::NoteError;
use crate::protocol;
use crate::word::Word;

verus! {

/// The maximum number of attachments of a note.
pub const MAX_COUNT: usize = 4;

/// The maximum number of words of an attachment.
pub const MAX_WORDS_PER_ATTACHMENT: usize = 256;

/// The maximum number of words of all attachments of a note together.
pub const MAX_WORDS_PER_NOTE: usize = 512;

/// The highest attachment scheme.
pub const MAX_SCHEME: u16 = 65534;

// ATTACHMENT SCHEME

/// Whether `value` is an attachment scheme. Zero stands for an absent attachment.
pub open spec fn is_scheme(value: u16) -> bool {
    1 <= value <= MAX_SCHEME
}

/// The user-defined scheme of an attachment. It is viewed as its number.
#[derive(Debug, Clone, Copy, PartialEq, Eq)]
pub struct NoteAttachmentScheme {
    pub(crate) value: u16,
}

impl View for NoteAttachmentScheme {
    type V = u16;

    closed spec fn view(&self) -> u16 {
        self.value
    }
}

impl NoteAttachmentScheme {
    #[verifier::type_invariant]
    spec fn valid(self) -> bool {
        is_scheme(self.value)
    }

    /// Returns the scheme of the given number.
    ///
    /// # Errors
    ///
    /// Returns the protocol's message if the number is zero or exceeds [`MAX_SCHEME`].
    pub fn new(value: u16) -> (r: Result<NoteAttachmentScheme, String>)
        ensures
            r is Ok <==> is_scheme(value),
            r matches Ok(scheme) ==> scheme@ == value,
            r matches Err(text) ==> text@ == protocol::scheme_error_text(value),
    {
        match protocol::attachment_scheme(value) {
            Ok(value) => Ok(NoteAttachmentScheme { value }),
            Err(text) => Err(text),
        }
    }

    /// Returns the number of the scheme.
    pub fn as_u16(&self) -> (r: u16)
        ensures
            r == self@,
            is_scheme(r),
    {
        proof {
            use_type_invariant(self);
        }
        self.value
    }
}

// ATTACHMENT HEADER

/// The header of an attachment slot: the scheme of the attachment in it, if there is one. It is
/// viewed as the number of that scheme.
#[derive(Debug, Clone, Copy, PartialEq, Eq)]
pub struct NoteAttachmentHeader {
    pub(crate) scheme: Option<NoteAttachmentScheme>,
}

impl View for NoteAttachmentHeader {
    type V = Option<u16>;

    closed spec fn view(&self) -> Option<u16> {
        match self.scheme {
            Some(scheme) => Some(scheme@),
            None => None,
        }
    }
}

impl NoteAttachmentHeader {
    /// Returns the header of a slot that holds an attachment of the given scheme.
    pub fn new(scheme: NoteAttachmentScheme) -> (r: NoteAttachmentHeader)
        ensures
            r@ == Some(scheme@),
    {
        NoteAttachmentHeader { scheme: Some(scheme) }
    }

    /// Returns the header of an empty slot.
    pub fn absent() -> (r: NoteAttachmentHeader)
        ensures
            r@ == None::<u16>,
    {
        NoteAttachmentHeader { scheme: None }
    }

    /// Returns `true` if the slot is empty.
    pub fn is_absent(&self) -> (r: bool)
        ensures
            r == (self@ is None),
    {
        self.scheme.is_none()
    }
}

/// The headers of all attachment slots where the attachments have the given schemes, in order. The
/// slots that are left over are empty.
pub open spec fn headers_of(schemes: Seq<u16>) -> Seq<Option<u16>> {
    Seq::new(
        MAX_COUNT as nat,
        |slot: int|
            if slot < schemes.len() {
                Some(schemes[slot])
            } else {
                None
            },
    )
}

// ATTACHMENT

/// The elements of each word.
pub open spec fn word_views(words: Seq<Word>) -> Seq<Seq<u64>> {
    words.map_values(|word: Word| word@)
}

/// An attachment as its scheme and its words.
pub struct NoteAttachmentView {
    pub scheme: u16,
    pub words: Seq<Seq<u64>>,
}

/// The commitment to an attachment: the hash of the elements of its words.
pub open spec fn attachment_commitment(attachment: NoteAttachmentView) -> Seq<u64> {
    protocol::poseidon2(attachment.words.flatten())
}

/// An attachment of a note.
#[derive(Debug, PartialEq, Eq)]
pub struct NoteAttachment {
    pub(crate) scheme: NoteAttachmentScheme,
    pub(crate) words: Vec<Word>,
}

impl View for NoteAttachment {
    type V = NoteAttachmentView;

    closed spec fn view(&self) -> NoteAttachmentView {
        NoteAttachmentView { scheme: self.scheme@, words: word_views(self.words@) }
    }
}

impl NoteAttachment {
    #[verifier::type_invariant]
    spec fn valid(self) -> bool {
        1 <= self.words@.len() <= MAX_WORDS_PER_ATTACHMENT
    }

    /// Returns the attachment of the given scheme whose content is a single word.
    pub fn with_word(scheme: NoteAttachmentScheme, word: Word) -> (r: NoteAttachment)
        ensures
            r@.scheme == scheme@,
            r@.words == seq![word@],
    {
        let mut words: Vec<Word> = Vec::new();
        words.push(word);
        assert(word_views(words@) =~= seq![word@]);
        NoteAttachment { scheme, words }
    }

    /// Returns the attachment of the given scheme and content.
    ///
    /// # Errors
    ///
    /// Returns an error if there is no word, or more than [`MAX_WORDS_PER_ATTACHMENT`].
    pub fn with_words(scheme: NoteAttachmentScheme, words: Vec<Word>) -> (r: Result<
        NoteAttachment,
        NoteError,
    >)
        ensures
            r is Ok <==> 1 <= words@.len() <= MAX_WORDS_PER_ATTACHMENT,
            r matches Ok(attachment) ==> attachment@ == (NoteAttachmentView {
                scheme: scheme@,
                words: word_views(words@),
            }),
            r matches Err(err) ==> err == (if words@.len() == 0 {
                NoteError::NoteAttachmentContentEmpty
            } else {
                NoteError::NoteAttachmentContentTooManyWords(words.len())
            }),
    {
        if words.len() == 0 {
            return Err(NoteError::NoteAttachmentContentEmpty);
        }
        if words.len() > MAX_WORDS_PER_ATTACHMENT {
            return Err(NoteError::NoteAttachmentContentTooManyWords(words.len()));
        }
        Ok(NoteAttachment { scheme, words })
    }

    /// Returns the scheme of the attachment.
    pub fn attachment_scheme(&self) -> (r: NoteAttachmentScheme)
        ensures
            r@ == self@.scheme,
    {
        self.scheme
    }

    /// Returns the content of the attachment.
    pub fn words(&self) -> (r: &Vec<Word>)
        ensures
            word_views(r@) == self@.words,
            1 <= r@.len() <= MAX_WORDS_PER_ATTACHMENT,
    {
        proof {
            use_type_invariant(self);
        }
        &self.words
    }

    /// Returns the commitment to the attachment.
    pub fn to_commitment(&self) -> (r: Word)
        ensures
            r@ == attachment_commitment(self@),
    {
        proof {
            use_type_invariant(self);
        }
        protocol::attachment_commitment(self.scheme.as_u16(), &self.words)
    }
}

impl Clone for NoteAttachment {
    fn clone(&self) -> (r: NoteAttachment)
        ensures
            r@ == self@,
    {
        proof {
            use_type_invariant(self);
        }
        let words = self.words.clone();
        assert(words@ =~= self.words@);
        NoteAttachment { scheme: self.scheme, words }
    }
}

// ATTACHMENTS

/// Each attachment as its scheme and its words.
pub open spec fn attachment_views(attachments: Seq<NoteAttachment>) -> Seq<NoteAttachmentView> {
    attachments.map_values(|attachment: NoteAttachment| attachment@)
}

/// The commitment to each attachment.
pub open spec fn commitments_to(attachments: Seq<NoteAttachmentView>) -> Seq<Seq<u64>> {
    attachments.map_values(|attachment: NoteAttachmentView| attachment_commitment(attachment))
}

/// The scheme of each attachment.
pub open spec fn schemes_of(attachments: Seq<NoteAttachmentView>) -> Seq<u16> {
    attachments.map_values(|attachment: NoteAttachmentView| attachment.scheme)
}

/// The commitment to a note's attachments, from the commitment to each of them: the hash of their
/// elements.
pub open spec fn commitment_over(commitments: Seq<Seq<u64>>) -> Seq<u64> {
    protocol::poseidon2(commitments.flatten())
}

/// The commitment to a note's attachments.
pub open spec fn attachments_commitment(attachments: Seq<NoteAttachmentView>) -> Seq<u64> {
    commitment_over(commitments_to(attachments))
}

/// The number of words of all attachments together.
pub open spec fn total_words(attachments: Seq<NoteAttachmentView>) -> nat
    decreases attachments.len(),
{
    if attachments.len() == 0 {
        0
    } else {
        total_words(attachments.drop_last()) + attachments.last().words.len()
    }
}

/// The attachments of a note. They are viewed as the attachments in order.
#[derive(Debug, PartialEq, Eq)]
pub struct NoteAttachments {
    attachments: Vec<NoteAttachment>,
}

impl View for NoteAttachments {
    type V = Seq<NoteAttachmentView>;

    closed spec fn view(&self) -> Seq<NoteAttachmentView> {
        attachment_views(self.attachments@)
    }
}

impl NoteAttachments {
    #[verifier::type_invariant]
    spec fn valid(self) -> bool {
        &&& self@.len() <= MAX_COUNT
        &&& total_words(self@) <= MAX_WORDS_PER_NOTE
    }

    /// Returns the attachments of a note that has none.
    pub fn empty() -> (r: NoteAttachments)
        ensures
            r@ == Seq::<NoteAttachmentView>::empty(),
    {
        let attachments: Vec<NoteAttachment> = Vec::new();
        assert(attachment_views(attachments@) =~= Seq::<NoteAttachmentView>::empty());
        NoteAttachments { attachments }
    }

    /// Returns the attachments of a note.
    ///
    /// # Errors
    ///
    /// Returns an error if there are more than [`MAX_COUNT`], or if they have more than
    /// [`MAX_WORDS_PER_NOTE`] words together.
    pub fn new(attachments: Vec<NoteAttachment>) -> (r: Result<NoteAttachments, NoteError>)
        ensures
            r is Ok <==> {
                &&& attachments@.len() <= MAX_COUNT
                &&& total_words(attachment_views(attachments@)) <= MAX_WORDS_PER_NOTE
            },
            r matches Ok(all) ==> all@ == attachment_views(attachments@),
            r matches Err(err) ==> if attachments@.len() > MAX_COUNT {
                err == NoteError::TooManyAttachments(attachments.len())
            } else {
                err matches NoteError::NoteAttachmentsTooManyWords(n) && n == total_words(
                    attachment_views(attachments@),
                )
            },
    {
        if attachments.len() > MAX_COUNT {
            return Err(NoteError::TooManyAttachments(attachments.len()));
        }
        let ghost views = attachment_views(attachments@);
        let mut total: usize = 0;
        let mut i: usize = 0;
        assert(views.take(0) =~= Seq::<NoteAttachmentView>::empty());
        while i < attachments.len()
            invariant
                i <= attachments@.len() <= MAX_COUNT,
                views == attachment_views(attachments@),
                total == total_words(views.take(i as int)),
                total <= i * MAX_WORDS_PER_ATTACHMENT,
            decreases attachments.len() - i,
        {
            let words = attachments[i].words();
            assert(views.take(i + 1).drop_last() =~= views.take(i as int));
            assert(words@.len() == views[i as int].words.len());
            total = total + words.len();
            i = i + 1;
        }
        assert(views.take(i as int) =~= views);
        if total > MAX_WORDS_PER_NOTE {
            return Err(NoteError::NoteAttachmentsTooManyWords(total));
        }
        Ok(NoteAttachments { attachments })
    }

    /// Returns the number of attachments.
    pub fn num_attachments(&self) -> (r: usize)
        ensures
            r == self@.len(),
            r <= MAX_COUNT,
    {
        proof {
            use_type_invariant(self);
        }
        self.attachments.len()
    }

    /// Returns the attachment in the given slot, if there is one.
    pub fn get(&self, slot: usize) -> (r: Option<&NoteAttachment>)
        ensures
            r is Some <==> slot < self@.len(),
            r matches Some(attachment) ==> attachment@ == self@[slot as int],
    {
        if slot < self.attachments.len() {
            Some(&self.attachments[slot])
        } else {
            None
        }
    }

    /// Returns the commitment to the attachments. Where there is none it is the word of zeros.
    pub fn to_commitment(&self) -> (r: Word)
        ensures
            r@ == attachments_commitment(self@),
            self@.len() == 0 ==> r@ == seq![0u64, 0, 0, 0],
    {
        proof {
            use_type_invariant(self);
        }
        protocol::attachments_commitment(&self.attachments)
    }
}

impl Clone for NoteAttachments {
    fn clone(&self) -> (r: NoteAttachments)
        ensures
            r@ == self@,
    {
        proof {
            use_type_invariant(self);
        }
        let mut attachments: Vec<NoteAttachment> = Vec::new();
        let mut i: usize = 0;
        while i < self.attachments.len()
            invariant
                i <= self.attachments@.len(),
                attachments@.len() == i,
                forall|j: int| 0 <= j < i ==> #[trigger] attachments@[j]@ == self.attachments@[j]@,
            decreases self.attachments.len() - i,
        {
            let attachment = self.attachments[i].clone();
            attachments.push(attachment);
            i = i + 1;
        }
        assert(attachment_views(attachments@) =~= attachment_views(self.attachments@));
        NoteAttachments { attachments }
    }
}

// COMMITMENTS

/// The commitments to a note's attachments, in slot order.
pub struct AttachmentCommitments<'a>(pub &'a [Word]);

impl<'a> AttachmentCommitments<'a> {
    /// Returns the elements of the commitments.
    pub fn to_elements(&self) -> (r: Vec<u64>)
        ensures
            r@ == word_views(self.0@).flatten(),
    {
        let ghost views = word_views(self.0@);
        let mut elements: Vec<u64> = Vec::new();
        let mut i: usize = 0;
        assert(views.take(0).flatten() =~= Seq::<u64>::empty());
        while i < self.0.len()
            invariant
                i <= self.0@.len(),
                views == word_views(self.0@),
                elements@ == views.take(i as int).flatten(),
            decreases self.0.len() - i,
        {
            let commitment = self.0[i].as_elements();
            elements.push(commitment[0]);
            elements.push(commitment[1]);
            elements.push(commitment[2]);
            elements.push(commitment[3]);
            proof {
                let before = views.take(i as int);
                lemma_flatten_push(before, views[i as int]);
                assert(views.take(i + 1) =~= before.push(views[i as int]));
                assert(elements@ =~= before.flatten() + views[i as int]);
            }
            i = i + 1;
        }
        assert(views.take(i as int) =~= views);
        elements
    }

    /// Returns the commitment to the attachments. Where there is none it is the word of zeros.
    pub fn to_commitment(&self) -> (r: Word)
        ensures
            r@ == commitment_over(word_views(self.0@)),
            self.0@.len() == 0 ==> r@ == seq![0u64, 0, 0, 0],
    {
        let elements = self.to_elements();
        proof {
            if self.0@.len() == 0 {
                assert(elements@ =~= Seq::<u64>::empty());
            }
        }
        protocol::hash_elements(&elements)
    }
}

/// Flattening one part more appends it.
proof fn lemma_flatten_push(parts: Seq<Seq<u64>>, part: Seq<u64>)
    ensures
        parts.push(part).flatten() == parts.flatten() + part,
{
    parts.push(part).lemma_flatten_and_flatten_alt_are_equivalent();
    parts.lemma_flatten_and_flatten_alt_are_equivalent();
    assert(parts.push(part).drop_last() =~= parts);
}

// LAWS

/// Every number is an attachment scheme but the lowest and the highest one.
pub proof fn law_schemes(value: u16)
    ensures
        is_scheme(value) <==> value != 0 && value != u16::MAX,
{
}

/// How many attachments a note can have, how many words an attachment can have, and how many words
/// a note's attachments can have together.
pub proof fn law_limits()
    ensures
        MAX_COUNT == 4,
        MAX_WORDS_PER_ATTACHMENT == 256,
        MAX_WORDS_PER_NOTE == 2 * MAX_WORDS_PER_ATTACHMENT,
        MAX_SCHEME == u16::MAX - 1,
{
}

/// The words of attachments add up: none have no words, one has its own, and two sequences of
/// attachments have together what each of them has.
pub proof fn law_words_add_up(
    attachment: NoteAttachmentView,
    left: Seq<NoteAttachmentView>,
    right: Seq<NoteAttachmentView>,
)
    ensures
        total_words(Seq::empty()) == 0,
        total_words(seq![attachment]) == attachment.words.len(),
        total_words(left + right) == total_words(left) + total_words(right),
    decreases right.len(),
{
    assert(seq![attachment].drop_last() =~= Seq::empty());
    assert(total_words(seq![attachment].drop_last()) == 0);
    if right.len() == 0 {
        assert(left + right =~= left);
    } else {
        law_words_add_up(attachment, left, right.drop_last());
        assert((left + right).drop_last() =~= left + right.drop_last());
    }
}

/// The commitment to attachments is the hash over the hash of each attachment's words, in order.
/// The schemes have no part in it.
pub proof fn law_commitment_to_attachments(
    attachments: Seq<NoteAttachmentView>,
    commitments: Seq<Seq<u64>>,
)
    requires
        commitments.len() == attachments.len(),
        forall|i: int|
            0 <= i < attachments.len() ==> #[trigger] commitments[i] == protocol::poseidon2(
                attachments[i].words.flatten(),
            ),
    ensures
        forall|i: int|
            0 <= i < attachments.len() ==> attachment_commitment(#[trigger] attachments[i])
                == commitments[i],
        commitments_to(attachments) == commitments,
        commitment_over(commitments) == protocol::poseidon2(commitments.flatten()),
        attachments_commitment(attachments) == protocol::poseidon2(commitments.flatten()),
{
    assert forall|i: int| 0 <= i < attachments.len() implies attachment_commitment(
        #[trigger] attachments[i],
    ) == commitments[i] by {
        assert(commitments[i] == protocol::poseidon2(attachments[i].words.flatten()));
    }
    assert(commitments_to(attachments) =~= commitments);
}

/// The commitment to an attachment of a single word is the hash of that word.
pub proof fn law_commitment_to_a_word(attachment: NoteAttachmentView, word: Seq<u64>)
    requires
        attachment.words == seq![word],
    ensures
        attachment_commitment(attachment) == protocol::poseidon2(word),
{
    lemma_flatten_push(Seq::empty(), word);
    assert(Seq::<Seq<u64>>::empty().push(word) =~= seq![word]);
    assert(Seq::<Seq<u64>>::empty().flatten() =~= Seq::<u64>::empty());
    assert(attachment.words.flatten() =~= word);
}

/// Attachments of the same contents have the same commitment, whatever their schemes are.
pub proof fn law_schemes_are_not_committed_to(
    left: Seq<NoteAttachmentView>,
    right: Seq<NoteAttachmentView>,
)
    requires
        left.len() == right.len(),
        forall|i: int| 0 <= i < left.len() ==> (#[trigger] left[i]).words == right[i].words,
    ensures
        attachments_commitment(left) == attachments_commitment(right),
{
    assert(commitments_to(left) =~= commitments_to(right));
}

/// The schemes of attachments, slot by slot, and the headers that hold them.
pub proof fn law_schemes_by_slot(attachments: Seq<NoteAttachmentView>)
    ensures
        schemes_of(attachments).len() == attachments.len(),
        forall|i: int|
            0 <= i < attachments.len() ==> #[trigger] schemes_of(attachments)[i]
                == attachments[i].scheme,
        headers_of(schemes_of(attachments)).len() == 4,
        forall|slot: int|
            0 <= slot < 4 ==> (#[trigger] headers_of(schemes_of(attachments))[slot] is Some <==> slot
                < attachments.len()),
        forall|slot: int|
            0 <= slot < 4 && slot < attachments.len() ==> #[trigger] headers_of(
                schemes_of(attachments),
            )[slot] == Some(attachments[slot].scheme),
{
}

/// Words and attachments are viewed one by one, in order.
pub proof fn law_views_one_by_one(words: Seq<Word>, attachments: Seq<NoteAttachment>)
    ensures
        word_views(words).len() == words.len(),
        forall|i: int| 0 <= i < words.len() ==> #[trigger] word_views(words)[i] == words[i]@,
        attachment_views(attachments).len() == attachments.len(),
        forall|i: int|
            0 <= i < attachments.len() ==> #[trigger] attachment_views(attachments)[i]
                == attachments[i]@,
{
}

} // verus!
