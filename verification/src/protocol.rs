//! What the library takes from the protocol crate: the types that it only carries, and the calls
//! that it makes.
//!
//! Everything in this module is trusted. Each contract says what the protocol crate's function
//! does.

use miden_protocol::note;
use miden_protocol::note::{
    NoteAttachmentHeader, NoteAttachmentScheme, NoteAttachments, NoteDetailsCommitment, NoteHeader,
};
use miden_protocol::{Felt, Hasher};
use vstd::prelude::*;

use crate::attachment;
use crate::attachment::NoteAttachment;
use crate::metadata::{NoteMetadata, NoteMetadataView, NoteType};
use crate::text;
use crate::word::Word;

verus! {

/// The id of an account, as the protocol crate represents it.
#[verifier::external_type_specification]
#[verifier::external_body]
pub struct ExAccountId(miden_protocol::account::AccountId);

/// The header of a block, as the protocol crate represents it.
#[verifier::external_type_specification]
#[verifier::external_body]
pub struct ExBlockHeader(miden_protocol::block::BlockHeader);

/// A Merkle path that leaves out empty nodes, as the protocol crate represents it.
#[verifier::external_type_specification]
#[verifier::external_body]
pub struct ExSparseMerklePath(miden_protocol::crypto::merkle::SparseMerklePath);

/// The body of a note (its assets and its recipient), as the protocol crate represents it.
#[verifier::external_type_specification]
#[verifier::external_body]
pub struct ExNoteDetails(miden_protocol::note::NoteDetails);

/// `SparseMerklePath::clone` returns a path of the same nodes.
pub assume_specification[ <miden_protocol::crypto::merkle::SparseMerklePath as Clone>::clone ](
    path: &miden_protocol::crypto::merkle::SparseMerklePath,
) -> (r: miden_protocol::crypto::merkle::SparseMerklePath)
    ensures
        r == *path,
;

/// `BlockHeader::clone` returns a header of the same fields.
pub assume_specification[ <miden_protocol::block::BlockHeader as Clone>::clone ](
    header: &miden_protocol::block::BlockHeader,
) -> (r: miden_protocol::block::BlockHeader)
    ensures
        r == *header,
;

/// `NoteDetails::clone` returns details of the same assets and recipient.
pub assume_specification[ <miden_protocol::note::NoteDetails as Clone>::clone ](
    details: &miden_protocol::note::NoteDetails,
) -> (r: miden_protocol::note::NoteDetails)
    ensures
        r == *details,
;

/// What `Poseidon2::hash_elements` returns for a sequence of field elements.
pub uninterp spec fn poseidon2(elements: Seq<u64>) -> Seq<u64>;

/// Calls `Poseidon2::hash_elements`.
///
/// The result is named by [`poseidon2`]. Of its value only this is said: the hash of no elements
/// is the word of zeros, since the sponge then returns its initial state.
#[verifier::external_body]
pub(crate) fn hash_elements(elements: &Vec<u64>) -> (r: Word)
    ensures
        r@ == poseidon2(elements@),
        elements@.len() == 0 ==> r@ == seq![0u64, 0, 0, 0],
{
    let felts: Vec<Felt> = elements.iter().map(|e| Felt::new_unchecked(*e)).collect();
    let [a, b, c, d]: [u64; 4] = Hasher::hash_elements(&felts).into();
    Word { a, b, c, d }
}

/// Calls `NoteAttachment::to_commitment` on the attachment of the given scheme and content.
///
/// The commitment is the hash of the elements of the content's words, in order. The scheme has no
/// part in it.
#[verifier::external_body]
pub(crate) fn attachment_commitment(scheme: u16, words: &Vec<Word>) -> (r: Word)
    requires
        attachment::is_scheme(scheme),
        1 <= words@.len() <= attachment::MAX_WORDS_PER_ATTACHMENT,
    ensures
        r@ == poseidon2(attachment::word_views(words@).flatten()),
{
    let scheme = NoteAttachmentScheme::new(scheme).unwrap();
    let words = words.iter().map(|w| [w.a, w.b, w.c, w.d].try_into().unwrap()).collect();
    let attachment = miden_protocol::note::NoteAttachment::with_words(scheme, words).unwrap();
    let [a, b, c, d]: [u64; 4] = attachment.to_commitment().into();
    Word { a, b, c, d }
}

/// Calls `NoteAttachments::to_commitment` on the given attachments.
///
/// The commitment is the hash of the elements of each attachment's own commitment, in order, and
/// the word of zeros where there is no attachment.
#[verifier::external_body]
pub(crate) fn attachments_commitment(attachments: &Vec<NoteAttachment>) -> (r: Word)
    requires
        attachments@.len() <= attachment::MAX_COUNT,
        attachment::total_words(attachment::attachment_views(attachments@))
            <= attachment::MAX_WORDS_PER_NOTE,
    ensures
        r@ == attachment::attachments_commitment(attachment::attachment_views(attachments@)),
        attachments@.len() == 0 ==> r@ == seq![0u64, 0, 0, 0],
{
    let convert = |attachment: &NoteAttachment| {
        let scheme = NoteAttachmentScheme::new(attachment.scheme.as_u16()).unwrap();
        let words = attachment.words.iter();
        let words = words.map(|w| [w.a, w.b, w.c, w.d].try_into().unwrap()).collect();
        miden_protocol::note::NoteAttachment::with_words(scheme, words).unwrap()
    };
    let attachments = NoteAttachments::new(attachments.iter().map(convert).collect()).unwrap();
    let [a, b, c, d]: [u64; 4] = attachments.to_commitment().into();
    Word { a, b, c, d }
}

/// The text of the error that `NoteAttachmentScheme::new` returns for a number that is no scheme.
pub open spec fn scheme_error_text(value: u16) -> Seq<char> {
    if value == 0 {
        "attachment scheme value 0 is reserved"@
    } else {
        "attachment scheme "@ + text::nat_text(value as nat)
            + " exceeds maximum value of 65534"@
    }
}

/// Calls `NoteAttachmentScheme::new`.
///
/// It accepts every number but zero and those above the highest scheme, and keeps the number. The
/// error is given as its text.
#[verifier::external_body]
pub(crate) fn attachment_scheme(value: u16) -> (r: Result<u16, String>)
    ensures
        r is Ok <==> attachment::is_scheme(value),
        r matches Ok(scheme) ==> scheme == value,
        r matches Err(text) ==> text@ == scheme_error_text(value),
{
    match NoteAttachmentScheme::new(value) {
        Ok(scheme) => Ok(scheme.as_u16()),
        Err(err) => Err(err.to_string()),
    }
}

/// What `NoteDetails::commitment` returns for the body of a note.
pub uninterp spec fn details_commitment(details: miden_protocol::note::NoteDetails) -> Seq<u64>;

/// Calls `NoteDetails::commitment`.
///
/// The result is named by [`details_commitment`]. It is a hash over the assets and the recipient of
/// the body.
#[verifier::external_body]
pub(crate) fn commitment_to_details(details: &miden_protocol::note::NoteDetails) -> (r: Word)
    ensures
        r@ == details_commitment(*details),
{
    let [a, b, c, d]: [u64; 4] = details.commitment().as_word().into();
    Word { a, b, c, d }
}

/// What `NoteHeader::id` returns for a commitment to the body of a note and the note's metadata.
pub uninterp spec fn note_id(details_commitment: Seq<u64>, metadata: NoteMetadataView) -> Seq<u64>;

/// Calls `NoteHeader::id` on the header of the given commitment and metadata.
///
/// The result is named by [`note_id`]. It is a hash over the commitment and the metadata.
#[verifier::external_body]
pub(crate) fn header_id(details: &Word, metadata: &NoteMetadata) -> (r: Word)
    ensures
        r@ == note_id(details@, metadata@),
{
    let note_type = match metadata.partial.note_type {
        NoteType::Private => note::NoteType::Private,
        NoteType::Public => note::NoteType::Public,
    };
    let metadata = note::NoteMetadata::from_parts(
        note::PartialNoteMetadata::new(metadata.partial.sender, note_type)
            .with_tag(metadata.partial.tag.value.into()),
        metadata.attachment_headers.map(|header| NoteAttachmentHeader::new_maybe(
            header.scheme.map(|scheme| NoteAttachmentScheme::new(scheme.value).unwrap()),
        )),
        metadata.attachments_commitment.as_elements().try_into().unwrap(),
    );
    let details = NoteDetailsCommitment::from_raw(details.as_elements().try_into().unwrap());
    let [a, b, c, d]: [u64; 4] = NoteHeader::new(details, metadata).id().as_word().into();
    Word { a, b, c, d }
}

/// Formats the `NoteId` that the given word is, as its `Display` does.
///
/// The text is `0x` followed by the bytes of the word's elements, each element in canonical form
/// and with its least significant byte first, as two lower-case hexadecimal digits each.
#[verifier::external_body]
pub(crate) fn note_id_text(word: &Word) -> (r: String)
    ensures
        r@ == text::word_text(word@),
{
    let word = [word.a, word.b, word.c, word.d].try_into().unwrap();
    miden_protocol::note::NoteId::from_raw(word).to_string()
}

} // verus!
