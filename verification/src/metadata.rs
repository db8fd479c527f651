//! Note metadata: who sent a note, how it is stored, and what it says of its attachments.

use miden_protocol::account::AccountId;
use vstd::prelude::*;

use crate::attachment;
use crate::attachment::{NoteAttachmentHeader, NoteAttachments, MAX_COUNT};
use crate::protocol;
use crate::word::Word;

verus! {

/// How a note is stored.
#[derive(Debug, Clone, Copy, PartialEq, Eq, Structural)]
pub enum NoteType {
    /// Only the hash of the note is published to the network.
    Private,
    /// The note is fully shared with the network.
    Public,
}

impl View for NoteType {
    type V = NoteType;

    open spec fn view(&self) -> NoteType {
        *self
    }
}

/// A value by which recipients find the notes intended for them.
#[derive(Debug, Clone, Copy, PartialEq, Eq, Structural)]
pub struct NoteTag {
    /// The tag.
    pub value: u32,
}

impl NoteTag {
    /// Returns the tag of the given value.
    pub fn new(value: u32) -> (r: NoteTag)
        ensures
            r == (NoteTag { value }),
    {
        NoteTag { value }
    }
}

/// The part of a note's metadata that its sender chooses.
#[derive(Debug, Clone, Copy, PartialEq, Eq)]
pub struct PartialNoteMetadata {
    /// The account that created the note.
    pub sender: AccountId,
    /// How the note is stored.
    pub note_type: NoteType,
    /// The tag of the note.
    pub tag: NoteTag,
}

impl PartialNoteMetadata {
    /// Returns the metadata of a note with the tag zero.
    pub fn new(sender: AccountId, note_type: NoteType) -> (r: PartialNoteMetadata)
        ensures
            r == (PartialNoteMetadata { sender, note_type, tag: NoteTag { value: 0 } }),
    {
        PartialNoteMetadata { sender, note_type, tag: NoteTag::new(0) }
    }

    /// Returns the same metadata with the given tag.
    pub fn with_tag(self, tag: NoteTag) -> (r: PartialNoteMetadata)
        ensures
            r == (PartialNoteMetadata { tag, ..self }),
    {
        PartialNoteMetadata { sender: self.sender, note_type: self.note_type, tag }
    }
}

/// A note's metadata, with the schemes of its attachment slots and the elements of its attachments
/// commitment.
pub struct NoteMetadataView {
    pub partial: PartialNoteMetadata,
    pub headers: Seq<Option<u16>>,
    pub attachments_commitment: Seq<u64>,
}

impl NoteMetadataView {
    /// Whether the metadata advertises at least one attachment.
    pub open spec fn has_attachments(self) -> bool {
        exists|slot: int|
            0 <= slot < self.headers.len() && #[trigger] self.headers[slot] is Some
    }
}

/// The metadata that a note with the given attachments commits to.
pub open spec fn metadata_for(
    partial: PartialNoteMetadata,
    attachments: Seq<attachment::NoteAttachmentView>,
) -> NoteMetadataView {
    NoteMetadataView {
        partial,
        headers: attachment::headers_of(attachment::schemes_of(attachments)),
        attachments_commitment: attachment::attachments_commitment(attachments),
    }
}

/// The metadata of a note: what its sender chose, the scheme of each of its attachments, and the
/// commitment to them.
#[derive(Debug, Clone, Copy, PartialEq, Eq)]
pub struct NoteMetadata {
    pub(crate) partial: PartialNoteMetadata,
    pub(crate) attachment_headers: [NoteAttachmentHeader; MAX_COUNT],
    pub(crate) attachments_commitment: Word,
}

impl View for NoteMetadata {
    type V = NoteMetadataView;

    closed spec fn view(&self) -> NoteMetadataView {
        NoteMetadataView {
            partial: self.partial,
            headers: header_views(self.attachment_headers@),
            attachments_commitment: self.attachments_commitment@,
        }
    }
}

/// The scheme of each slot.
pub open spec fn header_views(headers: Seq<NoteAttachmentHeader>) -> Seq<Option<u16>> {
    headers.map_values(|header: NoteAttachmentHeader| header@)
}

impl NoteMetadata {
    /// Returns the metadata of a note with the given attachments.
    pub fn new(partial: PartialNoteMetadata, attachments: &NoteAttachments) -> (r: NoteMetadata)
        ensures
            r@ == metadata_for(partial, attachments@),
    {
        let num_attachments = attachments.num_attachments();
        let ghost headers = attachment::headers_of(attachment::schemes_of(attachments@));
        let mut attachment_headers = [NoteAttachmentHeader::absent(); MAX_COUNT];
        let mut slot: usize = 0;
        while slot < num_attachments
            invariant
                slot <= num_attachments <= MAX_COUNT,
                num_attachments == attachments@.len(),
                headers == attachment::headers_of(attachment::schemes_of(attachments@)),
                forall|i: int|
                    0 <= i < MAX_COUNT ==> #[trigger] attachment_headers@[i]@ == if i < slot {
                        headers[i]
                    } else {
                        None
                    },
            decreases num_attachments - slot,
        {
            if let Some(attachment) = attachments.get(slot) {
                attachment_headers[slot] = NoteAttachmentHeader::new(
                    attachment.attachment_scheme(),
                );
            }
            slot = slot + 1;
        }
        assert(header_views(attachment_headers@) =~= headers);
        NoteMetadata::from_parts(partial, attachment_headers, attachments.to_commitment())
    }

    /// Returns the metadata of the given parts.
    pub fn from_parts(
        partial: PartialNoteMetadata,
        attachment_headers: [NoteAttachmentHeader; MAX_COUNT],
        attachments_commitment: Word,
    ) -> (r: NoteMetadata)
        ensures
            r@ == (NoteMetadataView {
                partial,
                headers: header_views(attachment_headers@),
                attachments_commitment: attachments_commitment@,
            }),
    {
        NoteMetadata { partial, attachment_headers, attachments_commitment }
    }

    /// Returns the account that created the note.
    pub fn sender(&self) -> (r: AccountId)
        ensures
            r == self@.partial.sender,
    {
        self.partial.sender
    }

    /// Returns how the note is stored.
    pub fn note_type(&self) -> (r: NoteType)
        ensures
            r == self@.partial.note_type,
    {
        self.partial.note_type
    }

    /// Returns the tag of the note.
    pub fn tag(&self) -> (r: NoteTag)
        ensures
            r == self@.partial.tag,
    {
        self.partial.tag
    }

    /// Returns the header of each attachment slot.
    pub fn attachment_headers(&self) -> (r: &[NoteAttachmentHeader; MAX_COUNT])
        ensures
            header_views(r@) == self@.headers,
    {
        &self.attachment_headers
    }

    /// Returns the commitment to the note's attachments.
    pub fn attachments_commitment(&self) -> (r: Word)
        ensures
            r@ == self@.attachments_commitment,
    {
        self.attachments_commitment
    }

    /// Returns `true` if the metadata advertises at least one attachment.
    pub fn has_attachments(&self) -> (r: bool)
        ensures
            r == self@.has_attachments(),
    {
        let mut slot: usize = 0;
        while slot < MAX_COUNT
            invariant
                slot <= MAX_COUNT,
                forall|i: int| 0 <= i < slot ==> #[trigger] self@.headers[i] is None,
            decreases MAX_COUNT - slot,
        {
            if !self.attachment_headers[slot].is_absent() {
                assert(self@.headers[slot as int] is Some);
                return true;
            }
            slot = slot + 1;
        }
        false
    }
}

/// The metadata of a note with attachments keeps what the sender chose, gives the scheme of each
/// attachment in its slot and nothing in the others, and holds the hash over the hashes of the
/// attachments' contents.
pub proof fn law_metadata_follows_attachments(
    partial: PartialNoteMetadata,
    attachments: Seq<attachment::NoteAttachmentView>,
    commitments: Seq<Seq<u64>>,
)
    requires
        commitments.len() == attachments.len(),
        forall|i: int|
            0 <= i < attachments.len() ==> #[trigger] commitments[i] == protocol::poseidon2(
                attachments[i].words.flatten(),
            ),
    ensures
        metadata_for(partial, attachments).partial == partial,
        metadata_for(partial, attachments).headers.len() == 4,
        forall|slot: int|
            0 <= slot < 4 && slot < attachments.len() ==> #[trigger] metadata_for(
                partial,
                attachments,
            ).headers[slot] == Some(attachments[slot].scheme),
        forall|slot: int|
            attachments.len() <= slot < 4 ==> #[trigger] metadata_for(
                partial,
                attachments,
            ).headers[slot] == None::<u16>,
        metadata_for(partial, attachments).attachments_commitment == protocol::poseidon2(
            commitments.flatten(),
        ),
        metadata_for(partial, attachments).has_attachments() <==> attachments.len() > 0,
{
    attachment::law_commitment_to_attachments(attachments, commitments);
    let headers = metadata_for(partial, attachments).headers;
    if attachments.len() > 0 {
        assert(headers[0] is Some);
    }
}

/// Metadata advertises attachments where a header is set, and only there.
pub proof fn law_advertised_by_a_header(metadata: NoteMetadataView)
    ensures
        (forall|slot: int|
            0 <= slot < metadata.headers.len() ==> #[trigger] metadata.headers[slot] is None)
            <==> !metadata.has_attachments(),
{
}

/// Headers are viewed one by one, in order.
pub proof fn law_headers_one_by_one(headers: Seq<NoteAttachmentHeader>)
    ensures
        header_views(headers).len() == headers.len(),
        forall|slot: int|
            0 <= slot < headers.len() ==> #[trigger] header_views(headers)[slot] == headers[slot]@,
{
}

} // verus!
