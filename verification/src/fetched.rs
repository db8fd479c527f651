//! Notes fetched by their ids.

use miden_protocol::note::NoteDetails;
use vstd::prelude::*;

use crate::attachment::{NoteAttachmentView, NoteAttachments};
use crate::committed;
use crate::errors;
use crate::errors::{RpcConversionError, RpcConversionErrorView};
use crate::location::NoteInclusionProof;
use crate::metadata;
use crate::metadata::{NoteMetadata, NoteMetadataView, PartialNoteMetadata};
use crate::proto;
use crate::protocol;
use crate::word::NoteId;

verus! {

/// [`Note`], with its parts as their views.
pub struct NoteView {
    pub metadata: NoteMetadataView,
    pub attachments: Seq<NoteAttachmentView>,
    pub details: NoteDetails,
}

impl NoteView {
    /// The id of the note. It commits to the body and to the metadata.
    pub open spec fn id(self) -> Seq<u64> {
        protocol::note_id(protocol::details_commitment(self.details), self.metadata)
    }

    /// Whether the metadata is the one that a note with these attachments commits to.
    pub open spec fn consistent(self) -> bool {
        self.metadata == metadata::metadata_for(self.metadata.partial, self.attachments)
    }
}

/// A note with all the data required for it to be consumed.
#[derive(Debug)]
pub struct Note {
    /// The metadata of the note.
    metadata: NoteMetadata,
    /// The attachments of the note.
    attachments: NoteAttachments,
    /// The body of the note.
    details: NoteDetails,
}

impl View for Note {
    type V = NoteView;

    closed spec fn view(&self) -> NoteView {
        NoteView {
            metadata: self.metadata@,
            attachments: self.attachments@,
            details: self.details,
        }
    }
}

impl Note {
    #[verifier::type_invariant]
    spec fn valid(self) -> bool {
        self@.consistent()
    }

    /// Returns the note of the given body and attachments.
    pub fn with_attachments(
        details: NoteDetails,
        partial: PartialNoteMetadata,
        attachments: NoteAttachments,
    ) -> (r: Note)
        ensures
            r@ == (NoteView {
                metadata: metadata::metadata_for(partial, attachments@),
                attachments: attachments@,
                details,
            }),
    {
        let metadata = NoteMetadata::new(partial, &attachments);
        Note { metadata, attachments, details }
    }

    /// Returns the note's id.
    pub fn id(&self) -> (r: NoteId)
        ensures
            r@ == self@.id(),
    {
        let details_commitment = protocol::commitment_to_details(&self.details);
        NoteId::from_raw(protocol::header_id(&details_commitment, &self.metadata))
    }

    /// Returns the note's metadata. It is the one that a note with these attachments commits to.
    pub fn metadata(&self) -> (r: &NoteMetadata)
        ensures
            r@ == self@.metadata,
            self@.consistent(),
    {
        proof {
            use_type_invariant(self);
        }
        &self.metadata
    }

    /// Returns the note's attachments.
    pub fn attachments(&self) -> (r: &NoteAttachments)
        ensures
            r@ == self@.attachments,
    {
        &self.attachments
    }

    /// Returns the note's body.
    pub fn details(&self) -> (r: &NoteDetails)
        ensures
            *r == self@.details,
    {
        &self.details
    }
}

/// [`FetchedNote`], with its parts as their views.
pub enum FetchedNoteView {
    Private(Seq<u64>, NoteMetadataView, Seq<NoteAttachmentView>, NoteInclusionProof),
    Public(NoteView, NoteInclusionProof),
}

/// Describes the possible responses to a request for a single note by its id.
#[derive(Debug)]
pub enum FetchedNote {
    /// Details for a private note include its ID, metadata, attachments and inclusion proof. Other
    /// details needed to consume the note are expected to be stored locally, off-chain.
    ///
    /// Attachments are a public extension of the note and are stored on-chain even for private
    /// notes, so the node returns them here; they are needed to reconstruct the correct note ID.
    Private(NoteId, NoteMetadata, NoteAttachments, NoteInclusionProof),
    /// Contains the full [`Note`] object alongside its [`NoteInclusionProof`].
    Public(Note, NoteInclusionProof),
}

impl View for FetchedNote {
    type V = FetchedNoteView;

    open spec fn view(&self) -> FetchedNoteView {
        match *self {
            FetchedNote::Private(note_id, metadata, attachments, inclusion_proof) =>
                FetchedNoteView::Private(note_id@, metadata@, attachments@, inclusion_proof),
            FetchedNote::Public(note, inclusion_proof) => FetchedNoteView::Public(
                note@,
                inclusion_proof,
            ),
        }
    }
}

impl FetchedNote {
    /// Returns the note's inclusion details.
    pub fn inclusion_proof(&self) -> (r: &NoteInclusionProof)
        ensures
            *r == (match self@ {
                FetchedNoteView::Private(_, _, _, inclusion_proof) => inclusion_proof,
                FetchedNoteView::Public(_, inclusion_proof) => inclusion_proof,
            }),
    {
        match self {
            FetchedNote::Private(_, _, _, inclusion_proof) => inclusion_proof,
            FetchedNote::Public(_, inclusion_proof) => inclusion_proof,
        }
    }

    /// Returns the note's metadata.
    pub fn metadata(&self) -> (r: &NoteMetadata)
        ensures
            r@ == (match self@ {
                FetchedNoteView::Private(_, metadata, _, _) => metadata,
                FetchedNoteView::Public(note, _) => note.metadata,
            }),
    {
        match self {
            FetchedNote::Private(_, metadata, _, _) => metadata,
            FetchedNote::Public(note, _) => note.metadata(),
        }
    }

    /// Returns the note's attachments.
    pub fn attachments(&self) -> (r: &NoteAttachments)
        ensures
            r@ == (match self@ {
                FetchedNoteView::Private(_, _, attachments, _) => attachments,
                FetchedNoteView::Public(note, _) => note.attachments,
            }),
    {
        match self {
            FetchedNote::Private(_, _, attachments, _) => attachments,
            FetchedNote::Public(note, _) => note.attachments(),
        }
    }

    /// Returns the note's ID.
    pub fn id(&self) -> (r: NoteId)
        ensures
            r@ == (match self@ {
                FetchedNoteView::Private(note_id, _, _, _) => note_id,
                FetchedNoteView::Public(note, _) => note.id(),
            }),
    {
        match self {
            FetchedNote::Private(note_id, _, _, _) => *note_id,
            FetchedNote::Public(note, _) => note.id(),
        }
    }
}

/// The fetched note that a message stands for.
///
/// A public note carries its details, so the full note is decoded. A private note carries only the
/// metadata and the attachments the node can report.
pub open spec fn decoded_fetched_note(value: proto::CommittedNote) -> Result<
    FetchedNoteView,
    RpcConversionErrorView,
> {
    match value.inclusion_proof {
        None => Err(errors::missing_field("CommittedNote"@, "inclusion_proof"@)),
        Some(Err(err)) => Err(RpcConversionErrorView::Undecodable(err@)),
        Some(Ok((note_id, inclusion_proof))) => match value.note {
            None => Err(errors::missing_field("CommittedNote"@, "note"@)),
            Some(message) => match message.note_details {
                Some(Err(err)) => Err(RpcConversionErrorView::Undecodable(err@)),
                Some(Ok(note)) => Ok(FetchedNoteView::Public(note@, inclusion_proof)),
                None => match message.metadata {
                    None => Err(errors::missing_field("CommittedNote"@, "note.metadata"@)),
                    Some(Err(err)) => Err(RpcConversionErrorView::Undecodable(err@)),
                    Some(Ok(metadata)) => match message.note_attachments {
                        None => Ok(
                            FetchedNoteView::Private(
                                note_id@,
                                metadata@,
                                Seq::empty(),
                                inclusion_proof,
                            ),
                        ),
                        Some(Err(err)) => Err(RpcConversionErrorView::Undecodable(err@)),
                        Some(Ok(attachments)) => Ok(
                            FetchedNoteView::Private(
                                note_id@,
                                metadata@,
                                attachments@,
                                inclusion_proof,
                            ),
                        ),
                    },
                },
            },
        },
    }
}

impl TryFrom<proto::CommittedNote> for FetchedNote {
    type Error = RpcConversionError;

    fn try_from(value: proto::CommittedNote) -> (r: Result<FetchedNote, RpcConversionError>)
        ensures
            errors::result_view(r) == decoded_fetched_note(value),
    {
        let inclusion_proof = match value.inclusion_proof {
            Some(inclusion_proof) => inclusion_proof,
            None => return Err(
                RpcConversionError::MissingFieldInProtobufRepresentation {
                    entity: "CommittedNote",
                    field_name: "inclusion_proof",
                },
            ),
        };
        let (note_id, inclusion_proof) = match committed::note_inclusion_proof_from_proto(
            inclusion_proof,
        ) {
            Ok(decoded) => decoded,
            Err(err) => return Err(err),
        };
        let note = match value.note {
            Some(note) => note,
            None => return Err(
                RpcConversionError::MissingFieldInProtobufRepresentation {
                    entity: "CommittedNote",
                    field_name: "note",
                },
            ),
        };
        match note.note_details {
            Some(Ok(note)) => Ok(FetchedNote::Public(note, inclusion_proof)),
            Some(Err(err)) => Err(RpcConversionError::Undecodable(err)),
            None => {
                let metadata = match note.metadata {
                    Some(Ok(metadata)) => metadata,
                    Some(Err(err)) => return Err(RpcConversionError::Undecodable(err)),
                    None => return Err(
                        RpcConversionError::MissingFieldInProtobufRepresentation {
                            entity: "CommittedNote",
                            field_name: "note.metadata",
                        },
                    ),
                };
                let attachments = match note.note_attachments {
                    Some(Ok(attachments)) => attachments,
                    Some(Err(err)) => return Err(RpcConversionError::Undecodable(err)),
                    None => NoteAttachments::empty(),
                };
                Ok(FetchedNote::Private(note_id, metadata, attachments, inclusion_proof))
            },
        }
    }
}

impl vstd::std_specs::convert::TryFromSpecImpl<proto::CommittedNote> for FetchedNote {
    open spec fn obeys_try_from_spec() -> bool {
        false
    }

    open spec fn try_from_spec(value: proto::CommittedNote) -> Result<
        FetchedNote,
        RpcConversionError,
    > {
        arbitrary()
    }
}

/// A fetched note is viewed as its parts.
pub proof fn law_fetched_view(note: FetchedNote)
    ensures
        note matches FetchedNote::Private(id, metadata, attachments, proof) ==> note@
            == FetchedNoteView::Private(id@, metadata@, attachments@, proof),
        note matches FetchedNote::Public(whole, proof) ==> note@ == FetchedNoteView::Public(
            whole@,
            proof,
        ),
{
}

} // verus!
