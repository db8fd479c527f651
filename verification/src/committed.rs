//! Notes that a notes sync reports as committed.

use miden_protocol::account::AccountId;
use vstd::prelude::*;
use vstd::string::StringExecFns;

use crate::attachment;
use crate::attachment::{NoteAttachmentView, NoteAttachments};
use crate::errors;
use crate::errors::{ConversionError, RpcConversionError, RpcConversionErrorView};
use crate::location::{BlockNumber, NoteInclusionProof};
use crate::metadata::{NoteMetadata, NoteMetadataView, NoteTag, NoteType};
use crate::proto::NoteSyncRecord;
use crate::sync;
use crate::sync::SyncNoteMetadata;
use crate::text;
use crate::word;
use crate::word::{NoteId, Word};

verus! {

// DECODED IDS AND PROOFS

/// Decodes a note inclusion proof and the id of the note it proves.
///
/// # Errors
///
/// Returns an error if the message could not be decoded.
pub fn note_inclusion_proof_from_proto(
    value: Result<(NoteId, NoteInclusionProof), ConversionError>,
) -> (r: Result<(NoteId, NoteInclusionProof), RpcConversionError>)
    ensures
        value matches Ok(decoded) ==> r == Ok::<_, RpcConversionError>(decoded),
        value matches Err(err) ==> r == Err::<(NoteId, NoteInclusionProof), _>(
            RpcConversionError::Undecodable(err),
        ),
{
    match value {
        Ok(decoded) => Ok(decoded),
        Err(err) => Err(RpcConversionError::Undecodable(err)),
    }
}

/// Decodes a note id.
///
/// # Errors
///
/// Returns an error if the message could not be decoded.
pub fn note_id_from_proto(value: Result<Word, ConversionError>) -> (r: Result<
    NoteId,
    RpcConversionError,
>)
    ensures
        value matches Ok(word) ==> (r matches Ok(id) && id@ == word@),
        value matches Err(err) ==> r == Err::<NoteId, _>(RpcConversionError::Undecodable(err)),
{
    match value {
        Ok(word) => Ok(NoteId::from_raw(word)),
        Err(err) => Err(RpcConversionError::Undecodable(err)),
    }
}

// COMMITTED NOTE

/// A committed note, with its parts as their views.
pub struct CommittedNoteView {
    pub note_id: Seq<u64>,
    pub metadata: NoteMetadataView,
    pub inclusion_proof: NoteInclusionProof,
    pub attachments: Option<Seq<NoteAttachmentView>>,
}

impl CommittedNoteView {
    /// Whether the recorded attachments, if there are any, are those that the metadata commits to.
    pub open spec fn consistent(self) -> bool {
        self.attachments matches Some(attachments) ==> attachment::attachments_commitment(
            attachments,
        ) == self.metadata.attachments_commitment
    }

    /// Whether the note's attachment content has to be fetched.
    pub open spec fn needs_attachment_fetch(self) -> bool {
        self.metadata.has_attachments() && self.attachments is None
    }
}

/// Whether attachments of the given commitment may be recorded for the note.
pub open spec fn recordable(note: CommittedNoteView, commitment: Seq<u64>) -> Result<
    (),
    RpcConversionErrorView,
> {
    if commitment == note.metadata.attachments_commitment {
        Ok(())
    } else {
        Err(
            RpcConversionErrorView::InvalidField(
                "attachments recorded for note "@ + text::word_text(note.note_id)
                    + " do not match its attachments commitment"@,
            ),
        )
    }
}

/// The committed note with its attachments recorded.
pub open spec fn recorded(note: CommittedNoteView, attachments: Seq<NoteAttachmentView>) -> Result<
    CommittedNoteView,
    RpcConversionErrorView,
> {
    match recordable(note, attachment::attachments_commitment(attachments)) {
        Ok(_) => Ok(CommittedNoteView { attachments: Some(attachments), ..note }),
        Err(err) => Err(err),
    }
}

/// Represents a committed note, as a notes sync reports it.
#[derive(Debug)]
pub struct CommittedNote {
    /// Note ID of the committed note.
    note_id: NoteId,
    /// Note metadata. Sync responses always carry the full [`NoteMetadata`]: header fields plus
    /// attachment scheme markers and the attachments commitment.
    metadata: NoteMetadata,
    /// Inclusion proof for the note in the block.
    inclusion_proof: NoteInclusionProof,
    /// The note's attachment content, when the source reporting the note carried every attachment
    /// verbatim. See [`CommittedNote::attachments`].
    attachments: Option<NoteAttachments>,
}

impl View for CommittedNote {
    type V = CommittedNoteView;

    closed spec fn view(&self) -> CommittedNoteView {
        CommittedNoteView {
            note_id: self.note_id@,
            metadata: self.metadata@,
            inclusion_proof: self.inclusion_proof,
            attachments: match self.attachments {
                Some(attachments) => Some(attachments@),
                None => None,
            },
        }
    }
}

impl CommittedNote {
    #[verifier::type_invariant]
    spec fn valid(self) -> bool {
        self@.consistent()
    }

    /// Returns the committed note of the given parts, without attachment content.
    pub fn new(
        note_id: NoteId,
        metadata: NoteMetadata,
        inclusion_proof: NoteInclusionProof,
    ) -> (r: CommittedNote)
        ensures
            r@ == (CommittedNoteView {
                note_id: note_id@,
                metadata: metadata@,
                inclusion_proof,
                attachments: None,
            }),
    {
        CommittedNote { note_id, metadata, inclusion_proof, attachments: None }
    }

    /// Records the note's attachment content, for a source that reports every attachment verbatim.
    ///
    /// # Errors
    ///
    /// Returns an error if the content does not hash to the metadata's attachments commitment. Such
    /// content would turn [`CommittedNote::needs_attachment_fetch`] off for a note whose real
    /// content was never obtained, leaving it to be dropped for good by the consistency check of
    /// a synced note instead of being fetched.
    pub fn with_attachments(self, attachments: NoteAttachments) -> (r: Result<
        CommittedNote,
        RpcConversionError,
    >)
        ensures
            errors::result_view(r) == recorded(self@, attachments@),
    {
        match self.check_commitment(attachments.to_commitment()) {
            Ok(_) => {},
            Err(err) => return Err(err),
        }
        Ok(
            CommittedNote {
                note_id: self.note_id,
                metadata: self.metadata,
                inclusion_proof: self.inclusion_proof,
                attachments: Some(attachments),
            },
        )
    }

    /// Checks that attachments of the given commitment are those that the note's metadata commits
    /// to.
    ///
    /// # Errors
    ///
    /// Returns an error if they are not.
    pub fn check_commitment(&self, commitment: Word) -> (r: Result<(), RpcConversionError>)
        ensures
            errors::result_view(r) == recordable(self@, commitment@),
    {
        let expected = self.metadata.attachments_commitment();
        proof {
            word::lemma_word_view(commitment, expected);
        }
        if commitment != expected {
            let mut message = String::from_str("attachments recorded for note ");
            let id = self.note_id.to_hex();
            message.append(id.as_str());
            message.append(" do not match its attachments commitment");
            return Err(RpcConversionError::InvalidField(message));
        }
        Ok(())
    }

    /// Returns the note's id.
    pub fn note_id(&self) -> (r: &NoteId)
        ensures
            r@ == self@.note_id,
    {
        &self.note_id
    }

    /// Returns how the note is stored.
    pub fn note_type(&self) -> (r: NoteType)
        ensures
            r == self@.metadata.partial.note_type,
    {
        self.metadata.note_type()
    }

    /// Returns the note's tag.
    pub fn tag(&self) -> (r: NoteTag)
        ensures
            r == self@.metadata.partial.tag,
    {
        self.metadata.tag()
    }

    /// Returns the account that sent the note.
    pub fn sender(&self) -> (r: AccountId)
        ensures
            r == self@.metadata.partial.sender,
    {
        self.metadata.sender()
    }

    /// Returns the full note metadata.
    pub fn metadata(&self) -> (r: &NoteMetadata)
        ensures
            r@ == self@.metadata,
    {
        &self.metadata
    }

    /// Returns `true` if the note's metadata advertises at least one attachment.
    pub fn has_attachments(&self) -> (r: bool)
        ensures
            r == self@.metadata.has_attachments(),
    {
        self.metadata.has_attachments()
    }

    /// Returns the note's attachment content, `Some` when the reporting source carried every
    /// attachment verbatim. Its commitment is then that of the metadata.
    ///
    /// `None` means that at least one attachment must be fetched, or that the source reports no
    /// attachment content at all.
    pub fn attachments(&self) -> (r: Option<&NoteAttachments>)
        ensures
            r is Some <==> self@.attachments is Some,
            r matches Some(attachments) ==> self@.attachments == Some(attachments@),
            self@.consistent(),
    {
        proof {
            use_type_invariant(self);
        }
        self.attachments.as_ref()
    }

    /// Returns `true` if the note's attachment content has to be fetched: its metadata advertises
    /// attachments and the source reporting the note did not carry them all.
    pub fn needs_attachment_fetch(&self) -> (r: bool)
        ensures
            r == self@.needs_attachment_fetch(),
    {
        self.has_attachments() && self.attachments.is_none()
    }

    /// Returns the proof of the note's inclusion in a block.
    pub fn inclusion_proof(&self) -> (r: &NoteInclusionProof)
        ensures
            *r == self@.inclusion_proof,
    {
        &self.inclusion_proof
    }

    /// Returns the number of the block in which the note was committed.
    pub fn block_num(&self) -> (r: BlockNumber)
        ensures
            r == self@.inclusion_proof.location.block_num,
    {
        self.inclusion_proof.location.block_num
    }
}

impl Clone for CommittedNote {
    fn clone(&self) -> (r: CommittedNote)
        ensures
            r@ == self@,
    {
        proof {
            use_type_invariant(self);
        }
        let attachments = match &self.attachments {
            Some(attachments) => Some(attachments.clone()),
            None => None,
        };
        CommittedNote {
            note_id: self.note_id,
            metadata: self.metadata,
            inclusion_proof: self.inclusion_proof.clone(),
            attachments,
        }
    }
}

// DECODING

/// The committed note that a record of a notes sync stands for.
pub open spec fn decoded_note(note: NoteSyncRecord) -> Result<
    CommittedNoteView,
    RpcConversionErrorView,
> {
    match note.metadata {
        None => Err(errors::missing_field("SyncNotesResponse"@, "notes.metadata"@)),
        Some(metadata) => match sync::decoded_metadata(metadata) {
            Err(err) => Err(err),
            Ok(decoded) => match note.inclusion_proof {
                None => Err(errors::missing_field("SyncNotesResponse"@, "notes.inclusion_proof"@)),
                Some(Err(err)) => Err(RpcConversionErrorView::Undecodable(err@)),
                Some(Ok((note_id, inclusion_proof))) => Ok(
                    CommittedNoteView {
                        note_id: note_id@,
                        metadata: decoded.metadata,
                        inclusion_proof,
                        attachments: decoded.attachments.content(),
                    },
                ),
            },
        },
    }
}

impl TryFrom<NoteSyncRecord> for CommittedNote {
    type Error = RpcConversionError;

    fn try_from(note: NoteSyncRecord) -> (r: Result<CommittedNote, RpcConversionError>)
        ensures
            errors::result_view(r) == decoded_note(note),
    {
        let proto_metadata = match note.metadata {
            Some(metadata) => metadata,
            None => return Err(
                RpcConversionError::MissingFieldInProtobufRepresentation {
                    entity: "SyncNotesResponse",
                    field_name: "notes.metadata",
                },
            ),
        };
        let decoded = match SyncNoteMetadata::try_from(proto_metadata) {
            Ok(decoded) => decoded,
            Err(err) => return Err(err),
        };
        let proto_inclusion_proof = match note.inclusion_proof {
            Some(inclusion_proof) => inclusion_proof,
            None => return Err(
                RpcConversionError::MissingFieldInProtobufRepresentation {
                    entity: "SyncNotesResponse",
                    field_name: "notes.inclusion_proof",
                },
            ),
        };
        let (note_id, inclusion_proof) = match note_inclusion_proof_from_proto(
            proto_inclusion_proof,
        ) {
            Ok(decoded) => decoded,
            Err(err) => return Err(err),
        };
        let SyncNoteMetadata { metadata, attachments } = decoded;
        let committed = CommittedNote::new(note_id, metadata, inclusion_proof);
        proof {
            sync::law_report_matches_metadata(proto_metadata);
        }
        match attachments.into_content() {
            Some(attachments) => committed.with_attachments(attachments),
            None => Ok(committed),
        }
    }
}

impl vstd::std_specs::convert::TryFromSpecImpl<NoteSyncRecord> for CommittedNote {
    open spec fn obeys_try_from_spec() -> bool {
        false
    }

    open spec fn try_from_spec(note: NoteSyncRecord) -> Result<CommittedNote, RpcConversionError> {
        arbitrary()
    }
}

} // verus!
