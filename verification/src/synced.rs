//! Notes of a notes sync together with the content that was resolved for them.

use std::collections::BTreeMap;

use miden_protocol::block::BlockHeader;
use miden_protocol::note::NoteDetails;
use vstd::prelude::*;
use vstd::string::StringExecFns;

use crate::attachment;
use crate::attachment::{NoteAttachmentView, NoteAttachments};
use crate::committed::{CommittedNote, CommittedNoteView};
use crate::errors;
use crate::errors::{RpcError, RpcErrorView};
use crate::location::MerklePath;
use crate::metadata::NoteType;
use crate::text;
use crate::word;
use crate::word::{NoteKey, Word};

verus! {

/// A block's worth of notes with their content.
///
/// Unlike a [`SyncNotesBlock`](crate::sync_block::SyncNotesBlock), each note here also carries its
/// attachments and, for a fetched public note, its details, so no re-joining by note ID is needed.
#[derive(Debug)]
pub struct ResolvedSyncNotesBlock {
    /// Block header containing the matching notes.
    pub block_header: BlockHeader,
    /// MMR path for verifying the block's inclusion in the MMR at the end of the synced range.
    pub mmr_path: MerklePath,
    /// Notes matching the requested tags in this block, keyed by note ID.
    pub notes: BTreeMap<NoteKey, SyncedNote>,
}

impl Clone for ResolvedSyncNotesBlock {
    fn clone(&self) -> (r: ResolvedSyncNotesBlock)
        ensures
            r.block_header == self.block_header,
            r.mmr_path.nodes@ == self.mmr_path.nodes@,
            r.notes@ == self.notes@,
    {
        ResolvedSyncNotesBlock {
            block_header: self.block_header.clone(),
            mmr_path: self.mmr_path.clone(),
            notes: self.notes.clone(),
        }
    }
}

/// [`SyncedNote`], with the record and the attachments as their views.
pub struct SyncedNoteView {
    pub committed: CommittedNoteView,
    pub details: Option<NoteDetails>,
    pub attachments: Seq<NoteAttachmentView>,
}

/// Everything resolved about a single note during a notes sync: its identity, metadata, and
/// inclusion proof (always present, from the sync), its attachments, and the public note body when
/// it was fetched.
#[derive(Debug)]
pub struct SyncedNote {
    /// Note identity, metadata, and inclusion proof, as the sync reported them.
    pub committed: CommittedNote,
    /// The public note's body, where it was fetched. `None` for a private note, and for a public
    /// note whose body was not requested or not returned.
    pub details: Option<NoteDetails>,
    /// The note's attachments, either carried in full by the sync record or fetched. Empty for a
    /// note whose metadata advertises none.
    pub attachments: NoteAttachments,
}

impl View for SyncedNote {
    type V = SyncedNoteView;

    open spec fn view(&self) -> SyncedNoteView {
        SyncedNoteView {
            committed: self.committed@,
            details: self.details,
            attachments: self.attachments@,
        }
    }
}

impl Clone for SyncedNote {
    fn clone(&self) -> (r: SyncedNote)
        ensures
            r@ == self@,
    {
        let details = match &self.details {
            Some(details) => Some(details.clone()),
            None => None,
        };
        SyncedNote {
            committed: self.committed.clone(),
            details,
            attachments: self.attachments.clone(),
        }
    }
}

/// Whether a sync record is consistent with the content resolved for it: with whether there is a
/// body, and with the commitment to the attachments.
pub open spec fn resolvable(
    committed: CommittedNoteView,
    has_body: bool,
    commitment: Seq<u64>,
) -> Result<(), RpcErrorView> {
    if has_body && committed.metadata.partial.note_type != NoteType::Public {
        Err(
            RpcErrorView::InvalidResponse(
                "a note body was returned for private note "@ + text::word_text(committed.note_id),
            ),
        )
    } else if commitment != committed.metadata.attachments_commitment {
        Err(
            RpcErrorView::InvalidResponse(
                "the attachments resolved for note "@ + text::word_text(committed.note_id)
                    + " do not match the note's attachments commitment"@,
            ),
        )
    } else {
        Ok(())
    }
}

/// A sync record paired with the content resolved for it, where the two are consistent.
pub open spec fn resolved(
    committed: CommittedNoteView,
    details: Option<NoteDetails>,
    attachments: Seq<NoteAttachmentView>,
) -> Result<SyncedNoteView, RpcErrorView> {
    match resolvable(
        committed,
        details is Some,
        attachment::attachments_commitment(attachments),
    ) {
        Ok(_) => Ok(SyncedNoteView { committed, details, attachments }),
        Err(err) => Err(err),
    }
}

impl SyncedNote {
    /// Pairs a sync record with the content resolved for it, checking that the content is
    /// consistent with the record:
    ///
    /// - Only a public note can have a body. The converse is not checked, since a public note
    ///   legitimately has no body whenever its body was not requested.
    /// - The attachments must hash to the metadata's attachments commitment. This also catches a
    ///   note advertising attachments whose content never arrived, which would be unconsumable.
    ///
    /// Both sides of that check come from the node, so it is a consistency check between its
    /// responses. The note is authenticated by a consumer recomputing its id and inclusion proof.
    ///
    /// A rejection concerns a single note, not the response as a whole, since content availability
    /// can be influenced by the note's creator.
    pub fn new(
        committed: CommittedNote,
        details: Option<NoteDetails>,
        attachments: NoteAttachments,
    ) -> (r: Result<SyncedNote, RpcError>)
        ensures
            errors::result_view(r) == resolved(committed@, details, attachments@),
    {
        match Self::check_content(&committed, details.is_some(), attachments.to_commitment()) {
            Ok(_) => Ok(SyncedNote { committed, details, attachments }),
            Err(err) => Err(err),
        }
    }

    /// Checks that content is consistent with a sync record, from whether there is a body and the
    /// commitment to the attachments.
    ///
    /// # Errors
    ///
    /// Returns an error if there is a body for a private note, or if the commitment is not the one
    /// of the note's metadata.
    pub fn check_content(committed: &CommittedNote, has_body: bool, commitment: Word) -> (r: Result<
        (),
        RpcError,
    >)
        ensures
            errors::result_view(r) == resolvable(committed@, has_body, commitment@),
    {
        if has_body && committed.note_type() != NoteType::Public {
            let mut message = String::from_str("a note body was returned for private note ");
            let id = committed.note_id().to_hex();
            message.append(id.as_str());
            return Err(RpcError::InvalidResponse(message));
        }
        let expected = committed.metadata().attachments_commitment();
        proof {
            word::lemma_word_view(commitment, expected);
        }
        if commitment != expected {
            let mut message = String::from_str("the attachments resolved for note ");
            let id = committed.note_id().to_hex();
            message.append(id.as_str());
            message.append(" do not match the note's attachments commitment");
            return Err(RpcError::InvalidResponse(message));
        }
        Ok(())
    }
}

/// A synced note is viewed as its parts.
pub proof fn law_synced_view(note: SyncedNote)
    ensures
        note@.committed == note.committed@,
        note@.details == note.details,
        note@.attachments == note.attachments@,
{
}

} // verus!
