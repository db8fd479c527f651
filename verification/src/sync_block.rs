//! Blocks of notes that a notes sync reports.

use std::collections::BTreeMap;

use miden_protocol::block::BlockHeader;
use vstd::prelude::*;

use crate::committed;
use crate::committed::{CommittedNote, CommittedNoteView};
use crate::errors;
use crate::errors::{RpcConversionError, RpcConversionErrorView, RpcError, RpcErrorView};
use crate::location::MerklePath;
use crate::proto::{NoteSyncBlock, NoteSyncRecord};
use crate::results;
use crate::word;
use crate::word::NoteKey;

verus! {

/// [`SyncNotesBlock`], with the notes as their views.
pub struct SyncNotesBlockView {
    pub block_header: BlockHeader,
    pub mmr_path: MerklePath,
    pub notes: Map<NoteKey, CommittedNoteView>,
}

/// Represents a single block's worth of note sync data.
#[derive(Debug)]
pub struct SyncNotesBlock {
    /// Block header containing the matching notes.
    pub block_header: BlockHeader,
    /// MMR path for verifying the block's inclusion in the MMR at the end of the synced range.
    pub mmr_path: MerklePath,
    /// Notes matching the requested tags in this block, keyed by note ID.
    pub notes: BTreeMap<NoteKey, CommittedNote>,
}

/// The notes of a collection as their views.
pub open spec fn note_views(notes: Map<NoteKey, CommittedNote>) -> Map<NoteKey, CommittedNoteView> {
    notes.map_values(|note: CommittedNote| note@)
}

impl View for SyncNotesBlock {
    type V = SyncNotesBlockView;

    open spec fn view(&self) -> SyncNotesBlockView {
        SyncNotesBlockView {
            block_header: self.block_header,
            mmr_path: self.mmr_path,
            notes: note_views(self.notes@),
        }
    }
}

/// The notes keyed by their ids. Of notes with the same id the last one counts.
pub open spec fn keyed(notes: Seq<CommittedNoteView>) -> Map<NoteKey, CommittedNoteView>
    decreases notes.len(),
{
    if notes.len() == 0 {
        Map::empty()
    } else {
        keyed(notes.drop_last()).insert(word::key_of(notes.last().note_id), notes.last())
    }
}

/// The note that each record stands for.
pub open spec fn note_results(notes: Seq<NoteSyncRecord>) -> Seq<
    Result<CommittedNoteView, RpcConversionErrorView>,
> {
    notes.map_values(|note: NoteSyncRecord| committed::decoded_note(note))
}

/// The block that a message stands for.
pub open spec fn decoded_block(block: NoteSyncBlock) -> Result<SyncNotesBlockView, RpcErrorView> {
    match block.block_header {
        None => Err(
            RpcErrorView::Conversion(
                errors::missing_field("SyncNotesResponse"@, "blocks.block_header"@),
            ),
        ),
        Some(Err(err)) => Err(
            RpcErrorView::Conversion(RpcConversionErrorView::Undecodable(err@)),
        ),
        Some(Ok(block_header)) => match block.mmr_path {
            None => Err(
                RpcErrorView::Conversion(
                    errors::missing_field("SyncNotesResponse"@, "blocks.mmr_path"@),
                ),
            ),
            Some(Err(err)) => Err(
                RpcErrorView::Conversion(RpcConversionErrorView::Undecodable(err@)),
            ),
            Some(Ok(mmr_path)) => match results::collected(note_results(block.notes@)) {
                Err(err) => Err(RpcErrorView::Conversion(err)),
                Ok(notes) => Ok(
                    SyncNotesBlockView { block_header, mmr_path, notes: keyed(notes) },
                ),
            },
        },
    }
}

/// Adds a note to a collection, in place of one of the same key.
fn insert_note(notes: &mut BTreeMap<NoteKey, CommittedNote>, key: NoteKey, note: CommittedNote)
    ensures
        final(notes)@ == old(notes)@.insert(key, note),
{
    broadcast use vstd::laws_cmp::group_laws_cmp;

    notes.insert(key, note);
}

/// Returns the notes that the records stand for, keyed by their ids.
fn decode_notes(records: Vec<NoteSyncRecord>) -> (r: Result<
    BTreeMap<NoteKey, CommittedNote>,
    RpcConversionError,
>)
    ensures
        match results::collected(note_results(records@)) {
            Ok(notes) => r matches Ok(map) && note_views(map@) == keyed(notes),
            Err(err) => r matches Err(e) && e@ == err,
        },
{
    let ghost all = note_results(records@);
    let ghost mut decoded: Seq<CommittedNoteView> = Seq::empty();
    let mut notes: BTreeMap<NoteKey, CommittedNote> = BTreeMap::new();
    proof {
        assert(all.take(0) =~= Seq::empty());
        assert(note_views(notes@) =~= keyed(decoded));
    }
    for record in iter: records
        invariant
            iter.seq() == records@,
            all == note_results(records@),
            results::collected(all.take(iter.index() as int)) == Ok::<_, RpcConversionErrorView>(decoded),
            note_views(notes@) == keyed(decoded),
    {
        proof {
            let i = iter.index() as int;
            results::lemma_collected_push(all.take(i), all[i]);
            assert(all.take(i + 1) =~= all.take(i).push(all[i]));
        }
        let note = match CommittedNote::try_from(record) {
            Ok(note) => note,
            Err(err) => {
                proof {
                    results::lemma_collected_prefix_err(all, iter.index() as int + 1);
                }
                return Err(err);
            },
        };
        let ghost view = note@;
        let ghost before = note_views(notes@);
        let key = note.note_id().key();
        insert_note(&mut notes, key, note);
        proof {
            assert(decoded.push(view).drop_last() =~= decoded);
            decoded = decoded.push(view);
            assert(note_views(notes@) =~= before.insert(key, view));
        }
    }
    assert(all.take(all.len() as int) =~= all);
    Ok(notes)
}

impl TryFrom<NoteSyncBlock> for SyncNotesBlock {
    type Error = RpcError;

    fn try_from(block: NoteSyncBlock) -> (r: Result<SyncNotesBlock, RpcError>)
        ensures
            errors::result_view(r) == decoded_block(block),
    {
        let block_header = match block.block_header {
            Some(Ok(block_header)) => block_header,
            Some(Err(err)) => return Err(RpcError::from(RpcConversionError::Undecodable(err))),
            None => return Err(
                RpcError::from(
                    RpcConversionError::MissingFieldInProtobufRepresentation {
                        entity: "SyncNotesResponse",
                        field_name: "blocks.block_header",
                    },
                ),
            ),
        };
        let mmr_path = match block.mmr_path {
            Some(Ok(mmr_path)) => mmr_path,
            Some(Err(err)) => return Err(RpcError::from(RpcConversionError::Undecodable(err))),
            None => return Err(
                RpcError::from(
                    RpcConversionError::MissingFieldInProtobufRepresentation {
                        entity: "SyncNotesResponse",
                        field_name: "blocks.mmr_path",
                    },
                ),
            ),
        };
        let notes = match decode_notes(block.notes) {
            Ok(notes) => notes,
            Err(err) => return Err(RpcError::from(err)),
        };
        Ok(SyncNotesBlock { block_header, mmr_path, notes })
    }
}

impl vstd::std_specs::convert::TryFromSpecImpl<NoteSyncBlock> for SyncNotesBlock {
    open spec fn obeys_try_from_spec() -> bool {
        false
    }

    open spec fn try_from_spec(block: NoteSyncBlock) -> Result<SyncNotesBlock, RpcError> {
        arbitrary()
    }
}

impl Clone for SyncNotesBlock {
    fn clone(&self) -> (r: SyncNotesBlock)
        ensures
            r.block_header == self.block_header,
            r.mmr_path.nodes@ == self.mmr_path.nodes@,
            r.notes@ == self.notes@,
    {
        SyncNotesBlock {
            block_header: self.block_header.clone(),
            mmr_path: self.mmr_path.clone(),
            notes: self.notes.clone(),
        }
    }
}

/// A block is viewed as its header, its path, and each of its notes under its key.
pub proof fn law_block_view(block: SyncNotesBlock)
    ensures
        block@.block_header == block.block_header,
        block@.mmr_path == block.mmr_path,
        block@.notes.dom() == block.notes@.dom(),
        forall|key: NoteKey| #[trigger]
            block.notes@.contains_key(key) ==> block@.notes[key] == block.notes@[key]@,
{
    assert(block@.notes.dom() =~= block.notes@.dom());
}

} // verus!
