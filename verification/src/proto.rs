//! The node's messages about notes.
//!
//! A field that holds an encoded value stands here as the outcome of decoding it: the value, or
//! the error of a field that could not be decoded.

use miden_protocol::account::AccountId;
use miden_protocol::block::BlockHeader;
use vstd::prelude::*;

use crate::attachment::NoteAttachments;
use crate::errors::ConversionError;
use crate::fetched;
use crate::location::{MerklePath, NoteInclusionProof};
use crate::metadata::NoteMetadata;
use crate::word::{NoteId, Word};

verus! {

/// The type of a note, as an enumeration of the wire format.
#[derive(Debug, Clone, Copy, PartialEq, Eq, Structural)]
pub enum NoteType {
    /// The type is not set.
    Unspecified,
    /// The details of the note are visible on chain.
    Public,
    /// The details of the note are not visible on chain.
    Private,
}

impl NoteType {
    /// The number that stands for the type on the wire.
    pub open spec fn number(self) -> i32 {
        match self {
            NoteType::Unspecified => 0,
            NoteType::Public => 1,
            NoteType::Private => 2,
        }
    }

    /// Returns the number that stands for the type on the wire.
    pub fn as_i32(self) -> (r: i32)
        ensures
            r == self.number(),
    {
        match self {
            NoteType::Unspecified => 0,
            NoteType::Public => 1,
            NoteType::Private => 2,
        }
    }

    /// Returns the type that a number on the wire stands for, or `None` where it stands for none.
    pub fn from_i32(raw: i32) -> (r: Option<NoteType>)
        ensures
            r matches Some(note_type) ==> note_type.number() == raw,
            r is None ==> forall|note_type: NoteType| #[trigger] note_type.number() != raw,
    {
        if raw == 0 {
            Some(NoteType::Unspecified)
        } else if raw == 1 {
            Some(NoteType::Public)
        } else if raw == 2 {
            Some(NoteType::Private)
        } else {
            None
        }
    }
}

/// The version of a note's metadata, as an enumeration of the wire format.
#[derive(Debug, Clone, Copy, PartialEq, Eq, Structural)]
pub enum NoteVersion {
    /// The version is not set.
    Unspecified,
    /// The first version.
    V1,
}

impl NoteVersion {
    /// The number that stands for the version on the wire.
    pub open spec fn number(self) -> i32 {
        match self {
            NoteVersion::Unspecified => 0,
            NoteVersion::V1 => 1,
        }
    }

    /// Returns the number that stands for the version on the wire.
    pub fn as_i32(self) -> (r: i32)
        ensures
            r == self.number(),
    {
        match self {
            NoteVersion::Unspecified => 0,
            NoteVersion::V1 => 1,
        }
    }

    /// Returns the version that a number on the wire stands for, or `None` where it stands for
    /// none.
    pub fn from_i32(raw: i32) -> (r: Option<NoteVersion>)
        ensures
            r matches Some(version) ==> version.number() == raw,
            r is None ==> forall|version: NoteVersion| #[trigger] version.number() != raw,
    {
        if raw == 0 {
            Some(NoteVersion::Unspecified)
        } else if raw == 1 {
            Some(NoteVersion::V1)
        } else {
            None
        }
    }
}

/// What a message says of the content of an attachment.
#[derive(Debug)]
pub enum Payload {
    /// The content, which is a single word.
    Value(Result<Word, ConversionError>),
    /// The commitment to the content.
    Commitment(Result<Word, ConversionError>),
}

/// An attachment in the answer to a notes sync.
#[derive(Debug)]
pub struct NoteSyncAttachment {
    /// The number of the attachment scheme.
    pub scheme: u32,
    /// The content of the attachment, or the commitment to it.
    pub payload: Option<Payload>,
}

/// The metadata of a note in the answer to a notes sync.
#[derive(Debug)]
pub struct NoteSyncMetadata {
    /// The account that sent the note.
    pub sender: Option<Result<AccountId, ConversionError>>,
    /// The number of the note's type.
    pub note_type: i32,
    /// The note's tag.
    pub tag: u32,
    /// The note's attachments in slot order.
    pub attachments: Vec<NoteSyncAttachment>,
    /// The number of the metadata's version.
    pub version: i32,
}

/// A note in the answer to a notes sync.
#[derive(Debug)]
pub struct NoteSyncRecord {
    /// The metadata of the note.
    pub metadata: Option<NoteSyncMetadata>,
    /// The id of the note and the proof of its inclusion in a block.
    pub inclusion_proof: Option<Result<(NoteId, NoteInclusionProof), ConversionError>>,
}

/// A block in the answer to a notes sync.
#[derive(Debug)]
pub struct NoteSyncBlock {
    /// The header of the block.
    pub block_header: Option<Result<BlockHeader, ConversionError>>,
    /// The path that proves the block's inclusion in the chain.
    pub mmr_path: Option<Result<MerklePath, ConversionError>>,
    /// The notes of the block that were asked for.
    pub notes: Vec<NoteSyncRecord>,
}

/// A note in the answer to a request for notes by id.
#[derive(Debug)]
pub struct Note {
    /// The whole note, where the message carries its details, as it does for a public note.
    pub note_details: Option<Result<fetched::Note, ConversionError>>,
    /// The metadata of the note.
    pub metadata: Option<Result<NoteMetadata, ConversionError>>,
    /// The attachments of the note.
    pub note_attachments: Option<Result<NoteAttachments, ConversionError>>,
}

/// A note in the answer to a request for notes by id, with the proof of its inclusion in a block.
#[derive(Debug)]
pub struct CommittedNote {
    /// The note.
    pub note: Option<Note>,
    /// The id of the note and the proof of its inclusion in a block.
    pub inclusion_proof: Option<Result<(NoteId, NoteInclusionProof), ConversionError>>,
}

} // verus!
