use miden_protocol::account::{AccountId, AccountIdVersion, AccountType};
use miden_protocol::crypto::merkle::SparseMerklePath;
use miden_protocol::note::{
    NoteAssets, NoteAttachment, NoteAttachmentScheme, NoteAttachments, NoteDetails, NoteMetadata,
    NoteRecipient, NoteStorage, NoteTag, NoteType, PartialNoteMetadata,
};
use miden_protocol::Word;
use miden_standards::code_builder::CodeBuilder;
use note_sync::attachment;
use note_sync::committed::CommittedNote;
use note_sync::errors::{RpcConversionError, RpcError};
use note_sync::location::{BlockNumber, NoteInclusionProof, NoteLocation};
use note_sync::metadata;
use note_sync::proto::{NoteSyncAttachment, NoteSyncMetadata, NoteVersion, Payload};
use note_sync::sync::{note_type_to_proto, ReportedAttachments, SyncNoteMetadata};
use note_sync::synced::SyncedNote;
use note_sync::word;

// The values of the protocol crate as values of the library.

fn word_of(value: Word) -> word::Word {
    word::Word::new(value.into()).unwrap()
}

fn scheme_of(scheme: NoteAttachmentScheme) -> attachment::NoteAttachmentScheme {
    attachment::NoteAttachmentScheme::new(scheme.as_u16()).unwrap()
}

fn attachments_of(attachments: &NoteAttachments) -> attachment::NoteAttachments {
    let converted = attachments
        .iter()
        .map(|attachment| {
            let words = attachment.content().as_words().iter().map(|w| word_of(*w)).collect();
            attachment::NoteAttachment::with_words(
                scheme_of(attachment.attachment_scheme()),
                words,
            )
            .unwrap()
        })
        .collect();
    attachment::NoteAttachments::new(converted).unwrap()
}

fn metadata_of(metadata: &NoteMetadata) -> metadata::NoteMetadata {
    let note_type = match metadata.note_type() {
        NoteType::Public => metadata::NoteType::Public,
        NoteType::Private => metadata::NoteType::Private,
    };
    let partial = metadata::PartialNoteMetadata::new(metadata.sender(), note_type)
        .with_tag(metadata::NoteTag::new(metadata.tag().as_u32()));
    let headers = metadata.attachment_headers().map(|header| match header.scheme() {
        Some(scheme) => attachment::NoteAttachmentHeader::new(scheme_of(scheme)),
        None => attachment::NoteAttachmentHeader::absent(),
    });
    metadata::NoteMetadata::from_parts(
        partial,
        headers,
        word_of(metadata.attachments_commitment()),
    )
}

// Inputs.

fn sender() -> AccountId {
    AccountId::dummy([1; 15], AccountIdVersion::Version1, AccountType::Public)
}

fn single_word_attachment(scheme: u16, word: u32) -> NoteAttachment {
    NoteAttachment::with_word(
        NoteAttachmentScheme::new(scheme).unwrap(),
        Word::from([word, word, word, word]),
    )
}

fn multi_word_attachment(scheme: u16) -> NoteAttachment {
    NoteAttachment::with_words(
        NoteAttachmentScheme::new(scheme).unwrap(),
        vec![Word::from([5u32, 6, 7, 8]), Word::from([9u32, 10, 11, 12])],
    )
    .unwrap()
}

/// Builds the sync record a node sends for `attachments`, then decodes it the way
/// `CommittedNote` does.
fn decode_sync_metadata(attachments: &NoteAttachments) -> SyncNoteMetadata {
    sync_metadata(sync_attachments(attachments)).try_into().unwrap()
}

fn bare_committed_note(metadata: metadata::NoteMetadata) -> CommittedNote {
    let note_path = SparseMerklePath::from_parts(0, Vec::new()).unwrap();
    let location =
        NoteLocation { block_num: BlockNumber { value: 0 }, block_note_tree_index: 0 };
    let inclusion_proof = NoteInclusionProof { location, note_path };

    CommittedNote::new(word::NoteId::from_raw(word::Word::empty()), metadata, inclusion_proof)
}

fn committed_note(decoded: SyncNoteMetadata) -> CommittedNote {
    let committed = bare_committed_note(decoded.metadata);

    match decoded.attachments.into_content() {
        Some(attachments) => committed.with_attachments(attachments).unwrap(),
        None => committed,
    }
}

/// Encodes attachments the way the node does in a sync response: single-word attachments carry
/// their value, larger ones only their commitment.
fn sync_attachments(attachments: &NoteAttachments) -> Vec<NoteSyncAttachment> {
    attachments
        .iter()
        .map(|attachment| {
            let payload = if attachment.num_words() == 1 {
                Payload::Value(Ok(word_of(attachment.content().as_words()[0])))
            } else {
                Payload::Commitment(Ok(word_of(attachment.to_commitment())))
            };

            NoteSyncAttachment {
                scheme: u32::from(attachment.attachment_scheme().as_u16()),
                payload: Some(payload),
            }
        })
        .collect()
}

fn sync_metadata(attachments: Vec<NoteSyncAttachment>) -> NoteSyncMetadata {
    NoteSyncMetadata {
        sender: Some(Ok(sender())),
        note_type: note_type_to_proto(metadata::NoteType::Private),
        tag: 7,
        attachments,
        version: NoteVersion::V1.as_i32(),
    }
}

fn expected_metadata(attachments: &NoteAttachments) -> metadata::NoteMetadata {
    metadata_of(&NoteMetadata::new(
        PartialNoteMetadata::new(sender(), NoteType::Private).with_tag(NoteTag::new(7)),
        attachments,
    ))
}

#[test]
fn sync_metadata_reconstructs_metadata_with_mixed_attachments() {
    let attachments =
        NoteAttachments::new(vec![single_word_attachment(42, 1), multi_word_attachment(100)])
            .unwrap();

    let expected = expected_metadata(&attachments);

    assert_eq!(decode_sync_metadata(&attachments).metadata, expected);
}

#[test]
fn sync_metadata_reconstructs_metadata_without_attachments() {
    let attachments = NoteAttachments::empty();
    let expected = expected_metadata(&attachments);

    let decoded: SyncNoteMetadata = sync_metadata(Vec::new()).try_into().unwrap();

    assert_eq!(decoded.metadata, expected);
}

/// A record whose every attachment fits in a single word describes the note's attachments in
/// full, so no further request is needed to obtain them.
#[test]
fn sync_metadata_reports_attachments_sent_verbatim() {
    let attachments =
        NoteAttachments::new(vec![single_word_attachment(42, 1), single_word_attachment(64, 2)])
            .unwrap();

    let decoded = decode_sync_metadata(&attachments);

    let committed = committed_note(decoded);
    assert_eq!(committed.attachments(), Some(&attachments_of(&attachments)));
    assert!(!committed.needs_attachment_fetch());
}

/// A full set leaves no trailing slot absent, so it is the only case where the positional
/// header fill writes every slot.
#[test]
fn sync_metadata_reconstructs_a_full_attachment_set() {
    let attachments = NoteAttachments::new(
        (0..NoteAttachments::MAX_COUNT)
            .map(|i| {
                let scheme = u16::try_from(i).unwrap() + 42;
                single_word_attachment(scheme, u32::try_from(i).unwrap() + 1)
            })
            .collect(),
    )
    .unwrap();

    let expected = expected_metadata(&attachments);
    let decoded = decode_sync_metadata(&attachments);

    assert_eq!(decoded.metadata, expected);
    let committed = committed_note(decoded);
    assert_eq!(committed.attachments(), Some(&attachments_of(&attachments)));
    assert!(!committed.needs_attachment_fetch());
}

/// A note with no attachments has nothing to fetch, and its (empty) attachments are known.
#[test]
fn sync_metadata_reports_empty_attachments() {
    let decoded: SyncNoteMetadata = sync_metadata(Vec::new()).try_into().unwrap();

    let committed = committed_note(decoded);
    assert_eq!(committed.attachments(), Some(&attachment::NoteAttachments::empty()));
    assert!(!committed.needs_attachment_fetch());
}

/// One attachment sent as a commitment withholds the whole set, since the attachments can only
/// be rebuilt as a whole.
#[test]
fn sync_metadata_withholds_partially_reported_attachments() {
    let attachments =
        NoteAttachments::new(vec![single_word_attachment(42, 1), multi_word_attachment(100)])
            .unwrap();

    let decoded = decode_sync_metadata(&attachments);

    assert!(matches!(decoded.attachments, ReportedAttachments::Commitments(_)));
    assert!(committed_note(decoded).needs_attachment_fetch());
}

/// The node may send a commitment even for a single-word attachment, so availability follows
/// the payload variant alone, never a word count.
#[test]
fn sync_metadata_withholds_single_word_attachment_sent_as_commitment() {
    let attachment = single_word_attachment(42, 1);
    let proto_attachments = vec![NoteSyncAttachment {
        scheme: u32::from(attachment.attachment_scheme().as_u16()),
        payload: Some(Payload::Commitment(Ok(word_of(attachment.to_commitment())))),
    }];
    let attachments = NoteAttachments::new(vec![attachment]).unwrap();

    let decoded: SyncNoteMetadata = sync_metadata(proto_attachments).try_into().unwrap();

    // The metadata is still reconstructed exactly, only the content is missing.
    assert_eq!(decoded.metadata, expected_metadata(&attachments));
    assert!(matches!(decoded.attachments, ReportedAttachments::Commitments(_)));
    assert!(committed_note(decoded).needs_attachment_fetch());
}

#[test]
fn sync_metadata_rejects_too_many_attachments() {
    let attachment = || NoteSyncAttachment {
        scheme: 42,
        payload: Some(Payload::Value(Ok(word::Word::empty()))),
    };
    let attachments = (0..NoteAttachments::MAX_COUNT + 1).map(|_| attachment()).collect();

    let err = SyncNoteMetadata::try_from(sync_metadata(attachments)).unwrap_err();

    assert!(matches!(err, RpcConversionError::InvalidField(_)), "got {err:?}");
}

#[test]
fn sync_metadata_rejects_reserved_absent_scheme() {
    let attachments = vec![NoteSyncAttachment {
        scheme: 0,
        payload: Some(Payload::Value(Ok(word::Word::empty()))),
    }];

    let err = SyncNoteMetadata::try_from(sync_metadata(attachments)).unwrap_err();

    assert!(matches!(err, RpcConversionError::InvalidField(_)), "got {err:?}");
}

#[test]
fn sync_metadata_rejects_missing_attachment_payload() {
    let attachments = vec![NoteSyncAttachment { scheme: 42, payload: None }];

    let err = SyncNoteMetadata::try_from(sync_metadata(attachments)).unwrap_err();

    assert!(
        matches!(err, RpcConversionError::MissingFieldInProtobufRepresentation { .. }),
        "got {err:?}"
    );
}

#[test]
fn synced_note_rejects_a_body_for_a_private_note() {
    let decoded: SyncNoteMetadata = sync_metadata(Vec::new()).try_into().unwrap();
    let committed = committed_note(decoded);

    let note_script = CodeBuilder::new()
        .compile_note_script("@note_script\npub proc main\n    nop\nend")
        .unwrap();
    let recipient =
        NoteRecipient::new(Word::empty(), note_script, NoteStorage::new(vec![]).unwrap());
    let details = NoteDetails::new(NoteAssets::new(vec![]).unwrap(), recipient);

    let err =
        SyncedNote::new(committed, Some(details), attachment::NoteAttachments::empty()).unwrap_err();

    assert!(matches!(err, RpcError::InvalidResponse(_)), "got {err:?}");
}

/// A note advertising attachments whose content never arrived is rejected: empty attachments
/// hash to a different commitment than the note's.
#[test]
fn synced_note_rejects_unresolved_attachments() {
    let attachments = NoteAttachments::new(vec![multi_word_attachment(100)]).unwrap();
    let committed = committed_note(decode_sync_metadata(&attachments));

    let err =
        SyncedNote::new(committed, None, attachment::NoteAttachments::empty()).unwrap_err();

    assert!(matches!(err, RpcError::InvalidResponse(_)), "got {err:?}");
}
