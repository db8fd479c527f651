use miden_protocol::account::{AccountId, AccountIdVersion, AccountType};
use miden_protocol::block::BlockHeader;
use miden_protocol::crypto::merkle::SparseMerklePath;
use miden_protocol::note::{NoteAssets, NoteDetails, NoteRecipient, NoteStorage};
use miden_standards::code_builder::CodeBuilder;
use note_sync::attachment::{
    AttachmentCommitments, NoteAttachment, NoteAttachmentHeader, NoteAttachmentScheme,
    NoteAttachments,
};
use note_sync::committed::{note_id_from_proto, note_inclusion_proof_from_proto, CommittedNote};
use note_sync::errors::{ConversionError, NoteError, RpcConversionError, RpcError};
use note_sync::fetched::{FetchedNote, Note};
use note_sync::location::{BlockNumber, MerklePath, NoteInclusionProof, NoteLocation};
use note_sync::metadata::{NoteMetadata, NoteTag, NoteType, PartialNoteMetadata};
use note_sync::proto;
use note_sync::proto::{NoteSyncAttachment, NoteSyncBlock, NoteSyncMetadata, NoteSyncRecord, Payload};
use note_sync::sync::{
    note_type_from_proto, note_type_to_proto, note_version_from_proto, ReportedAttachments,
    SyncNoteMetadata,
};
use note_sync::sync_block::SyncNotesBlock;
use note_sync::synced::{ResolvedSyncNotesBlock, SyncedNote};
use note_sync::word::{NoteId, Word, FIELD_ORDER};

// Inputs.

fn sender() -> AccountId {
    AccountId::dummy([1; 15], AccountIdVersion::Version1, AccountType::Public)
}

fn word(n: u64) -> Word {
    Word::new([n, n + 1, n + 2, n + 3]).unwrap()
}

fn scheme(value: u16) -> NoteAttachmentScheme {
    NoteAttachmentScheme::new(value).unwrap()
}

fn bad(message: &str) -> ConversionError {
    ConversionError { message: message.to_string() }
}

fn value(scheme: u32, word: Word) -> NoteSyncAttachment {
    NoteSyncAttachment { scheme, payload: Some(Payload::Value(Ok(word))) }
}

fn commitment(scheme: u32, word: Word) -> NoteSyncAttachment {
    NoteSyncAttachment { scheme, payload: Some(Payload::Commitment(Ok(word))) }
}

fn message(note_type: i32, attachments: Vec<NoteSyncAttachment>) -> NoteSyncMetadata {
    NoteSyncMetadata { sender: Some(Ok(sender())), note_type, tag: 7, attachments, version: 1 }
}

fn decode(attachments: Vec<NoteSyncAttachment>) -> Result<SyncNoteMetadata, RpcConversionError> {
    message(1, attachments).try_into()
}

fn inclusion_proof(block_num: u32) -> NoteInclusionProof {
    NoteInclusionProof {
        location: NoteLocation {
            block_num: BlockNumber { value: block_num },
            block_note_tree_index: 3,
        },
        note_path: SparseMerklePath::from_parts(0, Vec::new()).unwrap(),
    }
}

fn record(id: Word, block_num: u32, attachments: Vec<NoteSyncAttachment>) -> NoteSyncRecord {
    NoteSyncRecord {
        metadata: Some(message(2, attachments)),
        inclusion_proof: Some(Ok((NoteId::from_raw(id), inclusion_proof(block_num)))),
    }
}

fn metadata(note_type: NoteType, attachments: &NoteAttachments) -> NoteMetadata {
    NoteMetadata::new(partial_metadata(note_type), attachments)
}

fn partial_metadata(note_type: NoteType) -> PartialNoteMetadata {
    PartialNoteMetadata::new(sender(), note_type).with_tag(NoteTag::new(9))
}

fn one_attachment() -> NoteAttachments {
    NoteAttachments::new(vec![NoteAttachment::with_word(scheme(5), word(10))]).unwrap()
}

fn details() -> NoteDetails {
    let note_script = CodeBuilder::new()
        .compile_note_script("@note_script\npub proc main\n    nop\nend")
        .unwrap();
    let recipient = NoteRecipient::new(
        miden_protocol::Word::empty(),
        note_script,
        NoteStorage::new(vec![]).unwrap(),
    );
    NoteDetails::new(NoteAssets::new(vec![]).unwrap(), recipient)
}

fn header() -> BlockHeader {
    BlockHeader::mock(4, None, None, &[], miden_protocol::Word::empty())
}

fn invalid_field<T: std::fmt::Debug>(result: Result<T, RpcConversionError>) -> String {
    match result.unwrap_err() {
        RpcConversionError::InvalidField(text) => text,
        other => panic!("got {other:?}"),
    }
}

fn missing_field<T: std::fmt::Debug>(
    result: Result<T, RpcConversionError>,
) -> (&'static str, &'static str) {
    match result.unwrap_err() {
        RpcConversionError::MissingFieldInProtobufRepresentation { entity, field_name } => {
            (entity, field_name)
        },
        other => panic!("got {other:?}"),
    }
}

fn undecodable<T: std::fmt::Debug>(result: Result<T, RpcConversionError>) -> String {
    match result.unwrap_err() {
        RpcConversionError::Undecodable(err) => err.message,
        other => panic!("got {other:?}"),
    }
}

fn as_conversion<T>(result: Result<T, RpcError>) -> Result<T, RpcConversionError> {
    match result {
        Ok(value) => Ok(value),
        Err(RpcError::Conversion(err)) => Err(err),
        Err(other) => panic!("got {other:?}"),
    }
}

fn invalid_response<T: std::fmt::Debug>(result: Result<T, RpcError>) -> String {
    match result.unwrap_err() {
        RpcError::InvalidResponse(text) => text,
        other => panic!("got {other:?}"),
    }
}

// Words and note ids.

#[test]
fn words_are_canonical() {
    assert_eq!(Word::empty().as_elements(), [0, 0, 0, 0]);
    let highest = FIELD_ORDER - 1;
    assert_eq!(Word::new([1, 2, 3, highest]).unwrap().as_elements(), [1, 2, 3, highest]);
    for slot in 0..4 {
        let mut elements = [0; 4];
        elements[slot] = FIELD_ORDER;
        assert!(Word::new(elements).is_none());
    }
    assert_eq!(FIELD_ORDER, miden_protocol::Felt::ORDER);
}

#[test]
fn note_ids_are_shown_as_the_protocol_shows_them() {
    let elements = [0x0123_4567_89ab_cdef, 1, 0xf0, FIELD_ORDER - 1];
    let id = NoteId::from_raw(Word::new(elements).unwrap());
    assert_eq!(
        id.to_hex(),
        "0xefcdab89674523010100000000000000f00000000000000000000000ffffffff"
    );
    let outside = miden_protocol::note::NoteId::from_raw(elements.try_into().unwrap());
    assert_eq!(id.to_hex(), outside.to_string());
    assert_eq!(id.as_word().as_elements(), elements);
}

#[test]
fn note_keys_order_as_note_ids_do() {
    let low = [9, 9, 9, 1];
    let high = [0, 0, 0, 2];
    let outside = |elements: [u64; 4]| {
        miden_protocol::note::NoteId::from_raw(elements.try_into().unwrap())
    };
    let key = |elements: [u64; 4]| NoteId::from_raw(Word::new(elements).unwrap()).key();
    assert!(outside(low) < outside(high));
    assert!(key(low) < key(high));
    assert_eq!(key([1, 2, 3, 4]), (4, 3, 2, 1));
    assert_ne!(key([1, 2, 3, 4]), key([2, 2, 3, 4]));
}

// Note type and version.

#[test]
fn note_types_come_back_from_their_numbers() {
    assert_eq!(note_type_to_proto(NoteType::Public), 1);
    assert_eq!(note_type_to_proto(NoteType::Private), 2);
    for note_type in [NoteType::Public, NoteType::Private] {
        assert_eq!(note_type_from_proto(note_type_to_proto(note_type)).unwrap(), note_type);
    }
}

#[test]
fn other_note_type_numbers_are_rejected() {
    assert_eq!(invalid_field(note_type_from_proto(0)), "note_type=NOTE_TYPE_UNSPECIFIED");
    assert_eq!(invalid_field(note_type_from_proto(3)), "note_type=3");
    assert_eq!(invalid_field(note_type_from_proto(-1)), "note_type=-1");
    assert_eq!(invalid_field(note_type_from_proto(i32::MIN)), "note_type=-2147483648");
    assert_eq!(invalid_field(note_type_from_proto(i32::MAX)), "note_type=2147483647");
}

#[test]
fn only_the_first_note_version_is_understood() {
    assert!(note_version_from_proto(1).is_ok());
    assert_eq!(invalid_field(note_version_from_proto(0)), "note version is unspecified");
    assert_eq!(invalid_field(note_version_from_proto(2)), "unknown note version 2");
    assert_eq!(invalid_field(note_version_from_proto(-10)), "unknown note version -10");
}

#[test]
fn wire_enumerations_have_their_numbers() {
    for raw in -1..4 {
        assert_eq!(
            proto::NoteType::from_i32(raw).map(|t| t.as_i32()),
            (0..3).contains(&raw).then_some(raw)
        );
        assert_eq!(
            proto::NoteVersion::from_i32(raw).map(|v| v.as_i32()),
            (0..2).contains(&raw).then_some(raw)
        );
    }
}

// Attachments.

#[test]
fn attachment_schemes_are_checked_by_the_protocol() {
    assert_eq!(scheme(1).as_u16(), 1);
    assert_eq!(scheme(65534).as_u16(), 65534);
    assert_eq!(
        NoteAttachmentScheme::new(0).unwrap_err(),
        "attachment scheme value 0 is reserved"
    );
    assert_eq!(
        NoteAttachmentScheme::new(65535).unwrap_err(),
        "attachment scheme 65535 exceeds maximum value of 65534"
    );
}

#[test]
fn attachments_have_a_bounded_number_of_words() {
    let words = |n: u64| (0..n).map(word).collect::<Vec<_>>();
    let with_words = |n: u64| NoteAttachment::with_words(scheme(1), words(n));
    assert_eq!(with_words(0).unwrap_err(), NoteError::NoteAttachmentContentEmpty);
    assert_eq!(
        with_words(257).unwrap_err(),
        NoteError::NoteAttachmentContentTooManyWords(257)
    );
    assert_eq!(with_words(256).unwrap().words(), &words(256));

    let largest = || with_words(256).unwrap();
    assert!(NoteAttachments::new(vec![largest(), largest()]).is_ok());
    assert_eq!(
        NoteAttachments::new(vec![largest(), largest(), with_words(1).unwrap()]).unwrap_err(),
        NoteError::NoteAttachmentsTooManyWords(513)
    );
    let five = (0..5).map(|_| with_words(1).unwrap()).collect();
    assert_eq!(NoteAttachments::new(five).unwrap_err(), NoteError::TooManyAttachments(5));
}

#[test]
fn attachment_commitments_are_those_of_the_protocol() {
    let outside_word = |w: Word| -> miden_protocol::Word { w.as_elements().try_into().unwrap() };
    let outside_attachment = |value: u16, words: Vec<Word>| {
        miden_protocol::note::NoteAttachment::with_words(
            miden_protocol::note::NoteAttachmentScheme::new(value).unwrap(),
            words.into_iter().map(outside_word).collect(),
        )
        .unwrap()
    };
    let words = vec![word(1), word(20), word(300)];
    let first = NoteAttachment::with_words(scheme(7), words.clone()).unwrap();
    let second = NoteAttachment::with_word(scheme(8), word(4));
    let outside = miden_protocol::note::NoteAttachments::new(vec![
        outside_attachment(7, words),
        outside_attachment(8, vec![word(4)]),
    ])
    .unwrap();

    let commitments = vec![first.to_commitment(), second.to_commitment()];
    let expected = outside.commitments();
    assert_eq!(outside_word(commitments[0]), expected[0]);
    assert_eq!(outside_word(commitments[1]), expected[1]);
    let attachments = NoteAttachments::new(vec![first, second]).unwrap();
    assert_eq!(outside_word(attachments.to_commitment()), outside.to_commitment());

    let over = AttachmentCommitments(&commitments);
    let elements = [commitments[0].as_elements(), commitments[1].as_elements()].concat();
    assert_eq!(over.to_elements(), elements);
    assert_eq!(over.to_commitment(), attachments.to_commitment());
    assert_ne!(over.to_commitment(), Word::empty());
}

#[test]
fn the_commitment_to_no_attachments_is_empty() {
    assert_eq!(NoteAttachments::empty().to_commitment(), Word::empty());
    assert_eq!(AttachmentCommitments(&Vec::new()).to_commitment(), Word::empty());
}

#[test]
fn attachments_are_found_by_slot() {
    let attachments = one_attachment();
    assert_eq!(attachments.num_attachments(), 1);
    assert_eq!(attachments.get(0).unwrap().words(), &vec![word(10)]);
    assert!(attachments.get(1).is_none());
    assert_eq!(attachments.clone(), attachments);
}

// Sync metadata.

#[test]
fn both_reports_determine_the_same_commitment() {
    let attachments = one_attachment();
    let commitments = vec![attachments.get(0).unwrap().to_commitment()];
    let full = ReportedAttachments::Full(attachments.clone());
    let withheld = ReportedAttachments::Commitments(commitments);
    assert_eq!(full.to_commitment(), withheld.to_commitment());
    assert_eq!(full.into_content(), Some(attachments));
    assert_eq!(withheld.into_content(), None);
}

#[test]
fn metadata_without_a_valid_head_is_rejected() {
    let mut value = message(1, vec![]);
    value.sender = None;
    assert_eq!(missing_field(SyncNoteMetadata::try_from(value)), ("NoteSyncMetadata", "sender"));

    let mut value = message(1, vec![]);
    value.sender = Some(Err(bad("account")));
    assert_eq!(undecodable(SyncNoteMetadata::try_from(value)), "account");

    let mut value = message(3, vec![]);
    value.version = 5;
    assert_eq!(invalid_field(SyncNoteMetadata::try_from(value)), "unknown note version 5");

    assert_eq!(invalid_field(SyncNoteMetadata::try_from(message(3, vec![]))), "note_type=3");

    let five = (0..5).map(|_| value_of_bad_scheme()).collect();
    assert_eq!(
        invalid_field(decode(five)),
        "attachments length 5 exceeds NoteAttachments::MAX_COUNT"
    );
}

fn value_of_bad_scheme() -> NoteSyncAttachment {
    value(0, word(1))
}

#[test]
fn the_first_bad_attachment_is_reported() {
    assert_eq!(
        invalid_field(decode(vec![value(1, word(1)), value(65536, word(1)), value(0, word(1))])),
        "attachments[1].scheme=65536 does not fit in u16"
    );
    assert_eq!(
        invalid_field(decode(vec![value(0, word(1)), value(65536, word(1))])),
        "attachments[0].scheme: attachment scheme value 0 is reserved"
    );
    assert_eq!(
        invalid_field(decode(vec![
            value(1, word(1)),
            value(2, word(1)),
            value(3, word(1)),
            NoteSyncAttachment { scheme: 65535, payload: None },
        ])),
        "attachments[3].scheme: attachment scheme 65535 exceeds maximum value of 65534"
    );
    let missing = NoteSyncAttachment { scheme: 9, payload: None };
    assert_eq!(
        missing_field(decode(vec![value(1, word(1)), missing])),
        ("NoteSyncAttachment", "payload")
    );
    let payload = Some(Payload::Value(Err(bad("value"))));
    assert_eq!(undecodable(decode(vec![NoteSyncAttachment { scheme: 9, payload }])), "value");
    let payload = Some(Payload::Commitment(Err(bad("commitment"))));
    assert_eq!(undecodable(decode(vec![NoteSyncAttachment { scheme: 9, payload }])), "commitment");
}

#[test]
fn metadata_is_reconstructed_however_the_attachments_are_sent() {
    let attachments = NoteAttachments::new(vec![
        NoteAttachment::with_word(scheme(5), word(10)),
        NoteAttachment::with_word(scheme(6), word(20)),
    ])
    .unwrap();
    let commitments: Vec<Word> =
        (0..2).map(|slot| attachments.get(slot).unwrap().to_commitment()).collect();

    let full = decode(vec![value(5, word(10)), value(6, word(20))]).unwrap();
    let mixed = decode(vec![commitment(5, commitments[0]), value(6, word(20))]).unwrap();
    let none = decode(vec![commitment(5, commitments[0]), commitment(6, commitments[1])]).unwrap();

    for decoded in [&full, &mixed, &none] {
        assert_eq!(decoded.metadata.attachments_commitment(), attachments.to_commitment());
        assert_eq!(decoded.metadata, full.metadata);
        assert_eq!(decoded.metadata.sender(), sender());
        assert_eq!(decoded.metadata.note_type(), NoteType::Public);
        assert_eq!(decoded.metadata.tag(), NoteTag::new(7));
        let headers = decoded.metadata.attachment_headers();
        assert_eq!(headers[0], NoteAttachmentHeader::new(scheme(5)));
        assert_eq!(headers[1], NoteAttachmentHeader::new(scheme(6)));
        assert!(headers[2].is_absent() && headers[3].is_absent());
    }
    assert_eq!(full.attachments.into_content(), Some(attachments));
    for decoded in [mixed, none] {
        match decoded.attachments {
            ReportedAttachments::Commitments(list) => assert_eq!(list, commitments),
            other => panic!("got {other:?}"),
        }
    }
}

// Committed notes.

#[test]
fn ids_and_proofs_are_passed_on() {
    assert_eq!(note_id_from_proto(Ok(word(3))).unwrap(), NoteId::from_raw(word(3)));
    assert_eq!(undecodable(note_id_from_proto(Err(bad("id")))), "id");
    let decoded = (NoteId::from_raw(word(3)), inclusion_proof(8));
    let (id, proof) = note_inclusion_proof_from_proto(Ok(decoded)).unwrap();
    assert_eq!(id, NoteId::from_raw(word(3)));
    assert_eq!(proof, inclusion_proof(8));
    assert_eq!(undecodable(note_inclusion_proof_from_proto(Err(bad("proof")))), "proof");
}

#[test]
fn committed_notes_are_decoded_from_records() {
    let note = CommittedNote::try_from(record(word(1), 12, vec![value(5, word(10))])).unwrap();
    assert_eq!(note.note_id(), &NoteId::from_raw(word(1)));
    assert_eq!(note.note_type(), NoteType::Private);
    assert_eq!(note.tag(), NoteTag::new(7));
    assert_eq!(note.sender(), sender());
    assert_eq!(note.block_num(), BlockNumber { value: 12 });
    assert_eq!(note.inclusion_proof(), &inclusion_proof(12));
    assert!(note.has_attachments());
    assert_eq!(note.attachments(), Some(&one_attachment()));
    assert!(!note.needs_attachment_fetch());
    assert_eq!(note.metadata().attachments_commitment(), one_attachment().to_commitment());

    let withheld =
        CommittedNote::try_from(record(word(1), 12, vec![commitment(5, word(99))])).unwrap();
    assert_eq!(withheld.attachments(), None);
    assert!(withheld.needs_attachment_fetch());

    let copy = note.clone();
    assert_eq!(copy.note_id(), note.note_id());
    assert_eq!(copy.metadata(), note.metadata());
    assert_eq!(copy.inclusion_proof(), note.inclusion_proof());
    assert_eq!(copy.attachments(), note.attachments());
}

#[test]
fn incomplete_records_are_rejected() {
    let mut bare = record(word(1), 12, vec![]);
    bare.metadata = None;
    bare.inclusion_proof = None;
    assert_eq!(
        missing_field(CommittedNote::try_from(bare)),
        ("SyncNotesResponse", "notes.metadata")
    );

    let mut bad_metadata = record(word(1), 12, vec![value(0, word(1))]);
    bad_metadata.inclusion_proof = None;
    assert_eq!(
        invalid_field(CommittedNote::try_from(bad_metadata)),
        "attachments[0].scheme: attachment scheme value 0 is reserved"
    );

    let mut no_proof = record(word(1), 12, vec![]);
    no_proof.inclusion_proof = None;
    assert_eq!(
        missing_field(CommittedNote::try_from(no_proof)),
        ("SyncNotesResponse", "notes.inclusion_proof")
    );

    let mut bad_proof = record(word(1), 12, vec![]);
    bad_proof.inclusion_proof = Some(Err(bad("proof")));
    assert_eq!(undecodable(CommittedNote::try_from(bad_proof)), "proof");
}

#[test]
fn only_matching_attachments_are_recorded() {
    let attachments = one_attachment();
    let bare = || {
        CommittedNote::new(
            NoteId::from_raw(Word::empty()),
            metadata(NoteType::Private, &one_attachment()),
            inclusion_proof(1),
        )
    };
    assert!(bare().needs_attachment_fetch());
    let recorded = bare().with_attachments(attachments.clone()).unwrap();
    assert_eq!(recorded.attachments(), Some(&attachments));
    assert!(!recorded.needs_attachment_fetch());
    assert_eq!(
        invalid_field(bare().with_attachments(NoteAttachments::empty())),
        "attachments recorded for note \
         0x0000000000000000000000000000000000000000000000000000000000000000 \
         do not match its attachments commitment"
    );
}

// Synced notes.

#[test]
fn recorded_content_resolves_a_note() {
    let note = CommittedNote::try_from(record(word(1), 12, vec![value(5, word(10))])).unwrap();
    let attachments = note.attachments().unwrap().clone();
    let synced = SyncedNote::new(note, None, attachments).unwrap();
    assert_eq!(synced.attachments, one_attachment());
    assert_eq!(synced.details, None);
    assert_eq!(synced.committed.note_id(), &NoteId::from_raw(word(1)));
    let copy = synced.clone();
    assert_eq!(copy.attachments, synced.attachments);
}

#[test]
fn a_public_note_may_have_a_body() {
    let note = || {
        CommittedNote::new(
            NoteId::from_raw(word(2)),
            metadata(NoteType::Public, &one_attachment()),
            inclusion_proof(1),
        )
    };
    let synced = SyncedNote::new(note(), Some(details()), one_attachment()).unwrap();
    assert_eq!(synced.details, Some(details()));
    assert_eq!(synced.clone().details, Some(details()));
    assert!(SyncedNote::new(note(), None, one_attachment()).is_ok());
}

#[test]
fn inconsistent_content_is_rejected() {
    let note = |note_type: NoteType| {
        CommittedNote::new(
            NoteId::from_raw(Word::new([1, 0, 0, 0]).unwrap()),
            metadata(note_type, &one_attachment()),
            inclusion_proof(1),
        )
    };
    let hex = "0x0100000000000000000000000000000000000000000000000000000000000000";
    assert_eq!(
        invalid_response(SyncedNote::new(
            note(NoteType::Private),
            Some(details()),
            NoteAttachments::empty()
        )),
        format!("a note body was returned for private note {hex}")
    );
    assert_eq!(
        invalid_response(SyncedNote::new(
            note(NoteType::Public),
            Some(details()),
            NoteAttachments::empty()
        )),
        format!(
            "the attachments resolved for note {hex} do not match the note's attachments commitment"
        )
    );
}

#[test]
fn commitments_are_checked_by_value() {
    let metadata = NoteMetadata::from_parts(
        PartialNoteMetadata::new(sender(), NoteType::Private),
        [NoteAttachmentHeader::absent(); 4],
        word(6),
    );
    assert!(!metadata.has_attachments());
    let note = CommittedNote::new(NoteId::from_raw(word(1)), metadata, inclusion_proof(1));
    let hex = note.note_id().to_hex();
    assert!(note.check_commitment(word(6)).is_ok());
    assert_eq!(
        invalid_field(note.check_commitment(word(7))),
        format!("attachments recorded for note {hex} do not match its attachments commitment")
    );
    assert!(SyncedNote::check_content(&note, false, word(6)).is_ok());
    assert_eq!(
        invalid_response(SyncedNote::check_content(&note, true, word(6))),
        format!("a note body was returned for private note {hex}")
    );
    assert_eq!(
        invalid_response(SyncedNote::check_content(&note, false, Word::empty())),
        format!(
            "the attachments resolved for note {hex} do not match the note's attachments commitment"
        )
    );
}

// Blocks.

fn path() -> MerklePath {
    MerklePath { nodes: vec![word(40), word(50)] }
}

fn block(notes: Vec<NoteSyncRecord>) -> NoteSyncBlock {
    NoteSyncBlock { block_header: Some(Ok(header())), mmr_path: Some(Ok(path())), notes }
}

#[test]
fn blocks_hold_their_notes_by_id() {
    let high = Word::new([0, 0, 0, 7]).unwrap();
    let low = Word::new([9, 9, 9, 1]).unwrap();
    let mut value = block(vec![
        record(high, 1, vec![]),
        record(low, 2, vec![]),
        record(high, 3, vec![]),
    ]);
    let block_header = header();
    value.block_header = Some(Ok(block_header.clone()));
    let decoded = SyncNotesBlock::try_from(value).unwrap();
    assert_eq!(decoded.block_header, block_header);
    assert_eq!(decoded.mmr_path, path());
    let ids: Vec<NoteId> = decoded.notes.values().map(|note| *note.note_id()).collect();
    assert_eq!(ids, vec![NoteId::from_raw(low), NoteId::from_raw(high)]);
    let last = &decoded.notes[&NoteId::from_raw(high).key()];
    assert_eq!(last.block_num(), BlockNumber { value: 3 });

    let copy = decoded.clone();
    assert_eq!(copy.block_header, decoded.block_header);
    assert_eq!(copy.mmr_path, decoded.mmr_path);
    assert_eq!(copy.notes.len(), 2);
}

#[test]
fn incomplete_blocks_are_rejected() {
    let mut value = block(vec![]);
    value.block_header = None;
    value.mmr_path = None;
    assert_eq!(
        missing_field(as_conversion(SyncNotesBlock::try_from(value))),
        ("SyncNotesResponse", "blocks.block_header")
    );

    let mut value = block(vec![]);
    value.block_header = Some(Err(bad("header")));
    assert_eq!(undecodable(as_conversion(SyncNotesBlock::try_from(value))), "header");

    let mut value = block(vec![]);
    value.mmr_path = None;
    assert_eq!(
        missing_field(as_conversion(SyncNotesBlock::try_from(value))),
        ("SyncNotesResponse", "blocks.mmr_path")
    );

    let mut value = block(vec![]);
    value.mmr_path = Some(Err(bad("path")));
    assert_eq!(undecodable(as_conversion(SyncNotesBlock::try_from(value))), "path");

    let mut second = record(word(1), 1, vec![]);
    second.inclusion_proof = None;
    let mut third = record(word(1), 1, vec![]);
    third.metadata = None;
    let notes = vec![record(word(1), 1, vec![]), second, third];
    assert_eq!(
        missing_field(as_conversion(SyncNotesBlock::try_from(block(notes)))),
        ("SyncNotesResponse", "notes.inclusion_proof")
    );
}

#[test]
fn resolved_blocks_are_cloned_with_their_notes() {
    let note = CommittedNote::try_from(record(word(1), 12, vec![])).unwrap();
    let key = note.note_id().key();
    let synced = SyncedNote::new(note, None, NoteAttachments::empty()).unwrap();
    let resolved = ResolvedSyncNotesBlock {
        block_header: header(),
        mmr_path: path(),
        notes: [(key, synced)].into_iter().collect(),
    };
    let copy = resolved.clone();
    assert_eq!(copy.block_header, resolved.block_header);
    assert_eq!(copy.mmr_path, resolved.mmr_path);
    assert_eq!(copy.notes[&key].committed.note_id(), &NoteId::from_raw(word(1)));
}

// Fetched notes.

fn fetched(note: Option<proto::Note>) -> proto::CommittedNote {
    proto::CommittedNote {
        note,
        inclusion_proof: Some(Ok((NoteId::from_raw(word(1)), inclusion_proof(5)))),
    }
}

fn private_note() -> proto::Note {
    proto::Note {
        note_details: None,
        metadata: Some(Ok(metadata(NoteType::Private, &one_attachment()))),
        note_attachments: Some(Ok(one_attachment())),
    }
}

#[test]
fn private_notes_are_fetched_without_details() {
    let note = FetchedNote::try_from(fetched(Some(private_note()))).unwrap();
    assert!(matches!(note, FetchedNote::Private(..)));
    assert_eq!(note.id(), NoteId::from_raw(word(1)));
    assert_eq!(note.metadata(), &metadata(NoteType::Private, &one_attachment()));
    assert_eq!(note.attachments(), &one_attachment());
    assert_eq!(note.inclusion_proof(), &inclusion_proof(5));

    let bare = proto::Note { note_attachments: None, ..private_note() };
    let note = FetchedNote::try_from(fetched(Some(bare))).unwrap();
    assert_eq!(note.attachments(), &NoteAttachments::empty());
}

#[test]
fn public_notes_are_fetched_with_details() {
    let protocol_note = miden_protocol::note::Note::with_attachments(
        details().assets().clone(),
        miden_protocol::note::PartialNoteMetadata::new(
            sender(),
            miden_protocol::note::NoteType::Public,
        )
        .with_tag(9.into()),
        details().recipient().clone(),
        miden_protocol::note::NoteAttachments::new(vec![
            miden_protocol::note::NoteAttachment::with_word(
                miden_protocol::note::NoteAttachmentScheme::new(5).unwrap(),
                miden_protocol::Word::from([10u32, 11, 12, 13]),
            ),
        ])
        .unwrap(),
    );
    let id = Word::new(protocol_note.id().as_word().into()).unwrap();
    let whole =
        Note::with_attachments(details(), partial_metadata(NoteType::Public), one_attachment());
    assert_eq!(whole.details(), &details());
    assert_ne!(
        whole.id(),
        Note::with_attachments(details(), partial_metadata(NoteType::Private), one_attachment())
            .id()
    );
    let message = proto::Note {
        note_details: Some(Ok(whole)),
        metadata: None,
        note_attachments: Some(Err(bad("not read"))),
    };
    let note = FetchedNote::try_from(fetched(Some(message))).unwrap();
    assert!(matches!(note, FetchedNote::Public(..)));
    assert_eq!(note.id(), NoteId::from_raw(id));
    assert_eq!(note.metadata(), &metadata(NoteType::Public, &one_attachment()));
    assert_eq!(note.attachments(), &one_attachment());
    assert_eq!(note.inclusion_proof(), &inclusion_proof(5));
}

#[test]
fn fetched_content_resolves_a_record() {
    let whole =
        Note::with_attachments(details(), partial_metadata(NoteType::Public), one_attachment());
    let note = CommittedNote::new(whole.id(), *whole.metadata(), inclusion_proof(5));
    assert!(note.needs_attachment_fetch());
    let synced =
        SyncedNote::new(note, Some(whole.details().clone()), whole.attachments().clone()).unwrap();
    assert_eq!(synced.details, Some(details()));
    assert_eq!(synced.attachments, one_attachment());
    assert_eq!(*synced.committed.note_id(), whole.id());
}

#[test]
fn incomplete_fetched_notes_are_rejected() {
    let mut value = fetched(None);
    value.inclusion_proof = None;
    assert_eq!(missing_field(FetchedNote::try_from(value)), ("CommittedNote", "inclusion_proof"));

    let mut value = fetched(None);
    value.inclusion_proof = Some(Err(bad("proof")));
    assert_eq!(undecodable(FetchedNote::try_from(value)), "proof");

    assert_eq!(missing_field(FetchedNote::try_from(fetched(None))), ("CommittedNote", "note"));

    let note = proto::Note { note_details: Some(Err(bad("note"))), ..private_note() };
    assert_eq!(undecodable(FetchedNote::try_from(fetched(Some(note)))), "note");

    let note = proto::Note { metadata: None, ..private_note() };
    assert_eq!(
        missing_field(FetchedNote::try_from(fetched(Some(note)))),
        ("CommittedNote", "note.metadata")
    );

    let note = proto::Note { metadata: Some(Err(bad("metadata"))), ..private_note() };
    assert_eq!(undecodable(FetchedNote::try_from(fetched(Some(note)))), "metadata");

    let note = proto::Note { note_attachments: Some(Err(bad("attachments"))), ..private_note() };
    assert_eq!(undecodable(FetchedNote::try_from(fetched(Some(note)))), "attachments");
}
