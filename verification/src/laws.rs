//! What holds of the library as a whole.

use miden_protocol::account::AccountId;
use miden_protocol::note::NoteDetails;
use vstd::prelude::*;

use crate::attachment;
use crate::attachment::NoteAttachmentView;
use crate::committed;
use crate::committed::CommittedNoteView;
use crate::errors::{RpcConversionErrorView, RpcErrorView};
use crate::fetched;
use crate::fetched::{FetchedNoteView, NoteView};
use crate::metadata;
use crate::metadata::{NoteTag, NoteType, PartialNoteMetadata};
use crate::proto;
use crate::proto::{NoteSyncAttachment, NoteSyncBlock, NoteSyncMetadata, NoteSyncRecord, Payload};
use crate::protocol;
use crate::results;
use crate::sync;
use crate::sync::{ReportedAttachmentsView, SyncNoteMetadataView};
use crate::sync_block;
use crate::synced;
use crate::text;
use crate::word;
use crate::word::NoteKey;

verus! {

// NOTE TYPE

/// A note type comes back from the number that it is sent as, and a number that is accepted is the
/// one that its type is sent as.
pub proof fn law_note_type_round_trip(note_type: NoteType, raw: i32)
    ensures
        sync::decoded_note_type(sync::encoded_note_type(note_type)) == Ok::<
            _,
            RpcConversionErrorView,
        >(note_type),
        sync::decoded_note_type(raw) matches Ok(decoded) ==> raw == sync::encoded_note_type(
            decoded,
        ),
{
}

/// The numbers one and two are the note types, public and private. Every other number is rejected
/// with a message that tells it, but for zero, which is told as a type that is not set.
pub proof fn law_note_type_numbers(raw: i32)
    ensures
        sync::decoded_note_type(raw) is Ok <==> raw == 1 || raw == 2,
        sync::decoded_note_type(raw) matches Ok(note_type) ==> (note_type == NoteType::Public <==> raw
            == 1) && (note_type == NoteType::Private <==> raw == 2),
        sync::decoded_note_type(raw) matches Err(err) ==> (err matches
            RpcConversionErrorView::InvalidField(text) && text == (if raw == 0 {
            "note_type=NOTE_TYPE_UNSPECIFIED"@
        } else {
            "note_type="@ + text::int_text(raw as int)
        })),
{
}

/// The number one is the only version that is understood. Every other number is rejected with a
/// message that tells it, but for zero, which is told as a version that is not set.
pub proof fn law_note_version_numbers(raw: i32)
    ensures
        sync::decoded_note_version(raw) is Ok <==> raw == 1,
        sync::decoded_note_version(raw) matches Err(err) ==> (err matches
            RpcConversionErrorView::InvalidField(text) && text == (if raw == 0 {
            "note version is unspecified"@
        } else {
            "unknown note version "@ + text::int_text(raw as int)
        })),
{
}

// SYNC METADATA

/// The word of a payload, where there is one that could be decoded.
pub open spec fn payload_word(message: NoteSyncAttachment) -> Option<Seq<u64>> {
    match message.payload {
        Some(Payload::Value(Ok(word))) => Some(word@),
        Some(Payload::Commitment(Ok(word))) => Some(word@),
        _ => None,
    }
}

/// An attachment is understood where its scheme is one and its payload could be decoded. Its scheme
/// is then kept. A value is its content and the hash of the value the commitment to it, and a
/// commitment stands for itself, without a content.
pub proof fn law_slot_is_decoded(slot: int, message: NoteSyncAttachment)
    ensures
        sync::decoded_slot(slot, message) is Ok <==> 1 <= message.scheme <= 65534 && payload_word(
            message,
        ) is Some,
        sync::decoded_slot(slot, message) matches Ok(decoded) ==> {
            &&& decoded.scheme == message.scheme
            &&& message.payload matches Some(Payload::Value(Ok(word))) ==> {
                &&& decoded.commitment == protocol::poseidon2(word@)
                &&& decoded.content matches Some(content) && content.scheme == message.scheme
                    && content.words == seq![word@]
            }
            &&& message.payload matches Some(Payload::Commitment(Ok(word))) ==> {
                &&& decoded.commitment == word@
                &&& decoded.content is None
            }
        },
{
    if let Some(Payload::Value(Ok(word))) = message.payload {
        let content = NoteAttachmentView { scheme: message.scheme as u16, words: seq![word@] };
        attachment::law_commitment_to_a_word(content, word@);
    }
}

/// An attachment that is not understood is rejected: first for its scheme, by a message that tells
/// the slot and the scheme, and then for a payload that is missing or could not be decoded.
pub proof fn law_slot_is_rejected(slot: int, message: NoteSyncAttachment)
    ensures
        sync::decoded_slot(slot, message) matches Err(err) ==> {
            let field = "attachments["@ + text::int_text(slot) + "].scheme"@;
            if message.scheme > 65535 {
                err matches RpcConversionErrorView::InvalidField(text) && text == field + "="@
                    + text::int_text(message.scheme as int) + " does not fit in u16"@
            } else if message.scheme == 0 {
                err matches RpcConversionErrorView::InvalidField(text) && text == field + ": "@
                    + "attachment scheme value 0 is reserved"@
            } else if message.scheme == 65535 {
                err matches RpcConversionErrorView::InvalidField(text) && text == field + ": "@ + (
                "attachment scheme "@ + text::nat_text(65535) + " exceeds maximum value of 65534"@)
            } else if message.payload is None {
                err matches RpcConversionErrorView::MissingFieldInProtobufRepresentation {
                    entity,
                    field_name,
                } && entity == "NoteSyncAttachment"@ && field_name == "payload"@
            } else {
                err matches RpcConversionErrorView::Undecodable(text) && match message.payload {
                    Some(Payload::Value(Err(part))) => text == part.message@,
                    Some(Payload::Commitment(Err(part))) => text == part.message@,
                    _ => false,
                }
            }
        },
{
}

/// Metadata is decoded where the sender could be, the version and the note type are known, and there
/// are at most as many attachments as a note can have, all of them understood.
pub proof fn law_metadata_is_decoded(value: NoteSyncMetadata)
    ensures
        sync::decoded_metadata(value) is Ok <==> {
            &&& value.sender matches Some(Ok(_))
            &&& value.version == 1
            &&& value.note_type == 1 || value.note_type == 2
            &&& value.attachments@.len() <= 4
            &&& forall|i: int|
                0 <= i < value.attachments@.len() ==> 1 <= (#[trigger] value.attachments@[i]).scheme
                    <= 65534 && payload_word(value.attachments@[i]) is Some
        },
{
    let all = sync::slot_results(value.attachments@);
    results::law_collected(all);
    assert forall|i: int| 0 <= i < all.len() implies (#[trigger] all[i] is Ok <==> 1
        <= value.attachments@[i].scheme <= 65534 && payload_word(value.attachments@[i]) is Some) by {
        law_slot_is_decoded(i, value.attachments@[i]);
    }
    if sync::decoded_slots(value.attachments@) is Ok {
        assert forall|i: int| 0 <= i < value.attachments@.len() implies 1 <= (
        #[trigger] value.attachments@[i]).scheme <= 65534 && payload_word(value.attachments@[i]) is Some by {
            assert(all[i] is Ok);
        }
    }
}

/// Decoded metadata holds the sender, the note type and the tag that were sent.
pub proof fn law_metadata_keeps_what_was_sent(value: NoteSyncMetadata)
    ensures
        sync::decoded_metadata(value) matches Ok(decoded) ==> {
            let partial = decoded.metadata.partial;
            &&& partial.tag.value == value.tag
            &&& value.sender matches Some(Ok(sender)) && sender == partial.sender
            &&& partial.note_type == NoteType::Public <==> value.note_type == 1
            &&& partial.note_type == NoteType::Private <==> value.note_type == 2
            &&& value.note_type == sync::encoded_note_type(partial.note_type)
        },
{
}

/// Decoded metadata holds the scheme of each attachment in its slot, and nothing in the slots that
/// are left over.
pub proof fn law_headers_are_the_schemes_sent(value: NoteSyncMetadata)
    ensures
        sync::decoded_metadata(value) matches Ok(decoded) ==> {
            let headers = decoded.metadata.headers;
            &&& headers.len() == 4
            &&& forall|slot: int|
                0 <= slot < value.attachments@.len() ==> (#[trigger] headers[slot] matches Some(
                    scheme,
                ) && scheme == value.attachments@[slot].scheme)
            &&& forall|slot: int|
                value.attachments@.len() <= slot < 4 ==> #[trigger] headers[slot] is None
        },
{
    if sync::decoded_metadata(value) is Ok {
        let slots = sync::decoded_slots(value.attachments@)->Ok_0;
        sync::lemma_decoded_slots(value.attachments@, slots);
        let headers = sync::decoded_metadata(value)->Ok_0.metadata.headers;
        assert forall|slot: int| 0 <= slot < value.attachments@.len() implies (
        #[trigger] headers[slot] matches Some(scheme) && scheme
            == value.attachments@[slot].scheme) by {
            assert(sync::decoded_slot(slot, value.attachments@[slot]) == Ok::<
                _,
                RpcConversionErrorView,
            >(slots[slot]));
        }
    }
}

/// Decoded metadata commits to the attachments that were sent: it holds the hash over their
/// commitments, where that to a value is the hash of the value. With it come the attachments, where
/// all of them were sent as values, and their commitments otherwise.
pub proof fn law_commitment_is_over_what_was_sent(
    value: NoteSyncMetadata,
    commitments: Seq<Seq<u64>>,
)
    requires
        commitments.len() == value.attachments@.len(),
        forall|i: int|
            0 <= i < commitments.len() ==> match (#[trigger] value.attachments@[i]).payload {
                Some(Payload::Value(Ok(word))) => commitments[i] == protocol::poseidon2(word@),
                Some(Payload::Commitment(Ok(word))) => commitments[i] == word@,
                _ => true,
            },
    ensures
        sync::decoded_metadata(value) matches Ok(decoded) ==> {
            let messages = value.attachments@;
            &&& decoded.metadata.attachments_commitment == protocol::poseidon2(
                commitments.flatten(),
            )
            &&& decoded.attachments is Full <==> (forall|i: int|
                0 <= i < messages.len() ==> ((#[trigger] messages[i]).payload matches Some(
                    Payload::Value(_),
                )))
            &&& decoded.attachments matches ReportedAttachmentsView::Full(attachments) ==> {
                &&& attachments.len() == messages.len()
                &&& forall|i: int|
                    0 <= i < messages.len() ==> (#[trigger] attachments[i]).scheme
                        == messages[i].scheme && attachments[i].words.len() == 1 && payload_word(
                        messages[i],
                    ) == Some(attachments[i].words[0])
            }
            &&& decoded.attachments matches ReportedAttachmentsView::Commitments(reported)
                ==> reported == commitments
        },
{
    if sync::decoded_metadata(value) is Ok {
        let messages = value.attachments@;
        let decoded = sync::decoded_metadata(value)->Ok_0;
        let slots = sync::decoded_slots(messages)->Ok_0;
        sync::lemma_decoded_slots(messages, slots);
        assert forall|i: int| 0 <= i < slots.len() implies {
            &&& (#[trigger] slots[i]).commitment == commitments[i]
            &&& slots[i].content is Some <==> (messages[i].payload matches Some(Payload::Value(_)))
        } by {
            law_slot_is_decoded(i, messages[i]);
            assert(sync::decoded_slot(i, messages[i]) == Ok::<_, RpcConversionErrorView>(slots[i]));
        }
        assert(sync::slot_commitments(slots) =~= commitments);
        if sync::all_contents(slots) {
            let attachments = sync::slot_contents(slots);
            assert forall|i: int| 0 <= i < messages.len() implies (#[trigger] attachments[i]).scheme
                == messages[i].scheme && attachments[i].words.len() == 1 && payload_word(messages[i])
                == Some(attachments[i].words[0]) by {
                assert(slots[i].content is Some);
                law_slot_is_decoded(i, messages[i]);
                assert(sync::decoded_slot(i, messages[i]) == Ok::<_, RpcConversionErrorView>(
                    slots[i],
                ));
            }
            assert forall|i: int| 0 <= i < messages.len() implies ((
            #[trigger] messages[i]).payload matches Some(Payload::Value(_))) by {
                assert(slots[i].content is Some);
            }
        } else {
            let i = choose|i: int| 0 <= i < slots.len() && !((#[trigger] slots[i]).content is Some);
            assert(!(messages[i].payload matches Some(Payload::Value(_))));
        }
    }
}

/// Metadata is rejected for the first thing that is wrong with it: the sender, the version, the note
/// type, and the number of attachments, in this order.
pub proof fn law_metadata_is_rejected(value: NoteSyncMetadata)
    ensures
        value.sender is None ==> (sync::decoded_metadata(value) matches Err(err) && err matches
            RpcConversionErrorView::MissingFieldInProtobufRepresentation { entity, field_name }
            && entity == "NoteSyncMetadata"@ && field_name == "sender"@),
        value.sender matches Some(Err(part)) ==> (sync::decoded_metadata(value) matches Err(err)
            && err matches RpcConversionErrorView::Undecodable(text) && text == part.message@),
        value.sender matches Some(Ok(_)) ==> {
            &&& value.version != 1 ==> (sync::decoded_metadata(value) matches Err(err)
                && sync::decoded_note_version(value.version) matches Err(e) && err == e)
            &&& value.version == 1 && value.note_type != 1 && value.note_type != 2 ==> (
            sync::decoded_metadata(value) matches Err(err) && sync::decoded_note_type(
                value.note_type,
            ) matches Err(e) && err == e)
            &&& value.version == 1 && (value.note_type == 1 || value.note_type == 2)
                && value.attachments@.len() > 4 ==> (sync::decoded_metadata(value) matches Err(err)
                && err matches RpcConversionErrorView::InvalidField(text) && text
                == "attachments length "@ + text::nat_text(value.attachments@.len())
                + " exceeds NoteAttachments::MAX_COUNT"@)
        },
{
}

/// Metadata that is right up to its attachments is rejected for the first attachment that is not
/// understood.
pub proof fn law_metadata_is_rejected_for_an_attachment(value: NoteSyncMetadata, slot: int)
    requires
        value.sender matches Some(Ok(_)),
        value.version == 1,
        value.note_type == 1 || value.note_type == 2,
        value.attachments@.len() <= 4,
        0 <= slot < value.attachments@.len(),
        sync::decoded_slot(slot, value.attachments@[slot]) is Err,
        forall|i: int|
            0 <= i < slot ==> sync::decoded_slot(i, #[trigger] value.attachments@[i]) is Ok,
    ensures
        sync::decoded_metadata(value) matches Err(err) && sync::decoded_slot(
            slot,
            value.attachments@[slot],
        ) matches Err(e) && err == e,
{
    let all = sync::slot_results(value.attachments@);
    results::law_collected(all);
    assert(all[slot] is Err);
    let err = results::collected(all)->Err_0;
    let first = choose|i: int|
        {
            &&& 0 <= i < all.len()
            &&& #[trigger] all[i] == Err::<sync::SlotView, RpcConversionErrorView>(err)
            &&& forall|j: int| 0 <= j < i ==> #[trigger] all[j] is Ok
        };
    if first < slot {
        assert(sync::decoded_slot(first, value.attachments@[first]) is Ok);
    }
    if slot < first {
        assert(all[slot] is Ok);
    }
}

/// Whether a message describes an attachment truly: by its scheme, and by its content where that is
/// a single word or by the commitment to it.
pub open spec fn describes(message: NoteSyncAttachment, attachment: NoteAttachmentView) -> bool {
    &&& message.scheme == attachment.scheme
    &&& match message.payload {
        Some(Payload::Value(Ok(word))) => attachment.words == seq![word@],
        Some(Payload::Commitment(Ok(word))) => word@ == attachment::attachment_commitment(
            attachment,
        ),
        _ => false,
    }
}

/// Whether a message carries the content of an attachment.
pub open spec fn carries_content(message: NoteSyncAttachment) -> bool {
    message.payload matches Some(Payload::Value(_))
}

/// The metadata of a note is reconstructed exactly from a message that describes the note truly,
/// however the message splits the attachments into contents and commitments. The attachments are
/// given back where the message carries the content of every one of them, and their commitments
/// otherwise.
pub proof fn law_metadata_is_reconstructed(
    value: NoteSyncMetadata,
    sender: AccountId,
    note_type: NoteType,
    attachments: Seq<NoteAttachmentView>,
)
    requires
        value.sender == Some(Ok::<_, crate::errors::ConversionError>(sender)),
        value.note_type == sync::encoded_note_type(note_type),
        value.version == proto::NoteVersion::V1.number(),
        attachments.len() <= attachment::MAX_COUNT,
        value.attachments@.len() == attachments.len(),
        forall|i: int|
            0 <= i < attachments.len() ==> attachment::is_scheme(
                (#[trigger] attachments[i]).scheme,
            ) && describes(value.attachments@[i], attachments[i]),
    ensures
        sync::decoded_metadata(value) == Ok::<_, RpcConversionErrorView>(
            SyncNoteMetadataView {
                metadata: metadata::metadata_for(
                    PartialNoteMetadata { sender, note_type, tag: NoteTag { value: value.tag } },
                    attachments,
                ),
                attachments: if forall|i: int|
                    0 <= i < attachments.len() ==> carries_content(
                        #[trigger] value.attachments@[i],
                    ) {
                    ReportedAttachmentsView::Full(attachments)
                } else {
                    ReportedAttachmentsView::Commitments(attachment::commitments_to(attachments))
                },
            },
        ),
{
    let messages = value.attachments@;
    let all = sync::slot_results(messages);
    results::law_collected(all);
    assert forall|i: int| 0 <= i < all.len() implies #[trigger] all[i] is Ok by {
        assert(describes(messages[i], attachments[i]));
    }
    let slots = sync::decoded_slots(messages)->Ok_0;
    sync::lemma_decoded_slots(messages, slots);
    assert forall|i: int| 0 <= i < slots.len() implies {
        &&& (#[trigger] slots[i]).scheme == attachments[i].scheme
        &&& slots[i].commitment == attachment::attachment_commitment(attachments[i])
        &&& slots[i].content is Some <==> carries_content(messages[i])
        &&& slots[i].content matches Some(content) ==> content == attachments[i]
    } by {
        assert(describes(messages[i], attachments[i]));
        assert(sync::decoded_slot(i, messages[i]) == Ok::<_, RpcConversionErrorView>(slots[i]));
    }
    assert(sync::slot_schemes(slots) =~= attachment::schemes_of(attachments));
    assert(sync::slot_commitments(slots) =~= attachment::commitments_to(attachments));
    if sync::all_contents(slots) {
        assert forall|i: int| 0 <= i < attachments.len() implies carries_content(
            #[trigger] messages[i],
        ) by {
            assert(slots[i].content is Some);
        }
        assert(sync::slot_contents(slots) =~= attachments);
    } else {
        let i = choose|i: int| 0 <= i < slots.len() && !((#[trigger] slots[i]).content is Some);
        assert(!carries_content(messages[i]));
    }
}

/// Both reports of the same attachments determine the same commitment.
pub proof fn law_reports_agree(attachments: Seq<NoteAttachmentView>)
    ensures
        ReportedAttachmentsView::Full(attachments).commitment()
            == ReportedAttachmentsView::Commitments(
            attachment::commitments_to(attachments),
        ).commitment(),
{
}

/// Reconstructed metadata advertises as many attachments as the message lists, in the first slots.
pub proof fn law_metadata_advertises_attachments(value: NoteSyncMetadata)
    ensures
        sync::decoded_metadata(value) matches Ok(decoded) ==> {
            &&& value.attachments@.len() <= attachment::MAX_COUNT
            &&& decoded.metadata.headers.len() == attachment::MAX_COUNT
            &&& forall|slot: int|
                0 <= slot < attachment::MAX_COUNT ==> ((
                #[trigger] decoded.metadata.headers[slot]) is Some <==> slot
                    < value.attachments@.len())
            &&& decoded.metadata.has_attachments() <==> value.attachments@.len() > 0
        },
{
    if sync::decoded_metadata(value) is Ok {
        let slots = sync::decoded_slots(value.attachments@)->Ok_0;
        sync::lemma_decoded_slots(value.attachments@, slots);
        let decoded = sync::decoded_metadata(value)->Ok_0;
        if value.attachments@.len() > 0 {
            assert(decoded.metadata.headers[0] is Some);
        }
    }
}

// COMMITTED NOTES

/// A record is decoded where its metadata is and the proof of inclusion could be. The note has the
/// decoded metadata, the id and the proof that were sent, and the attachments where the metadata
/// came with them.
pub proof fn law_note_is_what_the_record_says(record: NoteSyncRecord)
    ensures
        committed::decoded_note(record) is Ok <==> {
            &&& record.metadata matches Some(value) && sync::decoded_metadata(value) is Ok
            &&& record.inclusion_proof matches Some(Ok(_))
        },
        committed::decoded_note(record) matches Ok(note) ==> {
            let decoded = sync::decoded_metadata(record.metadata->0)->Ok_0;
            &&& note.metadata == decoded.metadata
            &&& record.inclusion_proof matches Some(Ok(proved)) && note.note_id == proved.0@
                && note.inclusion_proof == proved.1
            &&& match decoded.attachments {
                ReportedAttachmentsView::Full(attachments) => note.attachments == Some(attachments),
                ReportedAttachmentsView::Commitments(_) => note.attachments is None,
            }
        },
{
}

/// A decoded note has the sender, the type and the tag that its record holds.
pub proof fn law_note_keeps_what_was_sent(record: NoteSyncRecord)
    ensures
        committed::decoded_note(record) matches Ok(note) ==> (record.metadata matches Some(value) && {
            &&& note.metadata.partial.tag.value == value.tag
            &&& value.sender matches Some(Ok(sender)) && sender == note.metadata.partial.sender
            &&& note.metadata.partial.note_type == NoteType::Public <==> value.note_type == 1
            &&& note.metadata.partial.note_type == NoteType::Private <==> value.note_type == 2
        }),
{
    if committed::decoded_note(record) is Ok {
        law_metadata_keeps_what_was_sent(record.metadata->0);
    }
}

/// A record is rejected for the first thing that is wrong with it: missing metadata, wrong metadata,
/// and a proof of inclusion that is missing or could not be decoded, in this order.
pub proof fn law_record_is_rejected(record: NoteSyncRecord)
    ensures
        record.metadata is None ==> (committed::decoded_note(record) matches Err(err) && err matches
            RpcConversionErrorView::MissingFieldInProtobufRepresentation { entity, field_name }
            && entity == "SyncNotesResponse"@ && field_name == "notes.metadata"@),
        record.metadata matches Some(value) ==> {
            &&& sync::decoded_metadata(value) matches Err(e) ==> (committed::decoded_note(
                record,
            ) matches Err(err) && err == e)
            &&& sync::decoded_metadata(value) is Ok && record.inclusion_proof is None ==> (
            committed::decoded_note(record) matches Err(err) && err matches
                RpcConversionErrorView::MissingFieldInProtobufRepresentation { entity, field_name }
                && entity == "SyncNotesResponse"@ && field_name == "notes.inclusion_proof"@)
            &&& sync::decoded_metadata(value) is Ok && record.inclusion_proof is Some
                && record.inclusion_proof->0 is Err ==> (committed::decoded_note(record) matches Err(
                err,
            ) && err matches RpcConversionErrorView::Undecodable(text) && text
                == record.inclusion_proof->0->Err_0.message@)
        },
{
}

/// A note whose metadata has no header set needs no fetch. One with a header set needs a fetch where
/// no attachments are recorded, and only there.
pub proof fn law_fetch_is_needed_for_unknown_attachments(note: CommittedNoteView)
    ensures
        (forall|slot: int|
            0 <= slot < note.metadata.headers.len() ==> #[trigger] note.metadata.headers[slot] is None)
            ==> !note.needs_attachment_fetch(),
        (exists|slot: int|
            0 <= slot < note.metadata.headers.len() && #[trigger] note.metadata.headers[slot] is Some)
            ==> (note.needs_attachment_fetch() <==> note.attachments is None),
{
}

/// A note that is made without attachment content needs a fetch exactly where it has attachments.
pub proof fn law_fetch_is_needed_for_a_bare_note(
    note: CommittedNoteView,
    partial: PartialNoteMetadata,
    attachments: Seq<NoteAttachmentView>,
)
    requires
        note.metadata == metadata::metadata_for(partial, attachments),
        note.attachments is None,
    ensures
        note.needs_attachment_fetch() <==> attachments.len() > 0,
{
    let headers = note.metadata.headers;
    if attachments.len() > 0 {
        assert(headers[0] is Some);
    }
}

/// A note is consistent where it carries no attachments, or those whose commitment its metadata
/// holds.
pub proof fn law_consistency_is_by_commitment(
    note: CommittedNoteView,
    attachments: Seq<NoteAttachmentView>,
)
    ensures
        note.attachments is None ==> note.consistent(),
        note.attachments == Some(attachments) ==> (note.consistent()
            <==> attachment::attachments_commitment(attachments)
            == note.metadata.attachments_commitment),
{
}

/// Attachments may be recorded where their commitment is the one of the metadata, whatever the note
/// is otherwise. Others are rejected with a message that tells the note.
pub proof fn law_recording_is_by_commitment(note: CommittedNoteView, commitment: Seq<u64>)
    ensures
        committed::recordable(note, commitment) is Ok <==> commitment
            == note.metadata.attachments_commitment,
        committed::recordable(note, commitment) matches Err(err) ==> (err matches
            RpcConversionErrorView::InvalidField(text) && text == "attachments recorded for note "@
            + text::word_text(note.note_id) + " do not match its attachments commitment"@),
{
}

/// Attachments that may not be recorded are rejected for their commitment.
pub proof fn law_recording_is_rejected(
    note: CommittedNoteView,
    attachments: Seq<NoteAttachmentView>,
)
    ensures
        committed::recorded(note, attachments) matches Err(err) ==> (committed::recordable(
            note,
            attachment::attachments_commitment(attachments),
        ) matches Err(e) && err == e),
{
}

/// A decoded note carries its attachments where the record carries the content of each of them.
/// Otherwise, and only then, they have to be fetched. How many words an attachment has makes no
/// difference.
pub proof fn law_fetch_follows_payloads(record: NoteSyncRecord)
    ensures
        committed::decoded_note(record) matches Ok(note) ==> {
            let messages = record.metadata->0.attachments@;
            &&& note.attachments is Some <==> forall|i: int|
                0 <= i < messages.len() ==> carries_content(#[trigger] messages[i])
            &&& note.needs_attachment_fetch() <==> note.attachments is None
        },
{
    if committed::decoded_note(record) is Ok {
        let value = record.metadata->0;
        let messages = value.attachments@;
        let note = committed::decoded_note(record)->Ok_0;
        let slots = sync::decoded_slots(messages)->Ok_0;
        sync::lemma_decoded_slots(messages, slots);
        law_metadata_advertises_attachments(value);
        assert forall|i: int| 0 <= i < slots.len() implies ((#[trigger] slots[i]).content is Some
            <==> carries_content(messages[i])) by {
            assert(sync::decoded_slot(i, messages[i]) == Ok::<_, RpcConversionErrorView>(slots[i]));
        }
        if sync::all_contents(slots) {
            assert forall|i: int| 0 <= i < messages.len() implies carries_content(
                #[trigger] messages[i],
            ) by {
                assert(slots[i].content is Some);
            }
        } else {
            let i = choose|i: int| 0 <= i < slots.len() && !((#[trigger] slots[i]).content is Some);
            assert(!carries_content(messages[i]));
        }
    }
}

/// The attachments of a decoded note are those that its metadata commits to.
pub proof fn law_decoded_note_is_consistent(record: NoteSyncRecord)
    ensures
        committed::decoded_note(record) matches Ok(note) ==> note.consistent(),
{
    if committed::decoded_note(record) is Ok {
        sync::law_report_matches_metadata(record.metadata->0);
    }
}

/// A note without attachments has nothing to fetch, and its attachments are known to be none.
pub proof fn law_no_attachments_are_known(record: NoteSyncRecord)
    requires
        record.metadata matches Some(value) ==> value.attachments@.len() == 0,
    ensures
        committed::decoded_note(record) matches Ok(note) ==> {
            &&& note.attachments == Some(Seq::<NoteAttachmentView>::empty())
            &&& !note.metadata.has_attachments()
            &&& !note.needs_attachment_fetch()
        },
{
    if committed::decoded_note(record) is Ok {
        let value = record.metadata->0;
        let slots = sync::decoded_slots(value.attachments@)->Ok_0;
        sync::lemma_decoded_slots(value.attachments@, slots);
        law_metadata_advertises_attachments(value);
        assert(sync::slot_contents(slots) =~= Seq::<NoteAttachmentView>::empty());
    }
}

/// Recording attachments succeeds where they are those that the metadata commits to. It then
/// changes nothing but the attachments, the note stays consistent, and nothing is left to fetch.
pub proof fn law_recording_keeps_consistency(
    note: CommittedNoteView,
    attachments: Seq<NoteAttachmentView>,
)
    ensures
        committed::recorded(note, attachments) is Ok <==> attachment::attachments_commitment(
            attachments,
        ) == note.metadata.attachments_commitment,
        committed::recorded(note, attachments) matches Ok(after) ==> {
            &&& after.note_id == note.note_id
            &&& after.metadata == note.metadata
            &&& after.inclusion_proof == note.inclusion_proof
            &&& after.attachments == Some(attachments)
            &&& after.consistent()
            &&& !after.needs_attachment_fetch()
        },
{
}

// SYNCED NOTES

/// Content is consistent with a record where a body comes with a public note only, and where its
/// commitment is the one of the metadata. Nothing else about the note counts: not whether it carries
/// attachments, and not whether a body was left out.
pub proof fn law_content_is_checked_by_type_and_commitment(
    note: CommittedNoteView,
    has_body: bool,
    commitment: Seq<u64>,
)
    ensures
        synced::resolvable(note, has_body, commitment) is Ok <==> {
            &&& has_body ==> note.metadata.partial.note_type == NoteType::Public
            &&& commitment == note.metadata.attachments_commitment
        },
        synced::resolvable(note, has_body, commitment) matches Err(err) ==> (err matches
            RpcErrorView::InvalidResponse(text) && text == (if has_body
            && note.metadata.partial.note_type == NoteType::Private {
            "a note body was returned for private note "@ + text::word_text(note.note_id)
        } else {
            "the attachments resolved for note "@ + text::word_text(note.note_id)
                + " do not match the note's attachments commitment"@
        })),
{
}

/// A note is resolved where it has a body only if it is public, and the attachments are those that
/// its metadata commits to. This holds of every note, also of a private one whose attachments had to
/// be fetched.
pub proof fn law_note_is_resolved(
    note: CommittedNoteView,
    details: Option<NoteDetails>,
    attachments: Seq<NoteAttachmentView>,
)
    ensures
        synced::resolved(note, details, attachments) is Ok <==> {
            &&& details is Some ==> note.metadata.partial.note_type == NoteType::Public
            &&& attachment::attachments_commitment(attachments)
                == note.metadata.attachments_commitment
        },
        synced::resolved(note, details, attachments) matches Err(err) ==> (synced::resolvable(
            note,
            details is Some,
            attachment::attachments_commitment(attachments),
        ) matches Err(e) && err == e),
{
}

/// Whether a note is resolved does not depend on the attachments that it carries, its id or its
/// proof.
pub proof fn law_resolving_ignores_what_is_recorded(
    note: CommittedNoteView,
    other: CommittedNoteView,
    details: Option<NoteDetails>,
    attachments: Seq<NoteAttachmentView>,
)
    requires
        note.metadata == other.metadata,
    ensures
        synced::resolved(note, details, attachments) is Ok <==> synced::resolved(
            other,
            details,
            attachments,
        ) is Ok,
{
}

/// The attachments that a record sent as commitments resolve its note when they are fetched,
/// whatever their contents and however many of them were sent as commitments.
pub proof fn law_fetched_attachments_resolve(
    record: NoteSyncRecord,
    attachments: Seq<NoteAttachmentView>,
)
    requires
        record.metadata matches Some(value) ==> value.attachments@.len() == attachments.len()
            && forall|i: int|
            0 <= i < attachments.len() ==> describes(#[trigger] value.attachments@[i], attachments[i]),
    ensures
        committed::decoded_note(record) matches Ok(note) ==> synced::resolved(
            note,
            None,
            attachments,
        ) is Ok,
{
    if committed::decoded_note(record) is Ok {
        let messages = record.metadata->0.attachments@;
        let commitments = attachment::commitments_to(attachments);
        assert forall|i: int| 0 <= i < commitments.len() implies match (
        #[trigger] messages[i]).payload {
            Some(Payload::Value(Ok(word))) => commitments[i] == protocol::poseidon2(word@),
            Some(Payload::Commitment(Ok(word))) => commitments[i] == word@,
            _ => true,
        } by {
            assert(describes(messages[i], attachments[i]));
            if let Some(Payload::Value(Ok(word))) = messages[i].payload {
                attachment::law_commitment_to_a_word(attachments[i], word@);
            }
        }
        law_commitment_is_over_what_was_sent(record.metadata->0, commitments);
    }
}

/// The attachments that a committed note carries resolve it: without a body, and with one where the
/// note is public.
pub proof fn law_recorded_content_resolves(note: CommittedNoteView, details: Option<NoteDetails>)
    requires
        note.consistent(),
        note.attachments is Some,
        details is Some ==> note.metadata.partial.note_type == NoteType::Public,
    ensures
        synced::resolved(note, details, note.attachments->0) is Ok,
{
}

/// A resolved note is consistent with its record: its attachments are those that the metadata
/// commits to, and it has a body only where it is public.
pub proof fn law_resolved_note_is_consistent(
    note: CommittedNoteView,
    details: Option<NoteDetails>,
    attachments: Seq<NoteAttachmentView>,
)
    ensures
        synced::resolved(note, details, attachments) matches Ok(resolved) ==> {
            &&& resolved.committed == note
            &&& resolved.details == details
            &&& resolved.attachments == attachments
            &&& attachment::attachments_commitment(attachments)
                == note.metadata.attachments_commitment
            &&& details is Some ==> note.metadata.partial.note_type == NoteType::Public
        },
{
}

/// A body for a private note is rejected, whatever the attachments are.
pub proof fn law_private_body_is_rejected(
    note: CommittedNoteView,
    details: NoteDetails,
    attachments: Seq<NoteAttachmentView>,
)
    requires
        note.metadata.partial.note_type == NoteType::Private,
    ensures
        synced::resolved(note, Some(details), attachments) matches Err(err)
            && err is InvalidResponse,
{
}

/// A note whose attachments never arrived is rejected, unless its metadata commits to none.
pub proof fn law_missing_attachments_are_rejected(
    note: CommittedNoteView,
    details: Option<NoteDetails>,
)
    requires
        note.metadata.attachments_commitment != attachment::attachments_commitment(Seq::empty()),
    ensures
        synced::resolved(note, details, Seq::empty()) matches Err(err) && err is InvalidResponse,
{
}

// BLOCKS

/// Notes are keyed by their ids: every note is found under its own id, or a later note of the same
/// id is, and nothing else is found.
pub proof fn law_keyed_by_id(notes: Seq<CommittedNoteView>)
    ensures
        forall|key: NoteKey| #[trigger]
            sync_block::keyed(notes).contains_key(key) <==> exists|i: int|
                0 <= i < notes.len() && word::key_of((#[trigger] notes[i]).note_id) == key,
        forall|key: NoteKey| #[trigger]
            sync_block::keyed(notes).contains_key(key) ==> exists|i: int|
                {
                    &&& 0 <= i < notes.len()
                    &&& #[trigger] notes[i] == sync_block::keyed(notes)[key]
                    &&& word::key_of(notes[i].note_id) == key
                    &&& forall|j: int|
                        i < j < notes.len() ==> word::key_of((#[trigger] notes[j]).note_id) != key
                },
    decreases notes.len(),
{
    if notes.len() > 0 {
        let front = notes.drop_last();
        let last = notes.len() - 1;
        let last_key = word::key_of(notes[last].note_id);
        law_keyed_by_id(front);
        assert forall|key: NoteKey| #[trigger] sync_block::keyed(notes).contains_key(key) implies exists|
            i: int,
        |
            {
                &&& 0 <= i < notes.len()
                &&& #[trigger] notes[i] == sync_block::keyed(notes)[key]
                &&& word::key_of(notes[i].note_id) == key
                &&& forall|j: int|
                    i < j < notes.len() ==> word::key_of((#[trigger] notes[j]).note_id) != key
            } by {
            if key == last_key {
                assert(notes[last] == sync_block::keyed(notes)[key]);
            } else {
                assert(sync_block::keyed(front).contains_key(key));
                let i = choose|i: int|
                    {
                        &&& 0 <= i < front.len()
                        &&& #[trigger] front[i] == sync_block::keyed(front)[key]
                        &&& word::key_of(front[i].note_id) == key
                        &&& forall|j: int|
                            i < j < front.len() ==> word::key_of((#[trigger] front[j]).note_id)
                                != key
                    };
                assert(notes[i] == front[i]);
                assert forall|j: int| i < j < notes.len() implies word::key_of(
                    (#[trigger] notes[j]).note_id,
                ) != key by {
                    if j < last {
                        assert(front[j] == notes[j]);
                    }
                }
            }
        }
        assert forall|key: NoteKey|
            exists|i: int|
                0 <= i < notes.len() && word::key_of((#[trigger] notes[i]).note_id) == key
            implies #[trigger] sync_block::keyed(notes).contains_key(key) by {
            let i = choose|i: int|
                0 <= i < notes.len() && word::key_of((#[trigger] notes[i]).note_id) == key;
            if i < last {
                assert(front[i] == notes[i]);
                assert(sync_block::keyed(front).contains_key(key));
            }
        }
    }
}

/// A block is decoded where its header and its path could be, and every record is.
pub proof fn law_block_is_decoded(message: NoteSyncBlock)
    ensures
        sync_block::decoded_block(message) is Ok <==> {
            &&& message.block_header matches Some(Ok(_))
            &&& message.mmr_path matches Some(Ok(_))
            &&& forall|i: int|
                0 <= i < message.notes@.len() ==> committed::decoded_note(
                    #[trigger] message.notes@[i],
                ) is Ok
        },
{
    let all = sync_block::note_results(message.notes@);
    results::law_collected(all);
    assert forall|i: int| 0 <= i < all.len() implies (#[trigger] all[i]) == committed::decoded_note(
        message.notes@[i],
    ) by {}
    if results::collected(all) is Ok {
        assert forall|i: int| 0 <= i < message.notes@.len() implies committed::decoded_note(
            #[trigger] message.notes@[i],
        ) is Ok by {
            assert(all[i] is Ok);
        }
    }
}

/// A decoded block keeps the header and the path of its message, and holds the whole note of each
/// record under the note's id, or that of the last record where several have the same id. It holds
/// nothing else.
pub proof fn law_block_holds_its_records(message: NoteSyncBlock)
    ensures
        sync_block::decoded_block(message) matches Ok(decoded) ==> {
            &&& message.block_header == Some(
                Ok::<_, crate::errors::ConversionError>(decoded.block_header),
            )
            &&& message.mmr_path == Some(Ok::<_, crate::errors::ConversionError>(decoded.mmr_path))
            &&& forall|i: int|
                0 <= i < message.notes@.len() ==> (committed::decoded_note(
                    #[trigger] message.notes@[i],
                ) matches Ok(note) && decoded.notes.contains_key(word::key_of(note.note_id)))
            &&& forall|key: NoteKey| #[trigger]
                decoded.notes.contains_key(key) ==> word::key_of(decoded.notes[key].note_id) == key
                    && decoded.notes[key].consistent()
            &&& forall|key: NoteKey| #[trigger]
                decoded.notes.contains_key(key) ==> exists|i: int|
                    holds_last(message.notes@, i, key, decoded.notes[key])
        },
{
    if sync_block::decoded_block(message) is Ok {
        let decoded = sync_block::decoded_block(message)->Ok_0;
        let all = sync_block::note_results(message.notes@);
        let notes = results::collected(all)->Ok_0;
        results::law_collected(all);
        law_keyed_by_id(notes);
        assert forall|i: int| 0 <= i < message.notes@.len() implies (committed::decoded_note(
            #[trigger] message.notes@[i],
        ) matches Ok(note) && note == notes[i] && decoded.notes.contains_key(
            word::key_of(note.note_id),
        )) by {
            assert(all[i] == Ok::<_, RpcConversionErrorView>(notes[i]));
            assert(word::key_of(notes[i].note_id) == word::key_of(notes[i].note_id));
        }
        assert forall|key: NoteKey| #[trigger] decoded.notes.contains_key(key) implies word::key_of(
            decoded.notes[key].note_id,
        ) == key && decoded.notes[key].consistent() && exists|i: int|
            holds_last(message.notes@, i, key, decoded.notes[key]) by {
            let i = choose|i: int|
                {
                    &&& 0 <= i < notes.len()
                    &&& #[trigger] notes[i] == sync_block::keyed(notes)[key]
                    &&& word::key_of(notes[i].note_id) == key
                    &&& forall|j: int|
                        i < j < notes.len() ==> word::key_of((#[trigger] notes[j]).note_id) != key
                };
            assert(all[i] == Ok::<_, RpcConversionErrorView>(notes[i]));
            law_decoded_note_is_consistent(message.notes@[i]);
            assert forall|j: int| i < j < message.notes@.len() implies (committed::decoded_note(
                #[trigger] message.notes@[j],
            ) matches Ok(later) ==> word::key_of(later.note_id) != key) by {
                assert(all[j] == Ok::<_, RpcConversionErrorView>(notes[j]));
            }
            assert(holds_last(message.notes@, i, key, decoded.notes[key]));
        }
    }
}

/// Whether the record at `i` is the last one whose note has the given key, and `note` is that note.
pub open spec fn holds_last(
    records: Seq<NoteSyncRecord>,
    i: int,
    key: NoteKey,
    note: CommittedNoteView,
) -> bool {
    &&& 0 <= i < records.len()
    &&& committed::decoded_note(records[i]) == Ok::<_, RpcConversionErrorView>(note)
    &&& word::key_of(note.note_id) == key
    &&& forall|j: int|
        i < j < records.len() ==> (committed::decoded_note(#[trigger] records[j]) matches Ok(later)
            ==> word::key_of(later.note_id) != key)
}

/// A block whose records have ids of their own holds the note of every record, unchanged.
pub proof fn law_block_holds_distinct_notes(message: NoteSyncBlock, i: int)
    requires
        0 <= i < message.notes@.len(),
        forall|j: int|
            0 <= j < message.notes@.len() && j != i ==> (committed::decoded_note(
                #[trigger] message.notes@[j],
            ) matches Ok(other) ==> (committed::decoded_note(message.notes@[i]) matches Ok(note)
                ==> word::key_of(other.note_id) != word::key_of(note.note_id))),
    ensures
        sync_block::decoded_block(message) matches Ok(decoded) ==> (committed::decoded_note(
            message.notes@[i],
        ) matches Ok(note) && decoded.notes.contains_key(word::key_of(note.note_id))
            && decoded.notes[word::key_of(note.note_id)] == note),
{
    law_block_holds_its_records(message);
    if sync_block::decoded_block(message) is Ok {
        let decoded = sync_block::decoded_block(message)->Ok_0;
        let note = committed::decoded_note(message.notes@[i])->Ok_0;
        let key = word::key_of(note.note_id);
        assert(decoded.notes.contains_key(key));
        let k = choose|k: int| holds_last(message.notes@, k, key, decoded.notes[key]);
        assert(holds_last(message.notes@, k, key, decoded.notes[key]));
        if k != i {
            assert(committed::decoded_note(message.notes@[k]) matches Ok(other)
                && word::key_of(other.note_id) == key);
        }
    }
}

/// A block is rejected for the first thing that is wrong with it: the header, the path, and the
/// first record that is not decoded, in this order.
pub proof fn law_block_is_rejected(message: NoteSyncBlock, i: int)
    ensures
        message.block_header is None ==> (sync_block::decoded_block(message) matches Err(
            RpcErrorView::Conversion(err),
        ) && err matches RpcConversionErrorView::MissingFieldInProtobufRepresentation {
            entity,
            field_name,
        } && entity == "SyncNotesResponse"@ && field_name == "blocks.block_header"@),
        message.block_header matches Some(Err(part)) ==> (sync_block::decoded_block(
            message,
        ) matches Err(RpcErrorView::Conversion(err)) && err matches
            RpcConversionErrorView::Undecodable(text) && text == part.message@),
        message.block_header matches Some(Ok(_)) ==> {
            &&& message.mmr_path is None ==> (sync_block::decoded_block(message) matches Err(
                RpcErrorView::Conversion(err),
            ) && err matches RpcConversionErrorView::MissingFieldInProtobufRepresentation {
                entity,
                field_name,
            } && entity == "SyncNotesResponse"@ && field_name == "blocks.mmr_path"@)
            &&& message.mmr_path is Some && message.mmr_path->0 is Err ==> (
            sync_block::decoded_block(message) matches Err(RpcErrorView::Conversion(err))
                && err matches RpcConversionErrorView::Undecodable(text) && text
                == message.mmr_path->0->Err_0.message@)
            &&& message.mmr_path is Some && message.mmr_path->0 is Ok && 0 <= i
                < message.notes@.len() && committed::decoded_note(message.notes@[i]) is Err && (
            forall|j: int|
                0 <= j < i ==> committed::decoded_note(#[trigger] message.notes@[j]) is Ok) ==> (
            sync_block::decoded_block(message) matches Err(RpcErrorView::Conversion(err))
                && committed::decoded_note(message.notes@[i]) matches Err(e) && err == e)
        },
{
    let all = sync_block::note_results(message.notes@);
    results::law_collected(all);
    if 0 <= i < all.len() && all[i] is Err && (forall|j: int|
        0 <= j < i ==> committed::decoded_note(#[trigger] message.notes@[j]) is Ok) {
        let err = results::collected(all)->Err_0;
        let first = choose|k: int|
            {
                &&& 0 <= k < all.len()
                &&& #[trigger] all[k] == Err::<CommittedNoteView, RpcConversionErrorView>(err)
                &&& forall|j: int| 0 <= j < k ==> #[trigger] all[j] is Ok
            };
        if first < i {
            assert(committed::decoded_note(message.notes@[first]) is Ok);
        }
        if i < first {
            assert(all[i] is Ok);
        }
    }
}

// FETCHED NOTES

/// The content of a fetched public note resolves the record of a note with the same metadata.
pub proof fn law_fetched_content_resolves(note: CommittedNoteView, fetched: NoteView)
    requires
        fetched.consistent(),
        fetched.metadata == note.metadata,
        fetched.metadata.partial.note_type == NoteType::Public,
    ensures
        synced::resolved(note, Some(fetched.details), fetched.attachments) is Ok,
{
}

/// A fetched note is public where the message carries its details, and private otherwise. A private
/// one has the id that its proof is about.
pub proof fn law_fetched_variant_follows_details(message: proto::CommittedNote)
    ensures
        fetched::decoded_fetched_note(message) matches Ok(note) ==> {
            &&& note is Public <==> message.note->0.note_details is Some
            &&& note matches FetchedNoteView::Private(note_id, _, _, _) ==> note_id
                == (message.inclusion_proof->0->Ok_0).0@
        },
{
}

/// A fetched note is decoded where the proof of inclusion could be, and either the whole note could
/// be, where its details came with it, or the metadata could be, and the attachments if there are
/// any. The parts are those that were sent.
pub proof fn law_fetched_note_is_what_was_sent(message: proto::CommittedNote)
    ensures
        fetched::decoded_fetched_note(message) is Ok <==> {
            &&& message.inclusion_proof matches Some(Ok(_))
            &&& message.note matches Some(note) && match note.note_details {
                Some(whole) => whole is Ok,
                None => (note.metadata matches Some(Ok(_))) && !(note.note_attachments matches Some(
                    Err(_),
                )),
            }
        },
        fetched::decoded_fetched_note(message) matches Ok(FetchedNoteView::Public(note, proof))
            ==> {
            &&& message.inclusion_proof matches Some(Ok(proved)) && proof == proved.1
            &&& message.note->0.note_details matches Some(Ok(whole)) && note == whole@
        },
        fetched::decoded_fetched_note(message) matches Ok(
            FetchedNoteView::Private(id, metadata, attachments, proof),
        ) ==> {
            &&& message.inclusion_proof matches Some(Ok(proved)) && id == proved.0@ && proof
                == proved.1
            &&& message.note->0.note_details is None
            &&& message.note->0.metadata matches Some(Ok(sent)) && metadata == sent@
            &&& match message.note->0.note_attachments {
                Some(sent) => sent is Ok && attachments == sent->Ok_0@,
                None => attachments.len() == 0,
            }
        },
{
}

/// A fetched note is rejected for the first thing that is wrong with it: the proof of inclusion, a
/// missing note, and then either the whole note, where its details came with it, or the metadata and
/// the attachments, in this order.
pub proof fn law_fetched_note_is_rejected(message: proto::CommittedNote)
    ensures
        fetched::decoded_fetched_note(message) matches Err(err) ==> match message.inclusion_proof {
            None => is_missing(err, "inclusion_proof"@),
            Some(Err(part)) => is_undecodable(err, part.message@),
            Some(Ok(_)) => match message.note {
                None => is_missing(err, "note"@),
                Some(note) => match note.note_details {
                    Some(whole) => whole is Err && is_undecodable(err, whole->Err_0.message@),
                    None => match note.metadata {
                        None => is_missing(err, "note.metadata"@),
                        Some(Err(part)) => is_undecodable(err, part.message@),
                        Some(Ok(_)) => note.note_attachments is Some && note.note_attachments->0
                            is Err && is_undecodable(
                            err,
                            note.note_attachments->0->Err_0.message@,
                        ),
                    },
                },
            },
        },
{
}

/// Whether an error tells that a field of a fetched note is not set.
pub open spec fn is_missing(err: RpcConversionErrorView, field: Seq<char>) -> bool {
    err matches RpcConversionErrorView::MissingFieldInProtobufRepresentation { entity, field_name }
        && entity == "CommittedNote"@ && field_name == field
}

/// Whether an error tells that a part could not be decoded, by the given text.
pub open spec fn is_undecodable(err: RpcConversionErrorView, message: Seq<char>) -> bool {
    err matches RpcConversionErrorView::Undecodable(text) && text == message
}

/// The id of a note is the protocol's, from the commitment to the body and from the metadata. Notes
/// of the same body and metadata have the same id.
pub proof fn law_note_id_is_by_body_and_metadata(note: NoteView, other: NoteView)
    ensures
        note.id() == protocol::note_id(protocol::details_commitment(note.details), note.metadata),
        note.details == other.details && note.metadata == other.metadata ==> note.id()
            == other.id(),
{
}

/// A note is consistent where its metadata is that of a note with its attachments.
pub proof fn law_note_consistency(note: NoteView, partial: PartialNoteMetadata)
    ensures
        note.consistent() ==> note.metadata.attachments_commitment
            == attachment::attachments_commitment(note.attachments),
        note.consistent() ==> note.metadata == metadata::metadata_for(
            note.metadata.partial,
            note.attachments,
        ),
        note.metadata == metadata::metadata_for(partial, note.attachments) ==> note.consistent(),
{
}

} // verus!
