//! What a notes sync says of a note: its metadata, and what is known of its attachments.

use vstd::prelude::*;
use vstd::string::StringExecFns;

use crate::attachment;
use crate::attachment::{
    AttachmentCommitments, NoteAttachment, NoteAttachmentHeader, NoteAttachmentScheme,
    NoteAttachmentView, NoteAttachments,
};
use crate::errors;
use crate::errors::{RpcConversionError, RpcConversionErrorView};
use crate::metadata::{NoteMetadata, NoteMetadataView, NoteTag, NoteType, PartialNoteMetadata};
use crate::metadata;
use crate::proto;
use crate::proto::{NoteSyncAttachment, NoteSyncMetadata, Payload};
use crate::protocol;
use crate::results;
use crate::text;
use crate::word::Word;

verus! {

// NOTE TYPE AND VERSION

/// The note type that a number on the wire stands for.
pub open spec fn decoded_note_type(raw: i32) -> Result<NoteType, RpcConversionErrorView> {
    if raw == proto::NoteType::Public.number() {
        Ok(NoteType::Public)
    } else if raw == proto::NoteType::Private.number() {
        Ok(NoteType::Private)
    } else if raw == proto::NoteType::Unspecified.number() {
        Err(RpcConversionErrorView::InvalidField("note_type=NOTE_TYPE_UNSPECIFIED"@))
    } else {
        Err(RpcConversionErrorView::InvalidField("note_type="@ + text::int_text(raw as int)))
    }
}

/// Returns the note type that a number on the wire stands for.
///
/// # Errors
///
/// Returns an error if the number stands for no type, or for a type that is not set.
pub fn note_type_from_proto(raw: i32) -> (r: Result<NoteType, RpcConversionError>)
    ensures
        errors::result_view(r) == decoded_note_type(raw),
{
    match proto::NoteType::from_i32(raw) {
        Some(proto::NoteType::Public) => Ok(NoteType::Public),
        Some(proto::NoteType::Private) => Ok(NoteType::Private),
        Some(proto::NoteType::Unspecified) => Err(
            RpcConversionError::InvalidField(String::from_str("note_type=NOTE_TYPE_UNSPECIFIED")),
        ),
        None => {
            assert(proto::NoteType::Public.number() != raw);
            assert(proto::NoteType::Private.number() != raw);
            assert(proto::NoteType::Unspecified.number() != raw);
            let mut message = String::from_str("note_type=");
            text::append_int(&mut message, raw);
            Err(RpcConversionError::InvalidField(message))
        },
    }
}

/// What a version number on the wire is: one that is understood, or the error.
pub open spec fn decoded_note_version(raw: i32) -> Result<(), RpcConversionErrorView> {
    if raw == proto::NoteVersion::V1.number() {
        Ok(())
    } else if raw == proto::NoteVersion::Unspecified.number() {
        Err(RpcConversionErrorView::InvalidField("note version is unspecified"@))
    } else {
        Err(
            RpcConversionErrorView::InvalidField(
                "unknown note version "@ + text::int_text(raw as int),
            ),
        )
    }
}

/// Checks that a number on the wire stands for a version of note metadata that is understood.
///
/// # Errors
///
/// Returns an error if the number stands for no version, or for a version that is not set.
pub fn note_version_from_proto(raw: i32) -> (r: Result<(), RpcConversionError>)
    ensures
        errors::result_view(r) == decoded_note_version(raw),
{
    match proto::NoteVersion::from_i32(raw) {
        Some(proto::NoteVersion::V1) => Ok(()),
        Some(proto::NoteVersion::Unspecified) => Err(
            RpcConversionError::InvalidField(String::from_str("note version is unspecified")),
        ),
        None => {
            assert(proto::NoteVersion::V1.number() != raw);
            assert(proto::NoteVersion::Unspecified.number() != raw);
            let mut message = String::from_str("unknown note version ");
            text::append_int(&mut message, raw);
            Err(RpcConversionError::InvalidField(message))
        },
    }
}

/// The number that stands for a note type on the wire.
pub open spec fn encoded_note_type(note_type: NoteType) -> i32 {
    match note_type {
        NoteType::Public => proto::NoteType::Public.number(),
        NoteType::Private => proto::NoteType::Private.number(),
    }
}

/// Returns the number that stands for a note type on the wire.
pub fn note_type_to_proto(note_type: NoteType) -> (r: i32)
    ensures
        r == encoded_note_type(note_type),
{
    let proto_note_type = match note_type {
        NoteType::Public => proto::NoteType::Public,
        NoteType::Private => proto::NoteType::Private,
    };
    proto_note_type.as_i32()
}

// ATTACHMENT SLOTS

/// What a message says of one attachment.
pub struct SlotView {
    /// The scheme of the attachment.
    pub scheme: u16,
    /// The commitment to the attachment.
    pub commitment: Seq<u64>,
    /// The content of the attachment, where the message carries it.
    pub content: Option<NoteAttachmentView>,
}

/// The text in front of a message about the scheme of a slot.
pub open spec fn scheme_field(slot: int) -> Seq<char> {
    "attachments["@ + text::int_text(slot) + "].scheme"@
}

/// What a message says of the attachment in `slot`.
pub open spec fn decoded_slot(slot: int, attachment: NoteSyncAttachment) -> Result<
    SlotView,
    RpcConversionErrorView,
> {
    if attachment.scheme > u16::MAX {
        Err(
            RpcConversionErrorView::InvalidField(
                scheme_field(slot) + "="@ + text::int_text(attachment.scheme as int)
                    + " does not fit in u16"@,
            ),
        )
    } else if !attachment::is_scheme(attachment.scheme as u16) {
        Err(
            RpcConversionErrorView::InvalidField(
                scheme_field(slot) + ": "@ + protocol::scheme_error_text(attachment.scheme as u16),
            ),
        )
    } else {
        match attachment.payload {
            None => Err(errors::missing_field("NoteSyncAttachment"@, "payload"@)),
            Some(Payload::Value(Err(err))) => Err(RpcConversionErrorView::Undecodable(err@)),
            Some(Payload::Commitment(Err(err))) => Err(RpcConversionErrorView::Undecodable(err@)),
            Some(Payload::Value(Ok(word))) => {
                let content = NoteAttachmentView {
                    scheme: attachment.scheme as u16,
                    words: seq![word@],
                };
                Ok(
                    SlotView {
                        scheme: attachment.scheme as u16,
                        commitment: attachment::attachment_commitment(content),
                        content: Some(content),
                    },
                )
            },
            Some(Payload::Commitment(Ok(word))) => Ok(
                SlotView {
                    scheme: attachment.scheme as u16,
                    commitment: word@,
                    content: None,
                },
            ),
        }
    }
}

/// An attachment that a message describes.
struct Slot {
    scheme: NoteAttachmentScheme,
    commitment: Word,
    content: Option<NoteAttachment>,
}

impl View for Slot {
    type V = SlotView;

    closed spec fn view(&self) -> SlotView {
        SlotView {
            scheme: self.scheme@,
            commitment: self.commitment@,
            content: match self.content {
                Some(content) => Some(content@),
                None => None,
            },
        }
    }
}

/// Returns the text in front of a message about the scheme of a slot.
fn scheme_message(slot: usize) -> (r: String)
    ensures
        r@ == scheme_field(slot as int),
{
    let mut message = String::from_str("attachments[");
    text::append_nat(&mut message, slot as u64);
    message.append("].scheme");
    message
}

/// Decodes what a message says of the attachment in `slot`.
///
/// An attachment that fits in a single word is sent verbatim, so it can be rebuilt in full. A
/// larger one is sent as a commitment to keep the answer bounded. The node may send a commitment
/// even for a single word, so the choice is read off the payload and never inferred from a word
/// count.
fn decode_slot(slot: usize, attachment: &NoteSyncAttachment) -> (r: Result<
    Slot,
    RpcConversionError,
>)
    ensures
        errors::result_view(r) == decoded_slot(slot as int, *attachment),
{
    if attachment.scheme > 0xFFFF {
        let mut message = scheme_message(slot);
        message.append("=");
        text::append_nat(&mut message, attachment.scheme as u64);
        message.append(" does not fit in u16");
        return Err(RpcConversionError::InvalidField(message));
    }
    let scheme = match NoteAttachmentScheme::new(attachment.scheme as u16) {
        Ok(scheme) => scheme,
        Err(text) => {
            let mut message = scheme_message(slot);
            message.append(": ");
            message.append(text.as_str());
            return Err(RpcConversionError::InvalidField(message));
        },
    };
    match &attachment.payload {
        None => Err(
            RpcConversionError::MissingFieldInProtobufRepresentation {
                entity: "NoteSyncAttachment",
                field_name: "payload",
            },
        ),
        Some(Payload::Value(Ok(word))) => {
            let content = NoteAttachment::with_word(scheme, *word);
            let commitment = content.to_commitment();
            Ok(Slot { scheme, commitment, content: Some(content) })
        },
        Some(Payload::Commitment(Ok(word))) => {
            Ok(Slot { scheme, commitment: *word, content: None })
        },
        Some(Payload::Value(Err(err))) => Err(RpcConversionError::Undecodable(err.clone())),
        Some(Payload::Commitment(Err(err))) => Err(RpcConversionError::Undecodable(err.clone())),
    }
}

/// What a message says of each attachment, up to the first one that it describes wrongly.
pub open spec fn decoded_slots(attachments: Seq<NoteSyncAttachment>) -> Result<
    Seq<SlotView>,
    RpcConversionErrorView,
> {
    results::collected(slot_results(attachments))
}

/// What a message says of each attachment.
pub open spec fn slot_results(attachments: Seq<NoteSyncAttachment>) -> Seq<
    Result<SlotView, RpcConversionErrorView>,
> {
    attachments.map(|slot: int, attachment: NoteSyncAttachment| decoded_slot(slot, attachment))
}

/// The scheme in each slot.
pub open spec fn slot_schemes(slots: Seq<SlotView>) -> Seq<u16> {
    slots.map_values(|slot: SlotView| slot.scheme)
}

/// The commitment to the attachment in each slot.
pub open spec fn slot_commitments(slots: Seq<SlotView>) -> Seq<Seq<u64>> {
    slots.map_values(|slot: SlotView| slot.commitment)
}

/// The content in each slot, where every slot has one.
pub open spec fn slot_contents(slots: Seq<SlotView>) -> Seq<NoteAttachmentView> {
    slots.map_values(|slot: SlotView| slot.content->0)
}

/// Whether every slot has its content.
pub open spec fn all_contents(slots: Seq<SlotView>) -> bool {
    forall|i: int| 0 <= i < slots.len() ==> (#[trigger] slots[i]).content is Some
}

// REPORTED ATTACHMENTS

/// [`ReportedAttachments`], with attachments and commitments as their views.
pub enum ReportedAttachmentsView {
    Full(Seq<NoteAttachmentView>),
    Commitments(Seq<Seq<u64>>),
}

impl ReportedAttachmentsView {
    /// The commitment to the note's attachments.
    pub open spec fn commitment(self) -> Seq<u64> {
        match self {
            ReportedAttachmentsView::Full(attachments) => attachment::attachments_commitment(
                attachments,
            ),
            ReportedAttachmentsView::Commitments(commitments) => attachment::commitment_over(
                commitments,
            ),
        }
    }

    /// The attachments, where the report carries all of them.
    pub open spec fn content(self) -> Option<Seq<NoteAttachmentView>> {
        match self {
            ReportedAttachmentsView::Full(attachments) => Some(attachments),
            ReportedAttachmentsView::Commitments(_) => None,
        }
    }
}

/// The attachments of a note as a notes sync reports them. Both variants determine the note's
/// attachments commitment exactly, but only one carries the content.
#[derive(Debug)]
pub enum ReportedAttachments {
    /// Every attachment arrived verbatim, so the content is known and needs no fetching.
    Full(NoteAttachments),
    /// At least one attachment arrived as a commitment only. Holds one commitment per attachment,
    /// enough to rebuild the note's metadata but not its content.
    Commitments(Vec<Word>),
}

impl View for ReportedAttachments {
    type V = ReportedAttachmentsView;

    open spec fn view(&self) -> ReportedAttachmentsView {
        match *self {
            ReportedAttachments::Full(attachments) => ReportedAttachmentsView::Full(attachments@),
            ReportedAttachments::Commitments(commitments) => ReportedAttachmentsView::Commitments(
                attachment::word_views(commitments@),
            ),
        }
    }
}

impl ReportedAttachments {
    /// Returns the note's attachments commitment.
    pub fn to_commitment(&self) -> (r: Word)
        ensures
            r@ == self@.commitment(),
    {
        match self {
            ReportedAttachments::Full(attachments) => attachments.to_commitment(),
            ReportedAttachments::Commitments(commitments) => AttachmentCommitments(
                commitments.as_slice(),
            ).to_commitment(),
        }
    }

    /// Consumes the report and returns the content, when the record carried all of it.
    pub fn into_content(self) -> (r: Option<NoteAttachments>)
        ensures
            r is Some <==> self@.content() is Some,
            r matches Some(attachments) ==> self@.content() == Some(attachments@),
    {
        match self {
            ReportedAttachments::Full(attachments) => Some(attachments),
            ReportedAttachments::Commitments(_) => None,
        }
    }
}

// SYNC METADATA

/// [`SyncNoteMetadata`], with the metadata and the report as their views.
pub struct SyncNoteMetadataView {
    pub metadata: NoteMetadataView,
    pub attachments: ReportedAttachmentsView,
}

/// What a notes sync reports of a note whose attachment slots are as given.
pub open spec fn reported(partial: PartialNoteMetadata, slots: Seq<SlotView>) -> SyncNoteMetadataView {
    SyncNoteMetadataView {
        metadata: NoteMetadataView {
            partial,
            headers: attachment::headers_of(slot_schemes(slots)),
            attachments_commitment: attachment::commitment_over(slot_commitments(slots)),
        },
        attachments: if all_contents(slots) {
            ReportedAttachmentsView::Full(slot_contents(slots))
        } else {
            ReportedAttachmentsView::Commitments(slot_commitments(slots))
        },
    }
}

/// What a message says of a note.
pub open spec fn decoded_metadata(value: NoteSyncMetadata) -> Result<
    SyncNoteMetadataView,
    RpcConversionErrorView,
> {
    match value.sender {
        None => Err(errors::missing_field("NoteSyncMetadata"@, "sender"@)),
        Some(Err(err)) => Err(RpcConversionErrorView::Undecodable(err@)),
        Some(Ok(sender)) => match decoded_note_version(value.version) {
            Err(err) => Err(err),
            Ok(_) => match decoded_note_type(value.note_type) {
                Err(err) => Err(err),
                Ok(note_type) => if value.attachments@.len() > attachment::MAX_COUNT {
                    Err(
                        RpcConversionErrorView::InvalidField(
                            "attachments length "@ + text::nat_text(value.attachments@.len())
                                + " exceeds NoteAttachments::MAX_COUNT"@,
                        ),
                    )
                } else {
                    match decoded_slots(value.attachments@) {
                        Err(err) => Err(err),
                        Ok(slots) => Ok(
                            reported(
                                PartialNoteMetadata {
                                    sender,
                                    note_type,
                                    tag: NoteTag { value: value.tag },
                                },
                                slots,
                            ),
                        ),
                    }
                },
            },
        },
    }
}

/// The note metadata reconstructed from a record of a notes sync, together with what that record
/// reported about the note's attachments.
#[derive(Debug)]
pub struct SyncNoteMetadata {
    /// The note's full metadata, equal to what the on-chain note commits to.
    pub metadata: NoteMetadata,
    /// What the record reported about the note's attachments.
    pub attachments: ReportedAttachments,
}

impl View for SyncNoteMetadata {
    type V = SyncNoteMetadataView;

    open spec fn view(&self) -> SyncNoteMetadataView {
        SyncNoteMetadataView { metadata: self.metadata@, attachments: self.attachments@ }
    }
}

/// The slots that a message describes, one by one.
pub proof fn lemma_decoded_slots(attachments: Seq<NoteSyncAttachment>, slots: Seq<SlotView>)
    requires
        decoded_slots(attachments) == Ok::<_, RpcConversionErrorView>(slots),
    ensures
        slots.len() == attachments.len(),
        forall|i: int|
            0 <= i < slots.len() ==> decoded_slot(i, attachments[i]) == Ok::<
                _,
                RpcConversionErrorView,
            >(#[trigger] slots[i]),
{
    results::law_collected(slot_results(attachments));
    assert forall|i: int| 0 <= i < slots.len() implies decoded_slot(i, attachments[i]) == Ok::<
        _,
        RpcConversionErrorView,
    >(#[trigger] slots[i]) by {
        assert(slot_results(attachments)[i] == Ok::<_, RpcConversionErrorView>(slots[i]));
    }
}

/// A content that a message carries is a single word, and agrees with the rest of its slot.
proof fn lemma_contents(attachments: Seq<NoteSyncAttachment>, slots: Seq<SlotView>)
    requires
        decoded_slots(attachments) == Ok::<_, RpcConversionErrorView>(slots),
        all_contents(slots),
    ensures
        attachment::commitments_to(slot_contents(slots)) == slot_commitments(slots),
        attachment::schemes_of(slot_contents(slots)) == slot_schemes(slots),
        attachment::total_words(slot_contents(slots)) == slots.len(),
{
    lemma_decoded_slots(attachments, slots);
    let contents = slot_contents(slots);
    assert forall|i: int| 0 <= i < slots.len() implies {
        &&& attachment::attachment_commitment(#[trigger] contents[i]) == slots[i].commitment
        &&& contents[i].scheme == slots[i].scheme
        &&& contents[i].words.len() == 1
    } by {
        assert(slots[i].content is Some);
    }
    assert(attachment::commitments_to(contents) =~= slot_commitments(slots));
    assert(attachment::schemes_of(contents) =~= slot_schemes(slots));
    lemma_single_words(contents);
}

/// The report that comes with reconstructed metadata determines the attachments commitment of that
/// metadata, whichever variant it is.
pub proof fn law_report_matches_metadata(value: NoteSyncMetadata)
    ensures
        decoded_metadata(value) matches Ok(decoded) ==> decoded.attachments.commitment()
            == decoded.metadata.attachments_commitment,
{
    if decoded_metadata(value) is Ok {
        let slots = decoded_slots(value.attachments@)->Ok_0;
        if all_contents(slots) {
            lemma_contents(value.attachments@, slots);
        }
    }
}

/// Whether every slot has its content, with one slot more.
proof fn lemma_all_contents_push(slots: Seq<SlotView>, slot: SlotView)
    ensures
        all_contents(slots.push(slot)) <==> all_contents(slots) && slot.content is Some,
{
    if all_contents(slots.push(slot)) {
        assert forall|i: int| 0 <= i < slots.len() implies (#[trigger] slots[i]).content is Some by {
            assert(slots.push(slot)[i].content is Some);
        }
        assert(slots.push(slot)[slots.len() as int].content is Some);
    }
}

/// Attachments of a single word each have as many words as there are attachments.
proof fn lemma_single_words(attachments: Seq<NoteAttachmentView>)
    requires
        forall|i: int|
            0 <= i < attachments.len() ==> (#[trigger] attachments[i]).words.len() == 1,
    ensures
        attachment::total_words(attachments) == attachments.len(),
    decreases attachments.len(),
{
    if attachments.len() > 0 {
        lemma_single_words(attachments.drop_last());
    }
}

impl TryFrom<NoteSyncMetadata> for SyncNoteMetadata {
    type Error = RpcConversionError;

    fn try_from(value: NoteSyncMetadata) -> (r: Result<SyncNoteMetadata, RpcConversionError>)
        ensures
            errors::result_view(r) == decoded_metadata(value),
    {
        let sender = match value.sender {
            Some(Ok(sender)) => sender,
            Some(Err(err)) => return Err(RpcConversionError::Undecodable(err)),
            None => return Err(
                RpcConversionError::MissingFieldInProtobufRepresentation {
                    entity: "NoteSyncMetadata",
                    field_name: "sender",
                },
            ),
        };
        match note_version_from_proto(value.version) {
            Ok(_) => {},
            Err(err) => return Err(err),
        }
        let note_type = match note_type_from_proto(value.note_type) {
            Ok(note_type) => note_type,
            Err(err) => return Err(err),
        };
        let tag = NoteTag::new(value.tag);
        let partial = PartialNoteMetadata::new(sender, note_type).with_tag(tag);

        if value.attachments.len() > attachment::MAX_COUNT {
            let mut message = String::from_str("attachments length ");
            text::append_nat(&mut message, value.attachments.len() as u64);
            message.append(" exceeds NoteAttachments::MAX_COUNT");
            return Err(RpcConversionError::InvalidField(message));
        }

        let ghost slot_seq = slot_results(value.attachments@);
        let ghost mut slots: Seq<SlotView> = Seq::empty();
        let mut attachment_headers = [NoteAttachmentHeader::absent(); attachment::MAX_COUNT];
        let mut commitments: Vec<Word> = Vec::new();
        // Stays `Some` until an attachment arrives as a commitment only, since the content can be
        // rebuilt only as a whole set.
        let mut contents: Option<Vec<NoteAttachment>> = Some(Vec::new());
        let mut slot: usize = 0;
        proof {
            assert(slot_seq.take(0) =~= Seq::empty());
            assert(metadata::header_views(attachment_headers@) =~= attachment::headers_of(
                slot_schemes(slots),
            ));
            assert(attachment::word_views(commitments@) =~= slot_commitments(slots));
            assert(attachment::attachment_views(contents->0@) =~= slot_contents(slots));
        }
        #[verifier::loop_isolation(false)]
        while slot < value.attachments.len()
            invariant
                slot <= value.attachments@.len() <= attachment::MAX_COUNT,
                slot_seq == slot_results(value.attachments@),
                results::collected(slot_seq.take(slot as int)) == Ok::<_, RpcConversionErrorView>(
                    slots,
                ),
                slots.len() == slot,
                metadata::header_views(attachment_headers@) == attachment::headers_of(
                    slot_schemes(slots),
                ),
                attachment::word_views(commitments@) == slot_commitments(slots),
                contents is Some <==> all_contents(slots),
                contents matches Some(list) ==> attachment::attachment_views(list@)
                    == slot_contents(slots),
            decreases value.attachments.len() - slot,
        {
            proof {
                results::lemma_collected_push(slot_seq.take(slot as int), slot_seq[slot as int]);
                assert(slot_seq.take(slot + 1) =~= slot_seq.take(slot as int).push(
                    slot_seq[slot as int],
                ));
            }
            let decoded = match decode_slot(slot, &value.attachments[slot]) {
                Ok(decoded) => decoded,
                Err(err) => {
                    proof {
                        results::lemma_collected_prefix_err(slot_seq, slot + 1);
                    }
                    return Err(err);
                },
            };
            let ghost before = slots;
            let ghost headers_before = metadata::header_views(attachment_headers@);
            proof {
                slots = slots.push(decoded@);
            }
            attachment_headers[slot] = NoteAttachmentHeader::new(decoded.scheme);
            assert(metadata::header_views(attachment_headers@) =~= headers_before.update(
                slot as int,
                Some(decoded@.scheme),
            ));
            assert(metadata::header_views(attachment_headers@) =~= attachment::headers_of(
                slot_schemes(slots),
            ));
            let ghost commitments_before = attachment::word_views(commitments@);
            commitments.push(decoded.commitment);
            proof {
                assert(attachment::word_views(commitments@) =~= commitments_before.push(
                    decoded@.commitment,
                ));
                assert(slot_commitments(slots) =~= slot_commitments(before).push(
                    decoded@.commitment,
                ));
                lemma_all_contents_push(before, decoded@);
            }
            contents = match (contents, decoded.content) {
                (Some(mut list), Some(content)) => {
                    let ghost list_before = attachment::attachment_views(list@);
                    list.push(content);
                    proof {
                        assert(attachment::attachment_views(list@) =~= list_before.push(content@));
                        assert(slot_contents(slots) =~= slot_contents(before).push(content@));
                    }
                    Some(list)
                },
                _ => None,
            };
            slot = slot + 1;
        }
        assert(slot_seq.take(slot as int) =~= slot_seq);

        let attachments = match contents {
            Some(contents) => {
                proof {
                    lemma_contents(value.attachments@, slots);
                }
                match NoteAttachments::new(contents) {
                    Ok(attachments) => ReportedAttachments::Full(attachments),
                    Err(_) => vstd::pervasive::unreached(),
                }
            },
            None => ReportedAttachments::Commitments(commitments),
        };
        let commitment = attachments.to_commitment();
        Ok(
            SyncNoteMetadata {
                metadata: NoteMetadata::from_parts(partial, attachment_headers, commitment),
                attachments,
            },
        )
    }
}

impl vstd::std_specs::convert::TryFromSpecImpl<NoteSyncMetadata> for SyncNoteMetadata {
    open spec fn obeys_try_from_spec() -> bool {
        false
    }

    open spec fn try_from_spec(value: NoteSyncMetadata) -> Result<
        SyncNoteMetadata,
        RpcConversionError,
    > {
        arbitrary()
    }
}

/// A report is viewed as the attachments or the commitments that it holds. It gives the attachments
/// back where it holds them, and determines the commitment either way.
pub proof fn law_report_view(report: ReportedAttachments, decoded: SyncNoteMetadata)
    ensures
        report matches ReportedAttachments::Full(attachments) ==> report@
            == ReportedAttachmentsView::Full(attachments@) && report@.content() == Some(
            attachments@,
        ) && report@.commitment() == attachment::attachments_commitment(attachments@),
        report matches ReportedAttachments::Commitments(commitments) ==> report@
            == ReportedAttachmentsView::Commitments(attachment::word_views(commitments@))
            && report@.content() is None && report@.commitment() == protocol::poseidon2(
            attachment::word_views(commitments@).flatten(),
        ),
        decoded@.metadata == decoded.metadata@,
        decoded@.attachments == decoded.attachments@,
{
}

} // verus!
