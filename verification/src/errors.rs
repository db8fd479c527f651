//! The errors of the library.

use vstd::prelude::*;

verus! {

/// A part of a message could not be decoded into the value that it stands for. It is viewed as
/// its text.
#[derive(Debug)]
pub struct ConversionError {
    /// What was wrong with the part.
    pub message: String,
}

impl View for ConversionError {
    type V = Seq<char>;

    open spec fn view(&self) -> Seq<char> {
        self.message@
    }
}

impl Clone for ConversionError {
    fn clone(&self) -> (r: ConversionError)
        ensures
            r@ == self@,
    {
        ConversionError { message: self.message.clone() }
    }
}

/// A message of the node does not stand for a value of the library.
#[derive(Debug)]
pub enum RpcConversionError {
    /// A field of the message holds a value that it must not hold.
    InvalidField(String),
    /// A field that must be set is not.
    MissingFieldInProtobufRepresentation {
        /// The message that the field belongs to.
        entity: &'static str,
        /// The name of the field.
        field_name: &'static str,
    },
    /// A field of the message could not be decoded.
    Undecodable(ConversionError),
}

/// [`RpcConversionError`], with texts as sequences of characters.
pub enum RpcConversionErrorView {
    InvalidField(Seq<char>),
    MissingFieldInProtobufRepresentation { entity: Seq<char>, field_name: Seq<char> },
    Undecodable(Seq<char>),
}

impl View for RpcConversionError {
    type V = RpcConversionErrorView;

    open spec fn view(&self) -> RpcConversionErrorView {
        match *self {
            RpcConversionError::InvalidField(text) => RpcConversionErrorView::InvalidField(text@),
            RpcConversionError::MissingFieldInProtobufRepresentation { entity, field_name } =>
                missing_field(entity@, field_name@),
            RpcConversionError::Undecodable(err) => RpcConversionErrorView::Undecodable(err@),
        }
    }
}

/// The error of a message `entity` whose field `field_name` is not set.
pub open spec fn missing_field(
    entity: Seq<char>,
    field_name: Seq<char>,
) -> RpcConversionErrorView {
    RpcConversionErrorView::MissingFieldInProtobufRepresentation { entity, field_name }
}

/// What can go wrong in a call to the node.
#[derive(Debug)]
pub enum RpcError {
    /// The node's answers do not fit together.
    InvalidResponse(String),
    /// The node's answer does not stand for a value of the library.
    Conversion(RpcConversionError),
}

/// [`RpcError`], with texts as sequences of characters.
pub enum RpcErrorView {
    InvalidResponse(Seq<char>),
    Conversion(RpcConversionErrorView),
}

impl View for RpcError {
    type V = RpcErrorView;

    open spec fn view(&self) -> RpcErrorView {
        match *self {
            RpcError::InvalidResponse(text) => RpcErrorView::InvalidResponse(text@),
            RpcError::Conversion(err) => RpcErrorView::Conversion(err@),
        }
    }
}

impl From<RpcConversionError> for RpcError {
    fn from(err: RpcConversionError) -> (r: RpcError) {
        RpcError::Conversion(err)
    }
}

impl vstd::std_specs::convert::FromSpecImpl<RpcConversionError> for RpcError {
    open spec fn obeys_from_spec() -> bool {
        true
    }

    open spec fn from_spec(err: RpcConversionError) -> RpcError {
        RpcError::Conversion(err)
    }
}

/// Attachments that a note cannot have.
#[derive(Debug, Clone, Copy, PartialEq, Eq)]
pub enum NoteError {
    /// An attachment without a word.
    NoteAttachmentContentEmpty,
    /// An attachment with too many words, and how many it has.
    NoteAttachmentContentTooManyWords(usize),
    /// Too many attachments, and how many there are.
    TooManyAttachments(usize),
    /// Attachments with too many words between them, and how many they have.
    NoteAttachmentsTooManyWords(usize),
}

/// A result, with the value and the error as their views.
pub open spec fn result_view<T: View, E: View>(result: Result<T, E>) -> Result<T::V, E::V> {
    match result {
        Ok(value) => Ok(value@),
        Err(err) => Err(err@),
    }
}

/// The view of an error keeps its variant and its texts.
pub proof fn law_errors_are_told_apart(err: RpcConversionError)
    ensures
        err matches RpcConversionError::InvalidField(text) ==> (err@ matches
            RpcConversionErrorView::InvalidField(t) && t == text@),
        err matches RpcConversionError::MissingFieldInProtobufRepresentation { entity, field_name }
            ==> (err@ matches RpcConversionErrorView::MissingFieldInProtobufRepresentation {
            entity: e,
            field_name: f,
        } && e == entity@ && f == field_name@),
        err matches RpcConversionError::Undecodable(part) ==> (err@ matches
            RpcConversionErrorView::Undecodable(t) && t == part.message@),
{
}

/// The view of an error of a call keeps its variant and what it carries.
pub proof fn law_call_errors_are_told_apart(err: RpcError)
    ensures
        err matches RpcError::InvalidResponse(text) ==> (err@ matches RpcErrorView::InvalidResponse(
            t,
        ) && t == text@),
        err matches RpcError::Conversion(conversion) ==> (err@ matches RpcErrorView::Conversion(c)
            && c == conversion@),
{
}

/// The view of a result keeps whether it is a success, and the value or the error.
pub proof fn law_results_are_told_apart<T: View, E: View>(result: Result<T, E>)
    ensures
        result matches Ok(value) ==> (result_view(result) matches Ok(v) && v == value@),
        result matches Err(err) ==> (result_view(result) matches Err(e) && e == err@),
{
}

} // verus!
