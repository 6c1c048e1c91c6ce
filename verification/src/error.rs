//! The decode and fetch error taxonomy.
//!
//! Every decode step returns success-or-error explicitly; only true absence
//! of an optional field defaults to `None`/`Unknown`.  A field that is
//! present but malformed is always an error, never silently dropped.

use vstd::prelude::*;

verus! {

/// The logical field a decode error is about.
#[derive(Clone, Copy, Debug, PartialEq, Eq, Structural)]
pub enum FieldName {
    VersionField,
    AreaMax,
    NoteAreaMax,
    TracepointsPerPage,
    WaynodesMax,
    RelationmembersMax,
    ChangesetsLimit,
    NotesLimit,
    DefaultQueryLimit,
    MaximumQueryLimit,
    MaximumElements,
    TimeoutSeconds,
    StatusTriple,
    StatusDatabase,
    StatusApi,
    StatusGpx,
    Generator,
    Copyright,
    License,
    Attribution,
    DocumentVersion,
    DocumentTimestamp,
    DocumentError,
    ApiSection,
    NodeList,
    WayList,
    RelationList,
    TagList,
    NodeRefList,
    MemberList,
    TagKey,
    TagValue,
    NodeRefId,
    MemberType,
    MemberRef,
    MemberRole,
    NodeId,
    NodeLat,
    NodeLon,
    WayId,
    UserAttr,
    UidAttr,
    TimestampAttr,
    VisibleAttr,
    VersionAttr,
    ChangesetAttr,
}

/// What can go wrong between issuing the request and holding the typed
/// document.
///
/// - `Transport`: the request itself failed (connection, protocol).
/// - `HttpStatus`: the server answered with a non-success status; no body
///   is decoded in that case.
/// - `DecodeFailure`: the body was malformed at the generic tree level.
/// - `InvalidVersionShape`: the version field is present but none of its
///   three legal shapes.
/// - `InvalidVersionEntry`: the version field has a legal shape but one of
///   its entries does not decode as a string.
/// - `ShapeMismatch`: a field is present but not in any recognized shape.
/// - `MissingRequiredField`: a required sub-field is absent.
/// - `IncompleteStatusTriple`: a status object is missing one of its three
///   sub-service entries.
/// - `Other`: unclassified.
#[derive(Clone, Copy, Debug, PartialEq, Eq, Structural)]
pub enum Error {
    Transport,
    HttpStatus(u16),
    DecodeFailure,
    InvalidVersionShape,
    InvalidVersionEntry,
    ShapeMismatch(FieldName),
    MissingRequiredField(FieldName),
    IncompleteStatusTriple,
    Other,
}

/// The fixed description of each error kind.
pub open spec fn spec_message(e: Error) -> Seq<char> {
    match e {
        Error::Transport => "transport failure"@,
        Error::HttpStatus(_) => "unexpected HTTP status"@,
        Error::DecodeFailure => "malformed document body"@,
        Error::InvalidVersionShape => "unrecognized shape of the version field"@,
        Error::InvalidVersionEntry => "version entry is not a string"@,
        Error::ShapeMismatch(_) => "field present but not in a recognized shape"@,
        Error::MissingRequiredField(_) => "required sub-field is absent"@,
        Error::IncompleteStatusTriple => "status object is missing a sub-service entry"@,
        Error::Other => "unclassified error"@,
    }
}

impl Error {
    /// A short, fixed description of the error kind.
    pub fn message(&self) -> (r: &'static str)
        ensures
            r@ == spec_message(*self),
    {
        match self {
            Error::Transport => "transport failure",
            Error::HttpStatus(_) => "unexpected HTTP status",
            Error::DecodeFailure => "malformed document body",
            Error::InvalidVersionShape => "unrecognized shape of the version field",
            Error::InvalidVersionEntry => "version entry is not a string",
            Error::ShapeMismatch(_) => "field present but not in a recognized shape",
            Error::MissingRequiredField(_) => "required sub-field is absent",
            Error::IncompleteStatusTriple => "status object is missing a sub-service entry",
            Error::Other => "unclassified error",
        }
    }
}

} // verus!
