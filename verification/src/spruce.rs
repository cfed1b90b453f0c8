//! Normalization of what a Spruce resolver returns.
//!
//! The resolvers of Spruce's `ssi` family answer with a triple: resolution metadata
//! that may name an error, a document that may be missing, and document metadata that
//! may be missing. The error is free text. A handful of values are registered names;
//! anything else is a message of the resolver's own making, such as the text of an
//! HTTP failure.

use vstd::prelude::*;
use crate::document::Document;
use crate::document::DocumentMetadata;
use crate::resolution::DidResolutionMetadata;
use crate::resolution::ResolutionError;
use crate::resolution::ResolutionResult;
use crate::text::text_eq;

verus! {

/// The resolution metadata of a resolver's answer, as the resolver wrote it.
#[derive(Debug, Clone, PartialEq, Eq)]
pub struct RawResolutionMetadata {
    /// The resolver's error value, where it reports a failure.
    pub error: Option<String>,
}

/// The answer of a resolver to one lookup.
#[derive(Debug, Clone, PartialEq, Eq)]
pub struct RawResolution {
    /// What the resolver reports about the lookup.
    pub resolution_metadata: RawResolutionMetadata,
    /// The document, where the resolver found one.
    pub document: Option<Document>,
    /// What the resolver knows of the document besides its contents.
    pub document_metadata: Option<DocumentMetadata>,
}

/// The code that stands for a resolver's error value.
///
/// The registered names map to the codes they name. Every other value, whatever it
/// says, is an internal error.
pub open spec fn canonical_error(raw: Seq<char>) -> ResolutionError {
    if raw == "invalidDid"@ {
        ResolutionError::InvalidDid
    } else if raw == "notFound"@ {
        ResolutionError::NotFound
    } else if raw == "representationNotSupported"@ {
        ResolutionError::RepresentationNotSupported
    } else if raw == "methodNotSupported"@ {
        ResolutionError::MethodNotSupported
    } else if raw == "invalidDidDocument"@ {
        ResolutionError::InvalidDidDocument
    } else if raw == "invalidDidDocumentLength"@ {
        ResolutionError::InvalidDidDocumentLength
    } else {
        ResolutionError::InternalError
    }
}

impl ResolutionError {
    /// The code that stands for the error value `raw` of a resolver.
    pub fn from_spruce(raw: &str) -> (code: Self)
        ensures
            code == canonical_error(raw@),
    {
        if text_eq(raw, "invalidDid") {
            ResolutionError::InvalidDid
        } else if text_eq(raw, "notFound") {
            ResolutionError::NotFound
        } else if text_eq(raw, "representationNotSupported") {
            ResolutionError::RepresentationNotSupported
        } else if text_eq(raw, "methodNotSupported") {
            ResolutionError::MethodNotSupported
        } else if text_eq(raw, "invalidDidDocument") {
            ResolutionError::InvalidDidDocument
        } else if text_eq(raw, "invalidDidDocumentLength") {
            ResolutionError::InvalidDidDocumentLength
        } else {
            ResolutionError::InternalError
        }
    }
}

impl ResolutionResult {
    /// What a resolver's answer amounts to.
    ///
    /// An error value makes the answer a failure, whether or not a document came with
    /// it. Without an error value, a document makes it a success. An answer with
    /// neither is malformed: it is no result, and counts as an internal error.
    pub open spec fn normalized(
        resolution_metadata: RawResolutionMetadata,
        document: Option<Document>,
        document_metadata: Option<DocumentMetadata>,
    ) -> Result<Self, ResolutionError> {
        match (resolution_metadata.error, document) {
            (Some(raw), _) => Ok(Self::failure(canonical_error(raw@))),
            (None, Some(doc)) => Ok(Self::success(doc, document_metadata)),
            (None, None) => Err(ResolutionError::InternalError),
        }
    }

    /// Normalizes the answer of a resolver.
    ///
    /// An error value wins: the result then has the code for it, no document and no
    /// document metadata, even where the answer carries them. Without an error value
    /// the result has the document and the metadata of the answer, and no code. The
    /// call fails exactly when the answer has neither an error value nor a document.
    pub fn from_spruce(
        resolution_metadata: RawResolutionMetadata,
        document: Option<Document>,
        document_metadata: Option<DocumentMetadata>,
    ) -> (result: Result<Self, ResolutionError>)
        ensures
            result == Self::normalized(resolution_metadata, document, document_metadata),
            resolution_metadata.error matches Some(raw) ==> (result matches Ok(r) && r
                == Self::failure(canonical_error(raw@))),
            document matches Some(doc) ==> (resolution_metadata.error is None ==> (
                result matches Ok(r) && r == Self::success(doc, document_metadata))),
            document is None && resolution_metadata.error is None ==> (result matches Err(e)
                && e == ResolutionError::InternalError),
            result matches Ok(r) ==> r.is_well_formed(),
    {
        match resolution_metadata.error {
            Some(raw) => Ok(Self::from_error(ResolutionError::from_spruce(raw.as_str()))),
            None => match document {
                Some(doc) => Ok(
                    ResolutionResult {
                        did_resolution_metadata: DidResolutionMetadata { error: None },
                        did_document: Some(doc),
                        did_document_metadata: document_metadata,
                    },
                ),
                None => Err(ResolutionError::InternalError),
            },
        }
    }
}

impl RawResolution {
    /// The outcome of the lookup: the answer normalized, or, where the answer is
    /// malformed, the failure that says so.
    pub open spec fn outcome(self) -> ResolutionResult {
        match ResolutionResult::normalized(
            self.resolution_metadata,
            self.document,
            self.document_metadata,
        ) {
            Ok(result) => result,
            Err(err) => ResolutionResult::failure(err),
        }
    }
}

/// A failure reads the same wherever it was noticed: an answer in which the resolver
/// reports an error has the outcome that the bare code for that error has, whatever
/// document or document metadata the answer carries besides.
pub proof fn lemma_error_paths_agree(err: ResolutionError, output: RawResolution)
    requires
        output.resolution_metadata.error matches Some(raw) && canonical_error(raw@) == err,
    ensures
        ResolutionResult::normalized(
            output.resolution_metadata,
            output.document,
            output.document_metadata,
        ) == Ok::<ResolutionResult, ResolutionError>(ResolutionResult::failure(err)),
        output.outcome() == ResolutionResult::failure(err),
{
}

/// Every answer has an outcome with a document or an error code, never both and never
/// neither. It has a document exactly when the answer reports no error and carries
/// one.
pub proof fn lemma_outcome_is_well_formed(output: RawResolution)
    ensures
        output.outcome().is_well_formed(),
        output.outcome().did_document is Some <==> output.resolution_metadata.error is None
            && output.document is Some,
{
}

} // verus!
