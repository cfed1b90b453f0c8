//! The canonical outcome of a resolution.
//!
//! Whatever method resolved a DID, and whatever its resolver returned, the caller
//! receives a [`ResolutionResult`]. A failure is data in that value, never a panic or
//! an `Err`: the result holds either a document or an error code, and never both.

use vstd::prelude::*;
use crate::document::Document;
use crate::document::DocumentMetadata;

verus! {

/// Why a resolution did not yield a document.
#[derive(Debug, Clone, Copy, PartialEq, Eq, Structural)]
pub enum ResolutionError {
    /// The DID is not valid, so that resolution could not begin.
    InvalidDid,
    /// No document was found for the DID.
    NotFound,
    /// The resolver cannot give the document in the representation asked for.
    RepresentationNotSupported,
    /// The resolver does not know the method of the DID.
    MethodNotSupported,
    /// A document was found, and it is not a conformant DID document.
    InvalidDidDocument,
    /// A document was found, and its size is outside what the method accepts.
    InvalidDidDocumentLength,
    /// Anything else that went wrong.
    InternalError,
}

/// The options of a lookup. An option that is not set is `None`, and the resolver then
/// does what it does by default.
#[derive(Debug, Clone, PartialEq, Eq)]
pub struct ResolutionOptions {
    /// The media type in which the caller wants the document.
    pub accept: Option<String>,
    /// The version of the document to look up.
    pub version_id: Option<String>,
    /// The moment at which the document to look up was current.
    pub version_time: Option<String>,
    /// Whether the resolver must not answer from a cache.
    pub no_cache: Option<bool>,
}

impl ResolutionOptions {
    /// The options with none set.
    pub open spec fn unset() -> Self {
        ResolutionOptions { accept: None, version_id: None, version_time: None, no_cache: None }
    }
}

impl Default for ResolutionOptions {
    /// The options with none set.
    fn default() -> (options: Self)
        ensures
            options == Self::unset(),
    {
        ResolutionOptions { accept: None, version_id: None, version_time: None, no_cache: None }
    }
}

/// A lookup for a resolver to make.
#[derive(Debug, Clone, PartialEq, Eq)]
pub struct ResolutionRequest {
    /// The DID to hand to the resolver.
    pub did_uri: String,
    /// The options to hand to the resolver.
    pub options: ResolutionOptions,
}

/// What a resolution reports about itself.
#[derive(Debug, Clone, PartialEq, Eq)]
pub struct DidResolutionMetadata {
    /// The error code, where the resolution failed.
    pub error: Option<ResolutionError>,
}

/// The outcome of resolving a DID.
#[derive(Debug, Clone, PartialEq, Eq)]
pub struct ResolutionResult {
    /// Carries the error code of a failed resolution.
    pub did_resolution_metadata: DidResolutionMetadata,
    /// The document, where the resolution succeeded.
    pub did_document: Option<Document>,
    /// What the resolver knows of the document besides its contents.
    pub did_document_metadata: Option<DocumentMetadata>,
}

impl ResolutionResult {
    /// Exactly one of the two holds: the result has a document, or it has an error code.
    pub open spec fn is_well_formed(&self) -> bool {
        self.did_document is Some <==> self.did_resolution_metadata.error is None
    }

    /// The result that reports `err`: the code, no document and no document metadata.
    pub open spec fn failure(err: ResolutionError) -> Self {
        ResolutionResult {
            did_resolution_metadata: DidResolutionMetadata { error: Some(err) },
            did_document: None,
            did_document_metadata: None,
        }
    }

    /// The result that carries `document`, with the metadata that came with it and no
    /// error code.
    pub open spec fn success(document: Document, metadata: Option<DocumentMetadata>) -> Self {
        ResolutionResult {
            did_resolution_metadata: DidResolutionMetadata { error: None },
            did_document: Some(document),
            did_document_metadata: metadata,
        }
    }

    /// Wraps a bare error, for a failure that is known before any resolver has answered.
    pub fn from_error(err: ResolutionError) -> (result: Self)
        ensures
            result == Self::failure(err),
            result.is_well_formed(),
    {
        ResolutionResult {
            did_resolution_metadata: DidResolutionMetadata { error: Some(err) },
            did_document: None,
            did_document_metadata: None,
        }
    }
}

} // verus!
