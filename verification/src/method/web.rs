//! The `did:web` method.
//!
//! A `did:web` DID names a web domain, and its document is a file on that domain's
//! server. Whoever controls the domain controls the DID: there is nothing to create.

use vstd::prelude::*;
use std::sync::Arc;
use crate::bearer::BearerDid;
use crate::key_manager::KeyManager;
use crate::method::creation_refusal;
use crate::method::Method;
use crate::method::MethodError;
use crate::resolution::ResolutionError;
use crate::resolution::ResolutionOptions;
use crate::resolution::ResolutionRequest;
use crate::resolution::ResolutionResult;
use crate::spruce::canonical_error;
use crate::spruce::RawResolution;

verus! {

/// The `did:web` method.
pub struct DidWeb {}

/// What `did:web` needs to know in order to create a DID: nothing, since it creates
/// none.
pub struct DidWebCreateOptions;

impl DidWeb {
    /// The lookup to make for `did_uri`: the DID as it was given, with no option set.
    pub fn resolution_request(did_uri: &str) -> (request: ResolutionRequest)
        ensures
            request.did_uri@ == did_uri@,
            request.options == ResolutionOptions::unset(),
    {
        ResolutionRequest { did_uri: did_uri.to_owned(), options: ResolutionOptions::default() }
    }
}

/// The name of the method is `web`, and it creates no DIDs.
pub proof fn lemma_did_web_is_named_web()
    ensures
        <DidWeb as Method<DidWebCreateOptions>>::NAME@ == "web"@,
        !<DidWeb as Method<DidWebCreateOptions>>::supports_creation(),
{
}

impl Method<DidWebCreateOptions> for DidWeb {
    const NAME: &'static str = "web";

    type ResolverOutput = RawResolution;

    open spec fn supports_creation() -> bool {
        false
    }

    /// Refuses: `did:web` creates no DID. The key manager is not touched.
    fn create<K: KeyManager + ?Sized>(
        key_manager: Arc<K>,
        options: DidWebCreateOptions,
    ) -> (result: Result<BearerDid<K>, MethodError>)
        ensures
            result matches Err(MethodError::DidCreationFailure(message)) && message@
                == "create operation not supported for did:web"@,
    {
        proof {
            reveal_strlit("create operation not supported for did:web");
            reveal_strlit("create operation not supported for did:");
            reveal_strlit("web");
            assert("create operation not supported for did:web"@ =~= creation_refusal("web"@));
        }
        Err(
            MethodError::DidCreationFailure(
                "create operation not supported for did:web".to_string(),
            ),
        )
    }

    /// Normalizes the resolver's answer. An answer that cannot be normalized becomes
    /// the result that reports the reason.
    ///
    /// An answer that reports an error is a failure with the code for that error,
    /// whatever else it carries. An answer that reports none and carries a document is
    /// a success with that document and its metadata. An answer with neither is an
    /// internal error.
    fn resolve(output: RawResolution) -> (result: ResolutionResult)
        ensures
            result == output.outcome(),
            output.resolution_metadata.error matches Some(raw) ==> result
                == ResolutionResult::failure(canonical_error(raw@)),
            output.document matches Some(document) ==> (output.resolution_metadata.error is None
                ==> result == ResolutionResult::success(document, output.document_metadata)),
            output.document is None && output.resolution_metadata.error is None ==> result
                == ResolutionResult::failure(ResolutionError::InternalError),
    {
        match ResolutionResult::from_spruce(
            output.resolution_metadata,
            output.document,
            output.document_metadata,
        ) {
            Ok(r) => r,
            Err(e) => ResolutionResult::from_error(e),
        }
    }
}

} // verus!
