//! The contract that every DID method meets.

use vstd::prelude::*;
use std::sync::Arc;
use crate::bearer::is_did_of_method;
use crate::bearer::BearerDid;
use crate::key_manager::KeyManager;
pub use crate::resolution::ResolutionResult;

pub mod web;

verus! {

/// Why a DID could not be created.
#[derive(Debug, Clone, PartialEq, Eq)]
pub enum MethodError {
    /// The method does not create DIDs, or it tried and failed. The text says which,
    /// for a human reader.
    DidCreationFailure(String),
}

/// The explanation with which the method called `name` refuses to create a DID.
pub open spec fn creation_refusal(name: Seq<char>) -> Seq<char> {
    "create operation not supported for did:"@ + name
}

/// A DID method: a way to create DIDs and to resolve them.
///
/// `T` holds what the method needs to know in order to create a DID. A method has no
/// state of its own, so its operations take no `self`.
pub trait Method<T> {
    /// The name of the method: the second segment of every DID it handles. A caller
    /// picks the method for a DID by comparing that segment with this name.
    const NAME: &'static str;

    /// What the method's resolver returns for a lookup.
    type ResolverOutput;

    /// Whether the method creates DIDs at all: it does, unless the method says
    /// otherwise. The DIDs of some methods come into being elsewhere: whoever controls
    /// a web domain has its DID.
    open spec fn supports_creation() -> bool {
        true
    }

    /// Creates a DID whose keys `key_manager` holds.
    ///
    /// A method that does not create DIDs refuses, whatever the options, and always
    /// with the same words, which name the method. A DID that was created is a DID of
    /// this method, and is bound to the key manager given: the same one, not a copy.
    fn create<K: KeyManager + ?Sized>(key_manager: Arc<K>, options: T) -> (result: Result<
        BearerDid<K>,
        MethodError,
    >)
        ensures
            !Self::supports_creation() ==> (result matches Err(
                MethodError::DidCreationFailure(message),
            ) && message@ == creation_refusal(Self::NAME@)),
            result matches Ok(did) ==> did.key_manager == key_manager,
            result matches Ok(did) ==> did.method@ == Self::NAME@,
            result matches Ok(did) ==> is_did_of_method(did.uri@, Self::NAME@),
    ;

    /// Turns what the resolver returned into the outcome of the resolution.
    ///
    /// Every answer of the resolver has an outcome, and the outcome holds a document or
    /// an error code, never both and never neither.
    fn resolve(output: Self::ResolverOutput) -> (result: ResolutionResult)
        ensures
            result.is_well_formed(),
    ;
}

} // verus!
