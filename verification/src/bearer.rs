//! A DID together with the keys that control it.

use vstd::prelude::*;
use std::sync::Arc;
use crate::key_manager::KeyManager;

verus! {

/// Whether `uri` is a DID of the method called `name`: the text `did:`, the name, a
/// colon, and an identifier that is not empty.
pub open spec fn is_did_of_method(uri: Seq<char>, name: Seq<char>) -> bool {
    let prefix = "did:"@ + name + ":"@;
    uri.len() > prefix.len() && uri.subrange(0, prefix.len() as int) == prefix
}

/// A DID whose holder can act as its controller.
///
/// A `BearerDid` comes out of a successful [`Method::create`](crate::method::Method::create)
/// and out of nothing else here. The key manager is shared with whoever supplied it.
/// `K` is the kind of key manager, which may be `dyn KeyManager`.
pub struct BearerDid<K: KeyManager + ?Sized> {
    /// The DID, of the form `did:<method-name>:<method-specific-id>`.
    pub uri: String,
    /// The name of the method that created the DID.
    pub method: String,
    /// The key manager that holds the keys of the DID.
    pub key_manager: Arc<K>,
}

} // verus!
