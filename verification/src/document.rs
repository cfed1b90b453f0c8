//! The DID document and the metadata that goes with it.
//!
//! These types hold a resolved document as plain values. Nothing in this crate looks
//! inside a document beyond carrying it: a document that a resolver returned is handed
//! on as it came.

use vstd::prelude::*;

verus! {

/// A public key as a JSON Web Key. The numbers of a key are held as base64url text,
/// as they stand in JSON. What a kind of key does not have is `None`.
#[derive(Debug, Clone, PartialEq, Eq)]
pub struct Jwk {
    /// The kind of key: `EC`, `OKP` or `RSA`.
    pub kty: String,
    /// The identifier of the key.
    pub kid: Option<String>,
    /// The curve of an elliptic-curve or octet key.
    pub crv: Option<String>,
    /// The x coordinate of an elliptic-curve key, or the whole of an octet key.
    pub x: Option<String>,
    /// The y coordinate of an elliptic-curve key.
    pub y: Option<String>,
    /// The modulus of an RSA key.
    pub n: Option<String>,
    /// The exponent of an RSA key.
    pub e: Option<String>,
}

/// The public key material and the properties of one verification method.
#[derive(Debug, Clone, PartialEq, Eq)]
pub struct VerificationMethodMap {
    /// The DID URL that names the method.
    pub id: String,
    /// The kind of the method, such as `JsonWebKey2020`.
    pub type_: String,
    /// The DID of the party that controls the key.
    pub controller: String,
    /// The public key as a JSON Web Key, where it is given in that form.
    pub public_key_jwk: Option<Jwk>,
    /// The public key in Base58, where it is given in that form.
    pub public_key_base58: Option<String>,
}

/// A verification method as it stands in a document: written out, or named by its URL.
#[derive(Debug, Clone, PartialEq, Eq)]
pub enum VerificationMethod {
    /// The DID URL of a method that is written out elsewhere.
    Reference(String),
    /// A method written out in place.
    Embedded(VerificationMethodMap),
}

/// A way of communicating with the subject of a DID.
#[derive(Debug, Clone, PartialEq, Eq)]
pub struct Service {
    /// The URI that names the service.
    pub id: String,
    /// The kinds of the service.
    pub type_: Vec<String>,
    /// The endpoints of the service: a URI each, or the JSON text of a map.
    pub service_endpoint: Vec<String>,
}

/// A DID document: the public keys and the services of the subject of a DID.
///
/// A property that the document leaves out is `None`.
#[derive(Debug, Clone, PartialEq, Eq)]
pub struct Document {
    /// The DID that the document describes.
    pub id: String,
    /// Other identifiers of the same subject.
    pub also_known_as: Option<Vec<String>>,
    /// The DIDs of the parties that may change the document.
    pub controller: Option<Vec<String>>,
    /// The verification methods of the subject.
    pub verification_method: Option<Vec<VerificationMethod>>,
    /// The methods by which the subject authenticates.
    pub authentication: Option<Vec<VerificationMethod>>,
    /// The methods by which the subject issues claims.
    pub assertion_method: Option<Vec<VerificationMethod>>,
    /// The methods by which a party encrypts for the subject.
    pub key_agreement: Option<Vec<VerificationMethod>>,
    /// The methods by which the subject invokes a capability.
    pub capability_invocation: Option<Vec<VerificationMethod>>,
    /// The methods by which the subject delegates a capability.
    pub capability_delegation: Option<Vec<VerificationMethod>>,
    /// The services of the subject.
    pub service: Option<Vec<Service>>,
}

/// What a resolver knows of a document besides its contents.
#[derive(Debug, Clone, PartialEq, Eq)]
pub struct DocumentMetadata {
    /// When the document was created, as an RFC 3339 timestamp.
    pub created: Option<String>,
    /// When the document was last changed, as an RFC 3339 timestamp.
    pub updated: Option<String>,
    /// Whether the DID has been deactivated.
    pub deactivated: Option<bool>,
}

} // verus!
