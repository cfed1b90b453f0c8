//! The method layer of a decentralized-identity toolkit.
//!
//! A DID method creates and resolves identifiers of the form
//! `did:<method-name>:<method-specific-id>`. This crate holds the contract that every
//! method meets ([`method::Method`]), the value that a successful creation returns
//! ([`bearer::BearerDid`]), and the one envelope into which the output of every
//! resolver is normalized ([`resolution::ResolutionResult`]).
//!
//! The lookup behind a resolution (a network request, a storage read) is not done
//! here: a caller performs it and hands over what the resolver returned.

pub mod bearer;
pub mod document;
pub mod key_manager;
pub mod method;
pub mod resolution;
pub mod spruce;
pub mod text;
