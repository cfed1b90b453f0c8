use dids::document::Document;
use dids::document::DocumentMetadata;
use dids::document::Jwk;
use dids::document::Service;
use dids::document::VerificationMethod;
use dids::document::VerificationMethodMap;
use dids::resolution::DidResolutionMetadata;
use dids::resolution::ResolutionError;
use dids::resolution::ResolutionResult;
use dids::spruce::RawResolutionMetadata;
use dids::text::text_eq;

fn rich_document() -> Document {
    let key = VerificationMethodMap {
        id: "did:web:example.com#key-0".to_string(),
        type_: "JsonWebKey2020".to_string(),
        controller: "did:web:example.com".to_string(),
        public_key_jwk: Some(Jwk {
            kty: "OKP".to_string(),
            kid: None,
            crv: Some("Ed25519".to_string()),
            x: Some("11qYAYKxCrfVS_7TyWQHOg7hcvPapiMlrwIaaPcHURo".to_string()),
            y: None,
            n: None,
            e: None,
        }),
        public_key_base58: None,
    };
    Document {
        id: "did:web:example.com".to_string(),
        also_known_as: Some(vec!["https://example.com/".to_string()]),
        controller: None,
        verification_method: Some(vec![VerificationMethod::Embedded(key)]),
        authentication: Some(vec![VerificationMethod::Reference(
            "did:web:example.com#key-0".to_string(),
        )]),
        assertion_method: None,
        key_agreement: None,
        capability_invocation: None,
        capability_delegation: None,
        service: Some(vec![Service {
            id: "did:web:example.com#pfi".to_string(),
            type_: vec!["PFI".to_string()],
            service_endpoint: vec!["https://example.com/pfi".to_string()],
        }]),
    }
}

fn metadata() -> DocumentMetadata {
    DocumentMetadata {
        created: Some("2023-05-01T12:00:00Z".to_string()),
        updated: Some("2024-02-29T08:30:00Z".to_string()),
        deactivated: None,
    }
}

fn reporting(error: &str) -> RawResolutionMetadata {
    RawResolutionMetadata { error: Some(error.to_string()) }
}

fn silent() -> RawResolutionMetadata {
    RawResolutionMetadata { error: None }
}

#[test]
fn registered_names_map_to_their_codes() {
    assert_eq!(ResolutionError::from_spruce("invalidDid"), ResolutionError::InvalidDid);
    assert_eq!(ResolutionError::from_spruce("notFound"), ResolutionError::NotFound);
    assert_eq!(
        ResolutionError::from_spruce("representationNotSupported"),
        ResolutionError::RepresentationNotSupported
    );
    assert_eq!(
        ResolutionError::from_spruce("methodNotSupported"),
        ResolutionError::MethodNotSupported
    );
    assert_eq!(
        ResolutionError::from_spruce("invalidDidDocument"),
        ResolutionError::InvalidDidDocument
    );
    assert_eq!(
        ResolutionError::from_spruce("invalidDidDocumentLength"),
        ResolutionError::InvalidDidDocumentLength
    );
}

#[test]
fn other_values_are_internal_errors() {
    let others = [
        "",
        "internalError",
        "unauthorized",
        "invalidDidUrl",
        "notfound",
        "NotFound",
        "notFound ",
        " notFound",
        "notFoun",
        "notFoundd",
        "invalidDidDocumentLengt",
        "JSON Error: expected value at line 1 column 1",
        "HTTP status client error (403 Forbidden) for url (https://example.com/.well-known/did.json)",
        "n\u{f6}tFound",
    ];
    for raw in others.iter() {
        assert_eq!(ResolutionError::from_spruce(raw), ResolutionError::InternalError);
    }
}

#[test]
fn from_error_has_the_code_and_nothing_else() {
    let codes = [
        ResolutionError::InvalidDid,
        ResolutionError::NotFound,
        ResolutionError::RepresentationNotSupported,
        ResolutionError::MethodNotSupported,
        ResolutionError::InvalidDidDocument,
        ResolutionError::InvalidDidDocumentLength,
        ResolutionError::InternalError,
    ];
    for code in codes.iter() {
        let result = ResolutionResult::from_error(*code);
        assert_eq!(
            result,
            ResolutionResult {
                did_resolution_metadata: DidResolutionMetadata { error: Some(*code) },
                did_document: None,
                did_document_metadata: None,
            }
        );
    }
}

#[test]
fn from_spruce_succeeds_on_a_document_without_an_error() {
    let result = ResolutionResult::from_spruce(silent(), Some(rich_document()), Some(metadata()));
    assert_eq!(
        result,
        Ok(ResolutionResult {
            did_resolution_metadata: DidResolutionMetadata { error: None },
            did_document: Some(rich_document()),
            did_document_metadata: Some(metadata()),
        })
    );

    let result = ResolutionResult::from_spruce(silent(), Some(rich_document()), None);
    assert_eq!(
        result,
        Ok(ResolutionResult {
            did_resolution_metadata: DidResolutionMetadata { error: None },
            did_document: Some(rich_document()),
            did_document_metadata: None,
        })
    );
}

#[test]
fn from_spruce_lets_the_error_win() {
    let expected = Ok(ResolutionResult {
        did_resolution_metadata: DidResolutionMetadata {
            error: Some(ResolutionError::RepresentationNotSupported),
        },
        did_document: None,
        did_document_metadata: None,
    });
    let raw = "representationNotSupported";
    assert_eq!(ResolutionResult::from_spruce(reporting(raw), None, None), expected);
    assert_eq!(ResolutionResult::from_spruce(reporting(raw), None, Some(metadata())), expected);
    assert_eq!(ResolutionResult::from_spruce(reporting(raw), Some(rich_document()), None), expected);
    assert_eq!(
        ResolutionResult::from_spruce(reporting(raw), Some(rich_document()), Some(metadata())),
        expected
    );
}

#[test]
fn from_spruce_fails_on_an_answer_with_neither() {
    assert_eq!(
        ResolutionResult::from_spruce(silent(), None, None),
        Err(ResolutionError::InternalError)
    );
    assert_eq!(
        ResolutionResult::from_spruce(silent(), None, Some(metadata())),
        Err(ResolutionError::InternalError)
    );
}

#[test]
fn a_bare_error_and_a_reported_error_read_the_same() {
    let pairs = [
        ("invalidDid", ResolutionError::InvalidDid),
        ("notFound", ResolutionError::NotFound),
        ("representationNotSupported", ResolutionError::RepresentationNotSupported),
        ("methodNotSupported", ResolutionError::MethodNotSupported),
        ("invalidDidDocument", ResolutionError::InvalidDidDocument),
        ("invalidDidDocumentLength", ResolutionError::InvalidDidDocumentLength),
        ("Error building HTTP client: boom", ResolutionError::InternalError),
    ];
    for (raw, code) in pairs.iter() {
        let bare = ResolutionResult::from_error(*code);
        let reported =
            ResolutionResult::from_spruce(reporting(raw), Some(rich_document()), Some(metadata()));
        assert_eq!(reported, Ok(bare));
    }
}

#[test]
fn text_eq_compares_whole_texts() {
    assert!(text_eq("", ""));
    assert!(text_eq("notFound", "notFound"));
    assert!(text_eq("d\u{e9}j\u{e0} vu", "d\u{e9}j\u{e0} vu"));
    assert!(!text_eq("", "a"));
    assert!(!text_eq("a", ""));
    assert!(!text_eq("notFound", "notfound"));
    assert!(!text_eq("notFound", "notFoundd"));
    assert!(!text_eq("abc", "abd"));
    assert!(!text_eq("\u{e9}", "e"));
    assert!(!text_eq("\u{e9}", "\u{e8}"));
}
