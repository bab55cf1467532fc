//! URL construction and the fixed authentication header.

use sda_adapter::client::{HttpMethod, SdaClient};
use sda_adapter::model::{ListCollectionsArgs, MetadataLanguage};

#[test]
fn test_update_subject_url_construction() {
    let client = SdaClient::new(
        "https://api.example.com".to_string(),
        "test-key".to_string(),
    );
    let id: i32 = 42;
    let expected_url = "https://api.example.com/api/v1/metadata-subjects/42";

    let constructed_url = format!("{}/api/v1/metadata-subjects/{}", client.base_url, id);
    assert_eq!(constructed_url, expected_url);
}

#[test]
fn test_auth_header_format() {
    let client = SdaClient::new(
        "https://api.example.com".to_string(),
        "my-api-key".to_string(),
    );
    let (header_name, header_value) = client.auth_header();

    assert_eq!(header_name, "x-api-key");
    assert_eq!(header_value, "my-api-key");
}

#[test]
fn test_collection_url_construction() {
    let client = SdaClient::new(
        "https://api.example.com".to_string(),
        "test-key".to_string(),
    );
    let id: i32 = 123;
    let expected_url = "https://api.example.com/api/v1/collections/123";

    let constructed_url = format!("{}/api/v1/collections/{}", client.base_url, id);
    assert_eq!(constructed_url, expected_url);
}

#[test]
fn test_planned_urls_resolve_path_parameters() {
    let client = SdaClient::new(
        "https://api.example.com".to_string(),
        "test-key".to_string(),
    );

    let plan = client.get_accession_request(7);
    assert_eq!(plan.method, HttpMethod::Get);
    assert_eq!(plan.url, "https://api.example.com/api/v1/accessions/7");

    let plan = client.get_private_accession_request(-3);
    assert_eq!(plan.url, "https://api.example.com/api/v1/accessions/private/-3");

    let plan = client.get_subject_request(42, MetadataLanguage::English);
    assert_eq!(plan.url, "https://api.example.com/api/v1/metadata-subjects/42");
    let expected: Vec<(&str, String)> = vec![("lang", "english".to_string())];
    assert_eq!(plan.query, expected);

    let plan = client.get_collection_request(123, MetadataLanguage::Unspecified);
    assert_eq!(plan.url, "https://api.example.com/api/v1/collections/123");
    assert!(plan.query.is_empty());
}

#[test]
fn test_list_collections_plan() {
    let client = SdaClient::new(
        "https://api.example.com".to_string(),
        "test-key".to_string(),
    );
    let mut args = ListCollectionsArgs::default();
    args.page = 4;
    args.lang = MetadataLanguage::Arabic;

    let plan = client.list_collections_request(args);
    assert_eq!(plan.method, HttpMethod::Get);
    assert_eq!(plan.url, "https://api.example.com/api/v1/collections");
    let expected: Vec<(&str, String)> = vec![
        ("page", "4".to_string()),
        ("lang", "arabic".to_string()),
    ];
    assert_eq!(plan.query, expected);
    assert!(plan.body.is_none());
}

#[test]
fn test_subjects_fallback_language_on_wire() {
    let client = SdaClient::new(
        "https://api.example.com".to_string(),
        "test-key".to_string(),
    );

    let plan = client.list_subjects_request(MetadataLanguage::Unspecified, None, None);
    let expected: Vec<(&str, String)> = vec![("lang", "english".to_string())];
    assert_eq!(plan.query, expected);

    let plan = client.list_subjects_request(MetadataLanguage::Arabic, Some(2), Some(10));
    let expected: Vec<(&str, String)> = vec![
        ("page", "2".to_string()),
        ("per_page", "10".to_string()),
        ("lang", "arabic".to_string()),
    ];
    assert_eq!(plan.query, expected);
}
