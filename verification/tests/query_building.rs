//! Query building and normalization behaviour.

use sda_adapter::client::SdaClient;
use sda_adapter::model::{ListAccessionsArgs, ListCollectionsArgs, ListPrivateCollectionsArgs, ListSubjectsArgs, MetadataLanguage};
use sda_adapter::query::{denormalize_accession_args, denormalize_subjects_args, normalize_accession_args, normalize_subjects_args};

#[test]
fn test_build_accession_query_with_empty_args() {
    let client = SdaClient::new(
        "https://api.example.com".to_string(),
        "test-key".to_string(),
    );
    let args = ListAccessionsArgs::default();

    let result = client.build_accession_query(args).unwrap();
    assert!(
        result.is_empty(),
        "Empty args should produce empty query vector"
    );
}

#[test]
fn test_build_accession_query_with_pagination() {
    let client = SdaClient::new(
        "https://api.example.com".to_string(),
        "test-key".to_string(),
    );
    let mut args = ListAccessionsArgs::default();
    args.page = 2;
    args.per_page = 25;

    let result = client.build_accession_query(args).unwrap();
    assert_eq!(result.len(), 2);

    let page_param = result.iter().find(|(key, _)| *key == "page");
    let per_page_param = result.iter().find(|(key, _)| *key == "per_page");

    assert!(page_param.is_some());
    assert_eq!(page_param.unwrap().1, "2");
    assert!(per_page_param.is_some());
    assert_eq!(per_page_param.unwrap().1, "25");
}

#[test]
fn test_pagination_params_in_declaration_order() {
    let client = SdaClient::new(
        "https://api.example.com".to_string(),
        "test-key".to_string(),
    );
    let mut args = ListAccessionsArgs::default();
    args.page = 2;
    args.per_page = 25;

    let result = client.build_accession_query(args).unwrap();
    assert_eq!(result[0].0, "page");
    assert_eq!(result[0].1, "2");
    assert_eq!(result[1].0, "per_page");
    assert_eq!(result[1].1, "25");
}

#[test]
fn test_build_accession_query_with_language_filter() {
    let client = SdaClient::new(
        "https://api.example.com".to_string(),
        "test-key".to_string(),
    );
    let mut args = ListAccessionsArgs::default();
    args.lang = MetadataLanguage::Arabic;

    let result = client.build_accession_query(args).unwrap();
    assert_eq!(result.len(), 1);

    let lang_param = result.iter().find(|(key, _)| *key == "lang");
    assert!(lang_param.is_some());
    assert_eq!(lang_param.unwrap().1, "arabic");
}

#[test]
fn test_build_accession_query_ignores_default_pagination() {
    let client = SdaClient::new(
        "https://api.example.com".to_string(),
        "test-key".to_string(),
    );
    let mut args = ListAccessionsArgs::default();
    args.page = -1;
    args.per_page = -1;
    args.lang = MetadataLanguage::English;

    let result = client.build_accession_query(args).unwrap();
    assert_eq!(result.len(), 1);

    let page_param = result.iter().find(|(key, _)| *key == "page");
    let per_page_param = result.iter().find(|(key, _)| *key == "per_page");

    assert!(page_param.is_none());
    assert!(per_page_param.is_none());
}

#[test]
fn test_build_accession_query_full_filters() {
    let client = SdaClient::new(
        "https://api.example.com".to_string(),
        "test-key".to_string(),
    );
    let mut args = ListAccessionsArgs::default();
    args.page = 1;
    args.per_page = 10;
    args.lang = MetadataLanguage::English;
    args.metadata_subjects = vec![4, 9];
    args.metadata_subjects_inclusive_filter = true;
    args.query_term = "khartoum".to_string();
    args.url_filter = "example.org".to_string();
    args.date_from = "2023-01-01".to_string();
    args.date_to = "2023-12-31".to_string();
    args.is_private = true;

    let result = client.build_accession_query(args).unwrap();
    let expected: Vec<(&str, String)> = vec![
        ("page", "1".to_string()),
        ("per_page", "10".to_string()),
        ("lang", "english".to_string()),
        ("metadata_subjects", "4".to_string()),
        ("metadata_subjects", "9".to_string()),
        ("metadata_subjects_inclusive_filter", "true".to_string()),
        ("query_term", "khartoum".to_string()),
        ("url_filter", "example.org".to_string()),
        ("date_from", "2023-01-01".to_string()),
        ("date_to", "2023-12-31".to_string()),
        ("is_private", "true".to_string()),
    ];
    assert_eq!(result, expected);
}

#[test]
fn test_list_collections_args_default() {
    let args = ListCollectionsArgs::default();

    assert_eq!(args.page, -1);
    assert_eq!(args.per_page, -1);
    assert_eq!(args.lang, MetadataLanguage::Unspecified);
}

#[test]
fn test_list_private_collections_args_default() {
    let args = ListPrivateCollectionsArgs::default();

    assert_eq!(args.page, -1);
    assert_eq!(args.per_page, -1);
    assert_eq!(args.lang, MetadataLanguage::Unspecified);
    assert_eq!(args.is_public, false);
}

#[test]
fn test_normalize_accessions_idempotent() {
    let mut args = ListAccessionsArgs::default();
    args.page = 3;
    args.query_term = "war".to_string();
    args.lang = MetadataLanguage::Arabic;

    let first = normalize_accession_args(args.clone());
    let canonical = denormalize_accession_args(first);
    let again = normalize_accession_args(canonical);
    let reference = normalize_accession_args(args);

    assert_eq!(again.page, reference.page);
    assert_eq!(again.per_page, reference.per_page);
    assert_eq!(again.lang, reference.lang);
    assert_eq!(again.metadata_subjects, reference.metadata_subjects);
    assert_eq!(
        again.metadata_subjects_inclusive_filter,
        reference.metadata_subjects_inclusive_filter
    );
    assert_eq!(again.query_term, reference.query_term);
    assert_eq!(again.url_filter, reference.url_filter);
    assert_eq!(again.date_from, reference.date_from);
    assert_eq!(again.date_to, reference.date_to);
    assert_eq!(again.is_private, reference.is_private);
}

#[test]
fn test_normalize_subjects_idempotent_with_fallback() {
    let args = ListSubjectsArgs { page: -1, per_page: 5, lang: MetadataLanguage::Unspecified };

    let first = normalize_subjects_args(args.clone());
    assert_eq!(first.lang, MetadataLanguage::English);
    assert_eq!(first.page, None);
    assert_eq!(first.per_page, Some(5));

    let canonical = denormalize_subjects_args(first);
    let again = normalize_subjects_args(canonical);
    assert_eq!(again.lang, MetadataLanguage::English);
    assert_eq!(again.page, None);
    assert_eq!(again.per_page, Some(5));
}

#[test]
fn test_private_collections_always_send_public_flag() {
    let client = SdaClient::new(
        "https://api.example.com".to_string(),
        "test-key".to_string(),
    );
    let plan = client.list_private_collections_request(ListPrivateCollectionsArgs::default());
    let expected: Vec<(&str, String)> = vec![("is_public", "false".to_string())];
    assert_eq!(plan.query, expected);
}
