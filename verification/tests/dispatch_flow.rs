//! End-to-end dispatch scenarios, run up to the network boundary and back.

use sda_adapter::client::{HttpMethod, RequestBody, SdaClient};
use sda_adapter::dispatch::{
    confirmation_text, dispatch_context, lookup_tool, prepare_request, response_mode,
    send_context, server_context, tool_name, wrap_tool_error, ResponseMode, ToolCall, ToolKind,
};
use sda_adapter::model::{
    DeleteSubjectArgs, ListAccessionsArgs, MetadataLanguage, UpdateAccessionArgs,
    UpdateAccessionRequest,
};
use sda_adapter::response::{classify_response, transport_error, ErrorKind};

#[test]
fn test_list_accessions_no_arguments_end_to_end() {
    let client = SdaClient::new(
        "https://api.example.com".to_string(),
        "test-key".to_string(),
    );
    let plan = prepare_request(&client, ToolCall::ListAccessions(ListAccessionsArgs::default()));

    assert_eq!(plan.method, HttpMethod::Get);
    assert_eq!(plan.url, "https://api.example.com/api/v1/accessions");
    assert!(plan.query.is_empty());
    assert!(plan.body.is_none());
}

#[test]
fn test_delete_subject_end_to_end_confirmation() {
    let client = SdaClient::new(
        "https://api.example.com".to_string(),
        "test-key".to_string(),
    );
    let args = DeleteSubjectArgs { id: 7, lang: MetadataLanguage::English };
    let plan = prepare_request(&client, ToolCall::DeleteSubject(args));

    assert_eq!(plan.method, HttpMethod::Delete);
    assert_eq!(plan.url, "https://api.example.com/api/v1/metadata-subjects/7");
    assert!(plan.query.is_empty());
    match plan.body {
        Some(RequestBody::DeleteSubject(req)) => {
            assert_eq!(req.lang, MetadataLanguage::English)
        },
        _ => panic!("a subject deletion carries its language in the body"),
    }

    let classified = classify_response(
        Ok((200, String::new())),
        send_context(ToolKind::DeleteSubject),
        server_context(ToolKind::DeleteSubject),
    );
    assert_eq!(classified.unwrap(), "");
    assert_eq!(response_mode(ToolKind::DeleteSubject), ResponseMode::Confirmation);
    assert_eq!(
        confirmation_text(ToolKind::DeleteSubject),
        "Subject deleted successfully"
    );
}

#[test]
fn test_lookup_tool_by_name() {
    assert_eq!(lookup_tool("list_accessions"), Some(ToolKind::ListAccessions));
    assert_eq!(lookup_tool("delete_subject"), Some(ToolKind::DeleteSubject));
    assert_eq!(lookup_tool("create_accession_crawl"), Some(ToolKind::CreateAccessionCrawl));
    assert_eq!(lookup_tool("frobnicate"), None);
    assert_eq!(lookup_tool(""), None);
    assert_eq!(tool_name(ToolKind::UpdateSubject), "update_subject");
}

#[test]
fn test_response_modes() {
    assert_eq!(response_mode(ToolKind::ListAccessions), ResponseMode::Json);
    assert_eq!(response_mode(ToolKind::UpdateSubject), ResponseMode::Json);
    assert_eq!(response_mode(ToolKind::CreateAccessionCrawl), ResponseMode::Text);
    assert_eq!(response_mode(ToolKind::CreateSubject), ResponseMode::Text);
    assert_eq!(response_mode(ToolKind::DeleteSubject), ResponseMode::Confirmation);
}

#[test]
fn test_failure_wrapped_with_action_phrase() {
    let request = UpdateAccessionRequest {
        is_private: false,
        metadata_description: String::new(),
        metadata_language: MetadataLanguage::English,
        metadata_subjects: vec![],
        metadata_time: "2024".to_string(),
        metadata_title: "title".to_string(),
    };
    let call = ToolCall::UpdateAccession(UpdateAccessionArgs { id: 42, request });

    assert_eq!(dispatch_context(&call), "Failed to update accession with ID 42");

    let inner = transport_error("Failed to send update accession request", "broken pipe");
    let wrapped = wrap_tool_error(&call, inner);
    assert_eq!(wrapped.kind, ErrorKind::Transport);
    assert_eq!(wrapped.status, None);
    assert_eq!(
        wrapped.message,
        "Failed to update accession with ID 42: Failed to send update accession request: broken pipe"
    );
}

#[test]
fn test_update_accession_plan_carries_body() {
    let client = SdaClient::new(
        "https://api.example.com".to_string(),
        "test-key".to_string(),
    );
    let request = UpdateAccessionRequest {
        is_private: true,
        metadata_description: "d".to_string(),
        metadata_language: MetadataLanguage::Arabic,
        metadata_subjects: vec![1, 2],
        metadata_time: "2020".to_string(),
        metadata_title: "t".to_string(),
    };
    let call = ToolCall::UpdateAccession(UpdateAccessionArgs { id: 9, request });
    let plan = prepare_request(&client, call);

    assert_eq!(plan.method, HttpMethod::Put);
    assert_eq!(plan.url, "https://api.example.com/api/v1/accessions/9");
    assert!(plan.query.is_empty());
    match plan.body {
        Some(RequestBody::UpdateAccession(req)) => {
            assert_eq!(req.metadata_title, "t");
            assert_eq!(req.metadata_subjects, vec![1, 2]);
            assert!(req.is_private);
        },
        _ => panic!("an accession update carries its fields in the body"),
    }
}
