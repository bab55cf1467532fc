//! The tool dispatcher.
//!
//! One invocation runs a strictly linear pipeline: look the operation up,
//! normalize its arguments, build the request plan, have the transport
//! execute it, translate the raw result, and wrap any failure with the
//! operation's human-readable action phrase. Everything but the network
//! round trip and the JSON (de)serialization is decided here; the
//! surrounding binary performs those two steps and feeds their results back
//! into the translation functions.

use vstd::prelude::*;
use vstd::string::*;
use crate::client::{HttpMethod, RequestBody, RequestPlan, SdaClient};
use crate::model::{
    CreateAccessionCrawlArgs, CreateSubjectArgs, DeleteSubjectArgs, DeleteSubjectRequest, IdArgs,
    ListAccessionsArgs, ListSubjectsArgs, UpdateAccessionArgs, UpdateSubjectArgs,
};
use crate::numfmt::dec_int;
use crate::query::{
    accession_query_spec, normalize_accessions_spec, normalize_subjects_spec, pairs_view,
    subjects_query_spec,
};
use crate::response::{wrap_error, wrapped_message, SdaError};

verus! {

/// The named operations the dispatcher serves.
#[derive(Debug, Clone, Copy, PartialEq, Eq, Structural)]
pub enum ToolKind {
    /// List public accessions.
    ListAccessions,
    /// List private accessions.
    ListPrivateAccessions,
    /// Fetch one public accession.
    GetAccession,
    /// Fetch one private accession.
    GetPrivateAccession,
    /// Update an accession.
    UpdateAccession,
    /// Create an accession by crawling a URL.
    CreateAccessionCrawl,
    /// List metadata subjects.
    ListSubjects,
    /// Create a metadata subject.
    CreateSubject,
    /// Delete a metadata subject.
    DeleteSubject,
    /// Update a metadata subject.
    UpdateSubject,
}

/// One operation invocation: the operation together with its typed,
/// validated argument set.
#[derive(Debug, Clone)]
pub enum ToolCall {
    /// List public accessions.
    ListAccessions(ListAccessionsArgs),
    /// List private accessions.
    ListPrivateAccessions(ListAccessionsArgs),
    /// Fetch one public accession.
    GetAccession(IdArgs),
    /// Fetch one private accession.
    GetPrivateAccession(IdArgs),
    /// Update an accession.
    UpdateAccession(UpdateAccessionArgs),
    /// Create an accession by crawling a URL.
    CreateAccessionCrawl(CreateAccessionCrawlArgs),
    /// List metadata subjects.
    ListSubjects(ListSubjectsArgs),
    /// Create a metadata subject.
    CreateSubject(CreateSubjectArgs),
    /// Delete a metadata subject.
    DeleteSubject(DeleteSubjectArgs),
    /// Update a metadata subject.
    UpdateSubject(UpdateSubjectArgs),
}

impl ToolCall {
    /// The operation of this call.
    pub open spec fn kind_spec(&self) -> ToolKind {
        match self {
            ToolCall::ListAccessions(_) => ToolKind::ListAccessions,
            ToolCall::ListPrivateAccessions(_) => ToolKind::ListPrivateAccessions,
            ToolCall::GetAccession(_) => ToolKind::GetAccession,
            ToolCall::GetPrivateAccession(_) => ToolKind::GetPrivateAccession,
            ToolCall::UpdateAccession(_) => ToolKind::UpdateAccession,
            ToolCall::CreateAccessionCrawl(_) => ToolKind::CreateAccessionCrawl,
            ToolCall::ListSubjects(_) => ToolKind::ListSubjects,
            ToolCall::CreateSubject(_) => ToolKind::CreateSubject,
            ToolCall::DeleteSubject(_) => ToolKind::DeleteSubject,
            ToolCall::UpdateSubject(_) => ToolKind::UpdateSubject,
        }
    }

    /// The operation of this call.
    pub fn kind(&self) -> (k: ToolKind)
        ensures
            k == self.kind_spec(),
    {
        match self {
            ToolCall::ListAccessions(_) => ToolKind::ListAccessions,
            ToolCall::ListPrivateAccessions(_) => ToolKind::ListPrivateAccessions,
            ToolCall::GetAccession(_) => ToolKind::GetAccession,
            ToolCall::GetPrivateAccession(_) => ToolKind::GetPrivateAccession,
            ToolCall::UpdateAccession(_) => ToolKind::UpdateAccession,
            ToolCall::CreateAccessionCrawl(_) => ToolKind::CreateAccessionCrawl,
            ToolCall::ListSubjects(_) => ToolKind::ListSubjects,
            ToolCall::CreateSubject(_) => ToolKind::CreateSubject,
            ToolCall::DeleteSubject(_) => ToolKind::DeleteSubject,
            ToolCall::UpdateSubject(_) => ToolKind::UpdateSubject,
        }
    }
}

/// The wire name of an operation.
pub open spec fn tool_name_spec(k: ToolKind) -> Seq<char> {
    match k {
        ToolKind::ListAccessions => "list_accessions"@,
        ToolKind::ListPrivateAccessions => "list_private_accessions"@,
        ToolKind::GetAccession => "get_accession"@,
        ToolKind::GetPrivateAccession => "get_private_accession"@,
        ToolKind::UpdateAccession => "update_accession"@,
        ToolKind::CreateAccessionCrawl => "create_accession_crawl"@,
        ToolKind::ListSubjects => "list_subjects"@,
        ToolKind::CreateSubject => "create_subject"@,
        ToolKind::DeleteSubject => "delete_subject"@,
        ToolKind::UpdateSubject => "update_subject"@,
    }
}

/// The wire name of an operation.
pub fn tool_name(k: ToolKind) -> (r: &'static str)
    ensures
        r@ == tool_name_spec(k),
{
    match k {
        ToolKind::ListAccessions => "list_accessions",
        ToolKind::ListPrivateAccessions => "list_private_accessions",
        ToolKind::GetAccession => "get_accession",
        ToolKind::GetPrivateAccession => "get_private_accession",
        ToolKind::UpdateAccession => "update_accession",
        ToolKind::CreateAccessionCrawl => "create_accession_crawl",
        ToolKind::ListSubjects => "list_subjects",
        ToolKind::CreateSubject => "create_subject",
        ToolKind::DeleteSubject => "delete_subject",
        ToolKind::UpdateSubject => "update_subject",
    }
}

/// Tests two borrowed strings for equality.
fn str_eq(a: &str, b: &str) -> (r: bool)
    ensures
        r == (a@ == b@),
{
    let sa = String::from_str(a);
    let sb = String::from_str(b);
    sa == sb
}

/// Looks an operation up by its wire name. An unknown name maps to no
/// operation, which the dispatcher reports as a validation failure without
/// touching the network.
pub fn lookup_tool(name: &str) -> (r: Option<ToolKind>)
    ensures
        r matches Some(k) ==> name@ == tool_name_spec(k),
        r is None ==> forall|k: ToolKind| name@ != tool_name_spec(k),
{
    if str_eq(name, "list_accessions") {
        Option::Some(ToolKind::ListAccessions)
    } else if str_eq(name, "list_private_accessions") {
        Option::Some(ToolKind::ListPrivateAccessions)
    } else if str_eq(name, "get_accession") {
        Option::Some(ToolKind::GetAccession)
    } else if str_eq(name, "get_private_accession") {
        Option::Some(ToolKind::GetPrivateAccession)
    } else if str_eq(name, "update_accession") {
        Option::Some(ToolKind::UpdateAccession)
    } else if str_eq(name, "create_accession_crawl") {
        Option::Some(ToolKind::CreateAccessionCrawl)
    } else if str_eq(name, "list_subjects") {
        Option::Some(ToolKind::ListSubjects)
    } else if str_eq(name, "create_subject") {
        Option::Some(ToolKind::CreateSubject)
    } else if str_eq(name, "delete_subject") {
        Option::Some(ToolKind::DeleteSubject)
    } else if str_eq(name, "update_subject") {
        Option::Some(ToolKind::UpdateSubject)
    } else {
        Option::None
    }
}

/// How the success body of an operation is presented to the caller.
#[derive(Debug, Clone, Copy, PartialEq, Eq, Structural)]
pub enum ResponseMode {
    /// The body is parsed into the declared result shape and re-rendered.
    Json,
    /// The body is returned as raw text, unchanged.
    Text,
    /// The body is discarded and a fixed confirmation is returned.
    Confirmation,
}

/// The presentation of each operation's success body.
pub open spec fn response_mode_spec(k: ToolKind) -> ResponseMode {
    match k {
        ToolKind::CreateAccessionCrawl => ResponseMode::Text,
        ToolKind::CreateSubject => ResponseMode::Text,
        ToolKind::DeleteSubject => ResponseMode::Confirmation,
        _ => ResponseMode::Json,
    }
}

/// The presentation of each operation's success body.
pub fn response_mode(k: ToolKind) -> (r: ResponseMode)
    ensures
        r == response_mode_spec(k),
{
    match k {
        ToolKind::CreateAccessionCrawl => ResponseMode::Text,
        ToolKind::CreateSubject => ResponseMode::Text,
        ToolKind::DeleteSubject => ResponseMode::Confirmation,
        _ => ResponseMode::Json,
    }
}

/// The confirmation returned for an operation with no parsed body.
pub fn confirmation_text(k: ToolKind) -> (r: String)
    ensures
        k == ToolKind::DeleteSubject ==> r@ == "Subject deleted successfully"@,
        k != ToolKind::DeleteSubject ==> r@ == Seq::<char>::empty(),
{
    match k {
        ToolKind::DeleteSubject => String::from_str("Subject deleted successfully"),
        _ => String::new(),
    }
}

/// The context placed on a failure to hand the request to the transport.
pub fn send_context(k: ToolKind) -> (r: &'static str)
    ensures
        r@ == send_context_spec(k),
{
    match k {
        ToolKind::ListAccessions => "Failed to send list accessions request",
        ToolKind::ListPrivateAccessions => "Failed to send list private accessions request",
        ToolKind::GetAccession => "Failed to send get accession request",
        ToolKind::GetPrivateAccession => "Failed to send get private accession request",
        ToolKind::UpdateAccession => "Failed to send update accession request",
        ToolKind::CreateAccessionCrawl => "Failed to send create accession crawl request",
        ToolKind::ListSubjects => "Failed to send list subjects request",
        ToolKind::CreateSubject => "Failed to send create subject request",
        ToolKind::DeleteSubject => "Failed to send delete subject request",
        ToolKind::UpdateSubject => "Failed to send update subject request",
    }
}

/// The context placed on a failure to hand the request to the transport.
pub open spec fn send_context_spec(k: ToolKind) -> Seq<char> {
    match k {
        ToolKind::ListAccessions => "Failed to send list accessions request"@,
        ToolKind::ListPrivateAccessions => "Failed to send list private accessions request"@,
        ToolKind::GetAccession => "Failed to send get accession request"@,
        ToolKind::GetPrivateAccession => "Failed to send get private accession request"@,
        ToolKind::UpdateAccession => "Failed to send update accession request"@,
        ToolKind::CreateAccessionCrawl => "Failed to send create accession crawl request"@,
        ToolKind::ListSubjects => "Failed to send list subjects request"@,
        ToolKind::CreateSubject => "Failed to send create subject request"@,
        ToolKind::DeleteSubject => "Failed to send delete subject request"@,
        ToolKind::UpdateSubject => "Failed to send update subject request"@,
    }
}

/// The context placed on a non-success status from the server.
pub open spec fn server_context_spec(k: ToolKind) -> Seq<char> {
    match k {
        ToolKind::ListAccessions => "Server returned error for list accessions"@,
        ToolKind::ListPrivateAccessions => "Server returned error for list private accessions"@,
        ToolKind::GetAccession => "Server returned error for get accession"@,
        ToolKind::GetPrivateAccession => "Server returned error for get private accession"@,
        ToolKind::UpdateAccession => "Server returned error for update accession"@,
        ToolKind::CreateAccessionCrawl => "Server returned error for create accession crawl"@,
        ToolKind::ListSubjects => "Server returned error for list subjects"@,
        ToolKind::CreateSubject => "Server returned error for create subject"@,
        ToolKind::DeleteSubject => "Server returned error for delete subject"@,
        ToolKind::UpdateSubject => "Server returned error for update subject"@,
    }
}

/// The context placed on a non-success status from the server.
pub fn server_context(k: ToolKind) -> (r: &'static str)
    ensures
        r@ == server_context_spec(k),
{
    match k {
        ToolKind::ListAccessions => "Server returned error for list accessions",
        ToolKind::ListPrivateAccessions => "Server returned error for list private accessions",
        ToolKind::GetAccession => "Server returned error for get accession",
        ToolKind::GetPrivateAccession => "Server returned error for get private accession",
        ToolKind::UpdateAccession => "Server returned error for update accession",
        ToolKind::CreateAccessionCrawl => "Server returned error for create accession crawl",
        ToolKind::ListSubjects => "Server returned error for list subjects",
        ToolKind::CreateSubject => "Server returned error for create subject",
        ToolKind::DeleteSubject => "Server returned error for delete subject",
        ToolKind::UpdateSubject => "Server returned error for update subject",
    }
}

/// The context placed on a success body that did not match the expected
/// shape.
pub open spec fn parse_context_spec(k: ToolKind) -> Seq<char> {
    match k {
        ToolKind::ListAccessions => "Failed to parse list accessions response"@,
        ToolKind::ListPrivateAccessions => "Failed to parse list private accessions response"@,
        ToolKind::GetAccession => "Failed to parse get accession response"@,
        ToolKind::GetPrivateAccession => "Failed to parse get private accession response"@,
        ToolKind::UpdateAccession => "Failed to parse update accession response"@,
        ToolKind::CreateAccessionCrawl => "Failed to parse create accession crawl response text"@,
        ToolKind::ListSubjects => "Failed to parse list subjects response"@,
        ToolKind::CreateSubject => "Failed to parse create subject response text"@,
        ToolKind::DeleteSubject => "Failed to parse delete subject response"@,
        ToolKind::UpdateSubject => "Failed to parse update subject response"@,
    }
}

/// The context placed on a success body that did not match the expected
/// shape.
pub fn parse_context(k: ToolKind) -> (r: &'static str)
    ensures
        r@ == parse_context_spec(k),
{
    match k {
        ToolKind::ListAccessions => "Failed to parse list accessions response",
        ToolKind::ListPrivateAccessions => "Failed to parse list private accessions response",
        ToolKind::GetAccession => "Failed to parse get accession response",
        ToolKind::GetPrivateAccession => "Failed to parse get private accession response",
        ToolKind::UpdateAccession => "Failed to parse update accession response",
        ToolKind::CreateAccessionCrawl => "Failed to parse create accession crawl response text",
        ToolKind::ListSubjects => "Failed to parse list subjects response",
        ToolKind::CreateSubject => "Failed to parse create subject response text",
        ToolKind::DeleteSubject => "Failed to parse delete subject response",
        ToolKind::UpdateSubject => "Failed to parse update subject response",
    }
}

/// The human-readable action phrase placed on every failure at the
/// dispatcher boundary, carrying the numeric ID for the operations that
/// address one.
pub open spec fn dispatch_context_spec(call: ToolCall) -> Seq<char> {
    match call {
        ToolCall::ListAccessions(_) => "Failed to list accessions"@,
        ToolCall::ListPrivateAccessions(_) => "Failed to list private accessions"@,
        ToolCall::GetAccession(args) => "Failed to get accession with ID "@ + dec_int(
            args.id as int,
        ),
        ToolCall::GetPrivateAccession(args) => "Failed to get private accession with ID "@
            + dec_int(args.id as int),
        ToolCall::UpdateAccession(args) => "Failed to update accession with ID "@ + dec_int(
            args.id as int,
        ),
        ToolCall::CreateAccessionCrawl(_) => "Failed to create accession crawl"@,
        ToolCall::ListSubjects(_) => "Failed to list subjects"@,
        ToolCall::CreateSubject(_) => "Failed to create subject"@,
        ToolCall::DeleteSubject(args) => "Failed to delete subject with ID "@ + dec_int(
            args.id as int,
        ),
        ToolCall::UpdateSubject(args) => "Failed to update subject with ID "@ + dec_int(
            args.id as int,
        ),
    }
}

/// The human-readable action phrase of one call.
pub fn dispatch_context(call: &ToolCall) -> (r: String)
    ensures
        r@ == dispatch_context_spec(*call),
{
    match call {
        ToolCall::ListAccessions(_) => String::from_str("Failed to list accessions"),
        ToolCall::ListPrivateAccessions(_) => String::from_str("Failed to list private accessions"),
        ToolCall::GetAccession(args) => {
            let mut m = String::from_str("Failed to get accession with ID ");
            let s = crate::numfmt::i32_to_string(args.id);
            m.append(s.as_str());
            m
        },
        ToolCall::GetPrivateAccession(args) => {
            let mut m = String::from_str("Failed to get private accession with ID ");
            let s = crate::numfmt::i32_to_string(args.id);
            m.append(s.as_str());
            m
        },
        ToolCall::UpdateAccession(args) => {
            let mut m = String::from_str("Failed to update accession with ID ");
            let s = crate::numfmt::i32_to_string(args.id);
            m.append(s.as_str());
            m
        },
        ToolCall::CreateAccessionCrawl(_) => String::from_str("Failed to create accession crawl"),
        ToolCall::ListSubjects(_) => String::from_str("Failed to list subjects"),
        ToolCall::CreateSubject(_) => String::from_str("Failed to create subject"),
        ToolCall::DeleteSubject(args) => {
            let mut m = String::from_str("Failed to delete subject with ID ");
            let s = crate::numfmt::i32_to_string(args.id);
            m.append(s.as_str());
            m
        },
        ToolCall::UpdateSubject(args) => {
            let mut m = String::from_str("Failed to update subject with ID ");
            let s = crate::numfmt::i32_to_string(args.id);
            m.append(s.as_str());
            m
        },
    }
}

/// Builds the complete request plan of one call: the normalizer and the
/// request builder of the operation, run in sequence on its typed argument
/// set. No network or I/O occurs here.
pub fn prepare_request(client: &SdaClient, call: ToolCall) -> (plan: RequestPlan)
    ensures
        call matches ToolCall::ListAccessions(args) ==> (plan.method == HttpMethod::Get
            && plan.url@ == client.base_url@ + "/api/v1/accessions"@ && pairs_view(plan.query@)
            == accession_query_spec(normalize_accessions_spec(args@)) && plan.body is None),
        call matches ToolCall::ListPrivateAccessions(args) ==> (plan.method == HttpMethod::Get
            && plan.url@ == client.base_url@ + "/api/v1/accessions/private"@ && pairs_view(
            plan.query@,
        ) == accession_query_spec(normalize_accessions_spec(args@)) && plan.body is None),
        call matches ToolCall::GetAccession(args) ==> (plan.method == HttpMethod::Get && plan.url@
            == client.base_url@ + "/api/v1/accessions/"@ + dec_int(args.id as int)
            && plan.query@.len() == 0 && plan.body is None),
        call matches ToolCall::GetPrivateAccession(args) ==> (plan.method == HttpMethod::Get
            && plan.url@ == client.base_url@ + "/api/v1/accessions/private/"@ + dec_int(
            args.id as int,
        ) && plan.query@.len() == 0 && plan.body is None),
        call matches ToolCall::UpdateAccession(args) ==> (plan.method == HttpMethod::Put
            && plan.url@ == client.base_url@ + "/api/v1/accessions/"@ + dec_int(args.id as int)
            && plan.query@.len() == 0 && plan.body == Option::Some(
            RequestBody::UpdateAccession(args.request),
        )),
        call matches ToolCall::CreateAccessionCrawl(args) ==> (plan.method == HttpMethod::Post
            && plan.url@ == client.base_url@ + "/api/v1/accessions/crawl"@ && plan.query@.len()
            == 0 && plan.body == Option::Some(RequestBody::CreateAccessionCrawl(args.request))),
        call matches ToolCall::ListSubjects(args) ==> (plan.method == HttpMethod::Get && plan.url@
            == client.base_url@ + "/api/v1/metadata-subjects"@ && pairs_view(plan.query@)
            == subjects_query_spec(normalize_subjects_spec(args@)) && plan.body is None),
        call matches ToolCall::CreateSubject(args) ==> (plan.method == HttpMethod::Post
            && plan.url@ == client.base_url@ + "/api/v1/metadata-subjects"@ && plan.query@.len()
            == 0 && plan.body == Option::Some(RequestBody::CreateSubject(args.request))),
        call matches ToolCall::DeleteSubject(args) ==> (plan.method == HttpMethod::Delete
            && plan.url@ == client.base_url@ + "/api/v1/metadata-subjects/"@ + dec_int(
            args.id as int,
        ) && plan.query@.len() == 0 && plan.body == Option::Some(
            RequestBody::DeleteSubject(DeleteSubjectRequest { lang: args.lang }),
        )),
        call matches ToolCall::UpdateSubject(args) ==> (plan.method == HttpMethod::Put && plan.url@
            == client.base_url@ + "/api/v1/metadata-subjects/"@ + dec_int(args.id as int)
            && plan.query@.len() == 0 && plan.body == Option::Some(
            RequestBody::UpdateSubject(args.request),
        )),
{
    match call {
        ToolCall::ListAccessions(args) => client.list_accessions_request(args),
        ToolCall::ListPrivateAccessions(args) => client.list_private_accessions_request(args),
        ToolCall::GetAccession(args) => client.get_accession_request(args.id),
        ToolCall::GetPrivateAccession(args) => client.get_private_accession_request(args.id),
        ToolCall::UpdateAccession(args) => client.update_accession_request(args.id, args.request),
        ToolCall::CreateAccessionCrawl(args) => client.create_accession_crawl_request(args.request),
        ToolCall::ListSubjects(args) => {
            let n = crate::query::normalize_subjects_args(args);
            client.list_subjects_request(n.lang, n.page, n.per_page)
        },
        ToolCall::CreateSubject(args) => client.create_subject_request(args.request),
        ToolCall::DeleteSubject(args) => {
            let request = DeleteSubjectRequest { lang: args.lang };
            client.delete_subject_request(args.id, request)
        },
        ToolCall::UpdateSubject(args) => client.update_subject_request(args.id, args.request),
    }
}

/// Wraps a stage failure with the call's action phrase before it is returned
/// to the caller, so the caller always sees which operation failed and why,
/// while the failure's kind stays inspectable.
pub fn wrap_tool_error(call: &ToolCall, e: SdaError) -> (r: SdaError)
    ensures
        r.kind == e.kind,
        r.status == e.status,
        r.message@ == wrapped_message(dispatch_context_spec(*call), e.message@),
{
    let context = dispatch_context(call);
    wrap_error(context.as_str(), e)
}

} // verus!
