//! Request planning for the archive API.
//!
//! `SdaClient` holds the immutable configuration of the adapter: the base
//! URL and the credential. Its methods turn typed arguments into a complete
//! `RequestPlan` — method, resolved URL, ordered query parameters and
//! optional body — deterministically and without any I/O; the surrounding
//! binary executes the plan and feeds the raw result to the response
//! translation functions.

use vstd::prelude::*;
use vstd::string::*;
use crate::model::{
    CreateAccessionCrawlRequest, CreateCollectionRequest, CreateSubjectRequest,
    DeleteSubjectRequest, ListAccessionsArgs, ListCollectionsArgs, ListPrivateCollectionsArgs,
    MetadataLanguage, UpdateAccessionRequest, UpdateCollectionRequest, UpdateSubjectRequest,
};
use crate::numfmt::{dec_int, i32_to_string};
use crate::query::{
    accession_query_spec, build_accession_query_pairs, build_collections_query_pairs,
    build_lang_query_pairs, build_private_collections_query_pairs, build_subjects_query_pairs,
    collections_query_spec, lang_query_spec, normalize_accession_args, normalize_accessions_spec,
    normalize_collection_args, normalize_collections_spec, normalize_private_collection_args,
    normalize_private_collections_spec, pairs_view, private_collections_query_spec,
    subjects_query_spec, NormalizedSubjectsQuery, NormalizedSubjectsQueryView,
};
use crate::response::SdaError;

verus! {

/// The HTTP method of a planned request.
#[derive(Debug, Clone, Copy, PartialEq, Eq, Structural)]
pub enum HttpMethod {
    /// Fetch a resource.
    Get,
    /// Create a resource.
    Post,
    /// Replace a resource.
    Put,
    /// Remove a resource.
    Delete,
}

/// The typed body of a planned request, for the operations that send one.
/// An operation never mixes the same logical field into both query and body.
#[derive(Debug, Clone)]
pub enum RequestBody {
    /// Body of an accession update.
    UpdateAccession(UpdateAccessionRequest),
    /// Body of a crawl creation.
    CreateAccessionCrawl(CreateAccessionCrawlRequest),
    /// Body of a subject creation.
    CreateSubject(CreateSubjectRequest),
    /// Body of a subject deletion.
    DeleteSubject(DeleteSubjectRequest),
    /// Body of a subject update.
    UpdateSubject(UpdateSubjectRequest),
    /// Body of a collection creation.
    CreateCollection(CreateCollectionRequest),
    /// Body of a collection update.
    UpdateCollection(UpdateCollectionRequest),
}

/// One fully planned HTTP request: everything the transport needs, built
/// deterministically from the arguments of one invocation.
#[derive(Debug, Clone)]
pub struct RequestPlan {
    /// The HTTP method.
    pub method: HttpMethod,
    /// The resolved URL, path parameters substituted.
    pub url: String,
    /// The ordered query parameter sequence.
    pub query: Vec<(&'static str, String)>,
    /// The body, for operations that send one.
    pub body: Option<RequestBody>,
}

/// The immutable configuration of the adapter: where the archive lives and
/// the credential sent with every request. Read-only for the lifetime of
/// the process; concurrent invocations share it freely.
#[derive(Debug, Clone)]
pub struct SdaClient {
    /// Base URL of the archive API.
    pub base_url: String,
    /// Credential for the fixed authentication header.
    pub api_key: String,
}

impl SdaClient {
    /// Creates a client from the configured base URL and credential.
    pub fn new(base_url: String, api_key: String) -> (c: Self)
        ensures
            c.base_url == base_url,
            c.api_key == api_key,
    {
        SdaClient { base_url, api_key }
    }

    /// The fixed authentication header attached to every request: the static
    /// key name and the configured credential value.
    pub fn auth_header<'a>(&'a self) -> (r: (&'static str, &'a str))
        ensures
            r.0@ == "x-api-key"@,
            r.1@ == self.api_key@,
    {
        ("x-api-key", self.api_key.as_str())
    }

    /// The base URL joined with a fixed path.
    fn url_with(&self, path: &'static str) -> (r: String)
        ensures
            r@ == self.base_url@ + path@,
    {
        let mut r = self.base_url.clone();
        r.append(path);
        r
    }

    /// The base URL joined with a fixed path and a numeric path parameter.
    fn url_with_id(&self, path: &'static str, id: i32) -> (r: String)
        ensures
            r@ == self.base_url@ + path@ + dec_int(id as int),
    {
        let mut r = self.base_url.clone();
        r.append(path);
        let s = i32_to_string(id);
        r.append(s.as_str());
        r
    }

    /// Builds the ordered query vector for accession-related requests.
    /// Building cannot fail; the result is stated as fallible because the
    /// surrounding pipeline treats every stage uniformly.
    pub fn build_accession_query(&self, args: ListAccessionsArgs) -> (r: Result<
        Vec<(&'static str, String)>,
        SdaError,
    >)
        ensures
            r matches Ok(q) && pairs_view(q@) == accession_query_spec(
                normalize_accessions_spec(args@),
            ),
    {
        Result::Ok(build_accession_query_pairs(normalize_accession_args(args)))
    }

    /// Plans the creation of a new accession (a crawl).
    pub fn create_accession_crawl_request(&self, request: CreateAccessionCrawlRequest) -> (plan:
        RequestPlan)
        ensures
            plan.method == HttpMethod::Post,
            plan.url@ == self.base_url@ + "/api/v1/accessions/crawl"@,
            plan.query@.len() == 0,
            plan.body == Option::Some(RequestBody::CreateAccessionCrawl(request)),
    {
        RequestPlan {
            method: HttpMethod::Post,
            url: self.url_with("/api/v1/accessions/crawl"),
            query: Vec::new(),
            body: Option::Some(RequestBody::CreateAccessionCrawl(request)),
        }
    }

    /// Plans the listing of public accessions.
    pub fn list_accessions_request(&self, args: ListAccessionsArgs) -> (plan: RequestPlan)
        ensures
            plan.method == HttpMethod::Get,
            plan.url@ == self.base_url@ + "/api/v1/accessions"@,
            pairs_view(plan.query@) == accession_query_spec(normalize_accessions_spec(args@)),
            plan.body is None,
    {
        RequestPlan {
            method: HttpMethod::Get,
            url: self.url_with("/api/v1/accessions"),
            query: build_accession_query_pairs(normalize_accession_args(args)),
            body: Option::None,
        }
    }

    /// Plans the listing of private accessions.
    pub fn list_private_accessions_request(&self, args: ListAccessionsArgs) -> (plan: RequestPlan)
        ensures
            plan.method == HttpMethod::Get,
            plan.url@ == self.base_url@ + "/api/v1/accessions/private"@,
            pairs_view(plan.query@) == accession_query_spec(normalize_accessions_spec(args@)),
            plan.body is None,
    {
        RequestPlan {
            method: HttpMethod::Get,
            url: self.url_with("/api/v1/accessions/private"),
            query: build_accession_query_pairs(normalize_accession_args(args)),
            body: Option::None,
        }
    }

    /// Plans the fetch of a single public accession.
    pub fn get_accession_request(&self, id: i32) -> (plan: RequestPlan)
        ensures
            plan.method == HttpMethod::Get,
            plan.url@ == self.base_url@ + "/api/v1/accessions/"@ + dec_int(id as int),
            plan.query@.len() == 0,
            plan.body is None,
    {
        RequestPlan {
            method: HttpMethod::Get,
            url: self.url_with_id("/api/v1/accessions/", id),
            query: Vec::new(),
            body: Option::None,
        }
    }

    /// Plans the fetch of a single private accession.
    pub fn get_private_accession_request(&self, id: i32) -> (plan: RequestPlan)
        ensures
            plan.method == HttpMethod::Get,
            plan.url@ == self.base_url@ + "/api/v1/accessions/private/"@ + dec_int(id as int),
            plan.query@.len() == 0,
            plan.body is None,
    {
        RequestPlan {
            method: HttpMethod::Get,
            url: self.url_with_id("/api/v1/accessions/private/", id),
            query: Vec::new(),
            body: Option::None,
        }
    }

    /// Plans the update of an accession.
    pub fn update_accession_request(&self, id: i32, request: UpdateAccessionRequest) -> (plan:
        RequestPlan)
        ensures
            plan.method == HttpMethod::Put,
            plan.url@ == self.base_url@ + "/api/v1/accessions/"@ + dec_int(id as int),
            plan.query@.len() == 0,
            plan.body == Option::Some(RequestBody::UpdateAccession(request)),
    {
        RequestPlan {
            method: HttpMethod::Put,
            url: self.url_with_id("/api/v1/accessions/", id),
            query: Vec::new(),
            body: Option::Some(RequestBody::UpdateAccession(request)),
        }
    }

    /// Plans the listing of metadata subjects. The language is mandatory on
    /// this operation: when none is given the documented default is sent.
    pub fn list_subjects_request(
        &self,
        lang: MetadataLanguage,
        page: Option<i64>,
        per_page: Option<i64>,
    ) -> (plan: RequestPlan)
        ensures
            plan.method == HttpMethod::Get,
            plan.url@ == self.base_url@ + "/api/v1/metadata-subjects"@,
            pairs_view(plan.query@) == subjects_query_spec(
                NormalizedSubjectsQueryView {
                    lang,
                    page: match page {
                        Option::Some(p) => Option::Some(p as int),
                        Option::None => Option::None,
                    },
                    per_page: match per_page {
                        Option::Some(p) => Option::Some(p as int),
                        Option::None => Option::None,
                    },
                },
            ),
            plan.body is None,
    {
        let n = NormalizedSubjectsQuery { lang, page, per_page };
        RequestPlan {
            method: HttpMethod::Get,
            url: self.url_with("/api/v1/metadata-subjects"),
            query: build_subjects_query_pairs(n),
            body: Option::None,
        }
    }

    /// Plans the creation of a metadata subject.
    pub fn create_subject_request(&self, request: CreateSubjectRequest) -> (plan: RequestPlan)
        ensures
            plan.method == HttpMethod::Post,
            plan.url@ == self.base_url@ + "/api/v1/metadata-subjects"@,
            plan.query@.len() == 0,
            plan.body == Option::Some(RequestBody::CreateSubject(request)),
    {
        RequestPlan {
            method: HttpMethod::Post,
            url: self.url_with("/api/v1/metadata-subjects"),
            query: Vec::new(),
            body: Option::Some(RequestBody::CreateSubject(request)),
        }
    }

    /// Plans the deletion of a metadata subject.
    pub fn delete_subject_request(&self, id: i32, request: DeleteSubjectRequest) -> (plan:
        RequestPlan)
        ensures
            plan.method == HttpMethod::Delete,
            plan.url@ == self.base_url@ + "/api/v1/metadata-subjects/"@ + dec_int(id as int),
            plan.query@.len() == 0,
            plan.body == Option::Some(RequestBody::DeleteSubject(request)),
    {
        RequestPlan {
            method: HttpMethod::Delete,
            url: self.url_with_id("/api/v1/metadata-subjects/", id),
            query: Vec::new(),
            body: Option::Some(RequestBody::DeleteSubject(request)),
        }
    }

    /// Plans the update of a metadata subject.
    pub fn update_subject_request(&self, id: i32, request: UpdateSubjectRequest) -> (plan:
        RequestPlan)
        ensures
            plan.method == HttpMethod::Put,
            plan.url@ == self.base_url@ + "/api/v1/metadata-subjects/"@ + dec_int(id as int),
            plan.query@.len() == 0,
            plan.body == Option::Some(RequestBody::UpdateSubject(request)),
    {
        RequestPlan {
            method: HttpMethod::Put,
            url: self.url_with_id("/api/v1/metadata-subjects/", id),
            query: Vec::new(),
            body: Option::Some(RequestBody::UpdateSubject(request)),
        }
    }

    /// Plans the fetch of a single metadata subject.
    pub fn get_subject_request(&self, id: i32, lang: MetadataLanguage) -> (plan: RequestPlan)
        ensures
            plan.method == HttpMethod::Get,
            plan.url@ == self.base_url@ + "/api/v1/metadata-subjects/"@ + dec_int(id as int),
            pairs_view(plan.query@) == lang_query_spec(lang),
            plan.body is None,
    {
        RequestPlan {
            method: HttpMethod::Get,
            url: self.url_with_id("/api/v1/metadata-subjects/", id),
            query: build_lang_query_pairs(lang),
            body: Option::None,
        }
    }

    /// Plans the listing of public collections.
    pub fn list_collections_request(&self, args: ListCollectionsArgs) -> (plan: RequestPlan)
        ensures
            plan.method == HttpMethod::Get,
            plan.url@ == self.base_url@ + "/api/v1/collections"@,
            pairs_view(plan.query@) == collections_query_spec(normalize_collections_spec(args@)),
            plan.body is None,
    {
        RequestPlan {
            method: HttpMethod::Get,
            url: self.url_with("/api/v1/collections"),
            query: build_collections_query_pairs(normalize_collection_args(args)),
            body: Option::None,
        }
    }

    /// Plans the listing of private collections.
    pub fn list_private_collections_request(&self, args: ListPrivateCollectionsArgs) -> (plan:
        RequestPlan)
        ensures
            plan.method == HttpMethod::Get,
            plan.url@ == self.base_url@ + "/api/v1/collections/private"@,
            pairs_view(plan.query@) == private_collections_query_spec(
                normalize_private_collections_spec(args@),
            ),
            plan.body is None,
    {
        RequestPlan {
            method: HttpMethod::Get,
            url: self.url_with("/api/v1/collections/private"),
            query: build_private_collections_query_pairs(normalize_private_collection_args(args)),
            body: Option::None,
        }
    }

    /// Plans the fetch of a single collection.
    pub fn get_collection_request(&self, id: i32, lang: MetadataLanguage) -> (plan: RequestPlan)
        ensures
            plan.method == HttpMethod::Get,
            plan.url@ == self.base_url@ + "/api/v1/collections/"@ + dec_int(id as int),
            pairs_view(plan.query@) == lang_query_spec(lang),
            plan.body is None,
    {
        RequestPlan {
            method: HttpMethod::Get,
            url: self.url_with_id("/api/v1/collections/", id),
            query: build_lang_query_pairs(lang),
            body: Option::None,
        }
    }

    /// Plans the creation of a collection.
    pub fn create_collection_request(&self, request: CreateCollectionRequest) -> (plan:
        RequestPlan)
        ensures
            plan.method == HttpMethod::Post,
            plan.url@ == self.base_url@ + "/api/v1/collections"@,
            plan.query@.len() == 0,
            plan.body == Option::Some(RequestBody::CreateCollection(request)),
    {
        RequestPlan {
            method: HttpMethod::Post,
            url: self.url_with("/api/v1/collections"),
            query: Vec::new(),
            body: Option::Some(RequestBody::CreateCollection(request)),
        }
    }

    /// Plans the update of a collection.
    pub fn update_collection_request(&self, id: i32, request: UpdateCollectionRequest) -> (plan:
        RequestPlan)
        ensures
            plan.method == HttpMethod::Put,
            plan.url@ == self.base_url@ + "/api/v1/collections/"@ + dec_int(id as int),
            plan.query@.len() == 0,
            plan.body == Option::Some(RequestBody::UpdateCollection(request)),
    {
        RequestPlan {
            method: HttpMethod::Put,
            url: self.url_with_id("/api/v1/collections/", id),
            query: Vec::new(),
            body: Option::Some(RequestBody::UpdateCollection(request)),
        }
    }
}

/// The operations invoked directly on the client, outside the tool
/// dispatcher: the collection operations and the single-subject fetch. The
/// single-item operations carry the numeric ID so that every failure
/// message names the item it concerns.
#[derive(Debug, Clone, Copy, PartialEq, Eq, Structural)]
pub enum DirectOp {
    /// Fetch one metadata subject.
    GetSubject(i32),
    /// List public collections.
    ListCollections,
    /// List private collections.
    ListPrivateCollections,
    /// Fetch one collection.
    GetCollection(i32),
    /// Create a collection.
    CreateCollection,
    /// Update a collection.
    UpdateCollection(i32),
}

/// The context placed on a failure to hand a direct request to the
/// transport, with the rendered ID for the single-item operations.
pub open spec fn direct_send_context_spec(op: DirectOp) -> Seq<char> {
    match op {
        DirectOp::GetSubject(id) => "Failed to send get subject request for ID "@ + dec_int(
            id as int,
        ),
        DirectOp::ListCollections => "Failed to send list collections request"@,
        DirectOp::ListPrivateCollections => "Failed to send list private collections request"@,
        DirectOp::GetCollection(id) => "Failed to send get collection request for ID "@ + dec_int(
            id as int,
        ),
        DirectOp::CreateCollection => "Failed to send create collection request"@,
        DirectOp::UpdateCollection(id) => "Failed to send update collection request for ID "@
            + dec_int(id as int),
    }
}

/// The context placed on a failure to hand a direct request to the
/// transport.
pub fn direct_send_context(op: DirectOp) -> (r: String)
    ensures
        r@ == direct_send_context_spec(op),
{
    match op {
        DirectOp::GetSubject(id) => {
            let mut m = String::from_str("Failed to send get subject request for ID ");
            let s = i32_to_string(id);
            m.append(s.as_str());
            m
        },
        DirectOp::ListCollections => String::from_str("Failed to send list collections request"),
        DirectOp::ListPrivateCollections => String::from_str(
            "Failed to send list private collections request",
        ),
        DirectOp::GetCollection(id) => {
            let mut m = String::from_str("Failed to send get collection request for ID ");
            let s = i32_to_string(id);
            m.append(s.as_str());
            m
        },
        DirectOp::CreateCollection => String::from_str("Failed to send create collection request"),
        DirectOp::UpdateCollection(id) => {
            let mut m = String::from_str("Failed to send update collection request for ID ");
            let s = i32_to_string(id);
            m.append(s.as_str());
            m
        },
    }
}

/// The context placed on a non-success status of a direct request, with the
/// rendered ID for the single-item operations.
pub open spec fn direct_server_context_spec(op: DirectOp) -> Seq<char> {
    match op {
        DirectOp::GetSubject(id) => "Server returned error for get subject "@ + dec_int(id as int),
        DirectOp::ListCollections => "Server returned error for list collections"@,
        DirectOp::ListPrivateCollections => "Server returned error for list private collections"@,
        DirectOp::GetCollection(id) => "Server returned error for get collection "@ + dec_int(
            id as int,
        ),
        DirectOp::CreateCollection => "Server returned error for create collection"@,
        DirectOp::UpdateCollection(id) => "Server returned error for update collection "@
            + dec_int(id as int),
    }
}

/// The context placed on a non-success status of a direct request.
pub fn direct_server_context(op: DirectOp) -> (r: String)
    ensures
        r@ == direct_server_context_spec(op),
{
    match op {
        DirectOp::GetSubject(id) => {
            let mut m = String::from_str("Server returned error for get subject ");
            let s = i32_to_string(id);
            m.append(s.as_str());
            m
        },
        DirectOp::ListCollections => String::from_str("Server returned error for list collections"),
        DirectOp::ListPrivateCollections => String::from_str(
            "Server returned error for list private collections",
        ),
        DirectOp::GetCollection(id) => {
            let mut m = String::from_str("Server returned error for get collection ");
            let s = i32_to_string(id);
            m.append(s.as_str());
            m
        },
        DirectOp::CreateCollection => String::from_str(
            "Server returned error for create collection",
        ),
        DirectOp::UpdateCollection(id) => {
            let mut m = String::from_str("Server returned error for update collection ");
            let s = i32_to_string(id);
            m.append(s.as_str());
            m
        },
    }
}

/// The context placed on a success body of a direct request that did not
/// match the expected shape.
pub open spec fn direct_parse_context_spec(op: DirectOp) -> Seq<char> {
    match op {
        DirectOp::GetSubject(_) => "Failed to parse get subject response"@,
        DirectOp::ListCollections => "Failed to parse list collections response"@,
        DirectOp::ListPrivateCollections => "Failed to parse list private collections response"@,
        DirectOp::GetCollection(_) => "Failed to parse get collection response"@,
        DirectOp::CreateCollection => "Failed to parse create collection response text"@,
        DirectOp::UpdateCollection(_) => "Failed to parse update collection response"@,
    }
}

/// The context placed on a success body of a direct request that did not
/// match the expected shape.
pub fn direct_parse_context(op: DirectOp) -> (r: &'static str)
    ensures
        r@ == direct_parse_context_spec(op),
{
    match op {
        DirectOp::GetSubject(_) => "Failed to parse get subject response",
        DirectOp::ListCollections => "Failed to parse list collections response",
        DirectOp::ListPrivateCollections => "Failed to parse list private collections response",
        DirectOp::GetCollection(_) => "Failed to parse get collection response",
        DirectOp::CreateCollection => "Failed to parse create collection response text",
        DirectOp::UpdateCollection(_) => "Failed to parse update collection response",
    }
}

} // verus!
