//! Data model of the archive adapter.
//!
//! These are the typed argument sets, request bodies and response shapes of
//! the supported operations. Every value is built fresh for one invocation
//! and carries no hidden state; optional fields use reserved sentinel values
//! (a negative page number, an empty string, an unspecified language) at the
//! protocol boundary, and the normalizer resolves them.

use vstd::prelude::*;

verus! {

/// Supported languages for metadata.
///
/// `Unspecified` means the caller supplied no language; it is never sent on
/// the wire unless an operation contractually requires a language, in which
/// case it falls back to a documented default.
#[derive(Debug, Clone, Copy, PartialEq, Eq, Structural)]
pub enum MetadataLanguage {
    /// No language specified.
    Unspecified,
    /// English language.
    English,
    /// Arabic language.
    Arabic,
}

impl Default for MetadataLanguage {
    /// The default language is the unspecified one.
    fn default() -> (r: Self)
        ensures
            r == MetadataLanguage::Unspecified,
    {
        MetadataLanguage::Unspecified
    }
}

/// Supported metadata formats.
#[derive(Debug, Clone, Copy, PartialEq, Eq, Structural)]
pub enum DublinMetadataFormat {
    /// Web ARChive (Zipped) format.
    Wacz,
}

/// Supported browser profiles for hard to archive sites.
#[derive(Debug, Clone, Copy, PartialEq, Eq, Structural)]
pub enum BrowserProfile {
    /// Profile for crawling Facebook.
    Facebook,
}

/// Status of a web crawl.
#[derive(Debug, Clone, Copy, PartialEq, Eq, Structural)]
pub enum CrawlStatus {
    /// The crawl was unsuccessful or poor quality.
    BadCrawl,
    /// The crawl finished successfully.
    Complete,
    /// An error occurred during the crawl.
    Error,
    /// The crawl is waiting to start or in progress.
    Pending,
}

/// The reserved sentinel meaning "pagination field not provided".
///
/// It lies outside the legal page range (which starts at zero), so it can
/// never collide with a real page number.
pub fn default_pagination() -> (r: i64)
    ensures
        r == -1,
{
    -1
}

/// Arguments for listing accessions.
#[derive(Debug, Clone)]
pub struct ListAccessionsArgs {
    /// Page number for pagination; -1 means unset.
    pub page: i64,
    /// Number of items per page; -1 means unset.
    pub per_page: i64,
    /// Language filter for metadata.
    pub lang: MetadataLanguage,
    /// Filter by specific metadata subject IDs.
    pub metadata_subjects: Vec<i32>,
    /// Whether the subject filter should be inclusive.
    pub metadata_subjects_inclusive_filter: bool,
    /// General query term to search for.
    pub query_term: String,
    /// Filter by URL.
    pub url_filter: String,
    /// Start date filter.
    pub date_from: String,
    /// End date filter.
    pub date_to: String,
    /// Whether to include private accessions.
    pub is_private: bool,
}

impl Default for ListAccessionsArgs {
    /// Every field starts out unset: sentinel pagination, unspecified
    /// language, empty filters, false flags.
    fn default() -> (r: Self)
        ensures
            r.page == -1,
            r.per_page == -1,
            r.lang == MetadataLanguage::Unspecified,
            r.metadata_subjects@ == Seq::<i32>::empty(),
            !r.metadata_subjects_inclusive_filter,
            r.query_term@ == Seq::<char>::empty(),
            r.url_filter@ == Seq::<char>::empty(),
            r.date_from@ == Seq::<char>::empty(),
            r.date_to@ == Seq::<char>::empty(),
            !r.is_private,
    {
        ListAccessionsArgs {
            page: -1,
            per_page: -1,
            lang: MetadataLanguage::Unspecified,
            metadata_subjects: Vec::new(),
            metadata_subjects_inclusive_filter: false,
            query_term: String::new(),
            url_filter: String::new(),
            date_from: String::new(),
            date_to: String::new(),
            is_private: false,
        }
    }
}

/// The mathematical view of `ListAccessionsArgs`.
pub ghost struct ListAccessionsArgsView {
    /// Page number; -1 means unset.
    pub page: int,
    /// Items per page; -1 means unset.
    pub per_page: int,
    /// Language filter.
    pub lang: MetadataLanguage,
    /// Subject ID filter.
    pub metadata_subjects: Seq<i32>,
    /// Whether the subject filter is inclusive.
    pub metadata_subjects_inclusive_filter: bool,
    /// Free-text query term.
    pub query_term: Seq<char>,
    /// URL filter.
    pub url_filter: Seq<char>,
    /// Start date filter.
    pub date_from: Seq<char>,
    /// End date filter.
    pub date_to: Seq<char>,
    /// Whether to include private accessions.
    pub is_private: bool,
}

impl View for ListAccessionsArgs {
    type V = ListAccessionsArgsView;

    open spec fn view(&self) -> ListAccessionsArgsView {
        ListAccessionsArgsView {
            page: self.page as int,
            per_page: self.per_page as int,
            lang: self.lang,
            metadata_subjects: self.metadata_subjects@,
            metadata_subjects_inclusive_filter: self.metadata_subjects_inclusive_filter,
            query_term: self.query_term@,
            url_filter: self.url_filter@,
            date_from: self.date_from@,
            date_to: self.date_to@,
            is_private: self.is_private,
        }
    }
}

/// Arguments for listing metadata subjects. The language is required here:
/// an unspecified language falls back to English when the request is built.
#[derive(Debug, Clone)]
pub struct ListSubjectsArgs {
    /// Page number for pagination; -1 means unset.
    pub page: i64,
    /// Number of items per page; -1 means unset.
    pub per_page: i64,
    /// Language for subjects.
    pub lang: MetadataLanguage,
}

/// The mathematical view of `ListSubjectsArgs`.
pub ghost struct ListSubjectsArgsView {
    /// Page number; -1 means unset.
    pub page: int,
    /// Items per page; -1 means unset.
    pub per_page: int,
    /// Language for subjects.
    pub lang: MetadataLanguage,
}

impl View for ListSubjectsArgs {
    type V = ListSubjectsArgsView;

    open spec fn view(&self) -> ListSubjectsArgsView {
        ListSubjectsArgsView {
            page: self.page as int,
            per_page: self.per_page as int,
            lang: self.lang,
        }
    }
}

/// Simple arguments containing only an ID.
#[derive(Debug, Clone)]
pub struct IdArgs {
    /// The unique identifier.
    pub id: i32,
}

/// Arguments for updating an accession.
#[derive(Debug, Clone)]
pub struct UpdateAccessionArgs {
    /// The ID of the accession to update.
    pub id: i32,
    /// The updated data.
    pub request: UpdateAccessionRequest,
}

/// Arguments for creating a new accession (crawl).
#[derive(Debug, Clone)]
pub struct CreateAccessionCrawlArgs {
    /// The parameters for creating the accession crawl.
    pub request: CreateAccessionCrawlRequest,
}

/// Arguments for creating a metadata subject.
#[derive(Debug, Clone)]
pub struct CreateSubjectArgs {
    /// The subject data to create.
    pub request: CreateSubjectRequest,
}

/// Arguments for deleting a metadata subject.
#[derive(Debug, Clone)]
pub struct DeleteSubjectArgs {
    /// The ID of the subject to delete.
    pub id: i32,
    /// The language of the subject.
    pub lang: MetadataLanguage,
}

/// Arguments for updating a metadata subject.
#[derive(Debug, Clone)]
pub struct UpdateSubjectArgs {
    /// The ID of the subject to update.
    pub id: i32,
    /// The updated subject data.
    pub request: UpdateSubjectRequest,
}

/// Request body for updating an accession.
#[derive(Debug, Clone)]
pub struct UpdateAccessionRequest {
    /// Privacy status.
    pub is_private: bool,
    /// Description of the accession.
    pub metadata_description: String,
    /// Language of the metadata.
    pub metadata_language: MetadataLanguage,
    /// List of subject IDs.
    pub metadata_subjects: Vec<i32>,
    /// Time period related to the accession.
    pub metadata_time: String,
    /// Title of the accession.
    pub metadata_title: String,
}

/// Request body for creating a metadata subject.
#[derive(Debug, Clone)]
pub struct CreateSubjectRequest {
    /// Language of the subject.
    pub lang: MetadataLanguage,
    /// The subject name/term.
    pub metadata_subject: String,
}

/// Request body for deleting a metadata subject.
#[derive(Debug, Clone)]
pub struct DeleteSubjectRequest {
    /// Language of the subject.
    pub lang: MetadataLanguage,
}

/// Request body for updating a metadata subject.
#[derive(Debug, Clone)]
pub struct UpdateSubjectRequest {
    /// Language of the subject.
    pub lang: MetadataLanguage,
    /// The subject name/term.
    pub metadata_subject: String,
}

/// Request body for creating a new accession crawl.
#[derive(Debug, Clone)]
pub struct CreateAccessionCrawlRequest {
    /// The URL to crawl.
    pub url: String,
    /// Language of the metadata.
    pub metadata_language: MetadataLanguage,
    /// Title of the accession.
    pub metadata_title: String,
    /// Time period related to the accession (ISO 8601).
    pub metadata_time: String,
    /// List of subject IDs.
    pub metadata_subjects: Vec<i32>,
    /// Whether the accession is private.
    pub is_private: bool,
    /// Format of the metadata.
    pub metadata_format: DublinMetadataFormat,
    /// Optional browser profile for specific sites.
    pub browser_profile: Option<BrowserProfile>,
    /// Description of the accession.
    pub metadata_description: Option<String>,
    /// Optional S3 filename.
    pub s3_filename: Option<String>,
}

/// Detailed accession information including metadata.
#[derive(Debug, Clone)]
pub struct AccessionsWithMetadataResponse {
    /// Unique identifier.
    pub id: i32,
    /// Whether the accession is private.
    pub is_private: bool,
    /// Status of the crawl.
    pub crawl_status: CrawlStatus,
    /// Timestamp when the crawl occurred.
    pub crawl_timestamp: String,
    /// The URL that was crawled.
    pub seed_url: String,
    /// Date associated with the Dublin Core metadata.
    pub dublin_metadata_date: String,
    /// Format of the metadata.
    pub dublin_metadata_format: DublinMetadataFormat,
    /// Whether English metadata exists.
    pub has_english_metadata: bool,
    /// Whether Arabic metadata exists.
    pub has_arabic_metadata: bool,
    /// Arabic description.
    pub description_ar: Option<String>,
    /// English description.
    pub description_en: Option<String>,
    /// List of subjects in Arabic.
    pub subjects_ar: Option<Vec<String>>,
    /// List of Arabic subject IDs.
    pub subjects_ar_ids: Option<Vec<i32>>,
    /// List of subjects in English.
    pub subjects_en: Option<Vec<String>>,
    /// List of English subject IDs.
    pub subjects_en_ids: Option<Vec<i32>>,
    /// Arabic title.
    pub title_ar: Option<String>,
    /// English title.
    pub title_en: Option<String>,
}

/// Response containing a list of accessions.
#[derive(Debug, Clone)]
pub struct ListAccessionsResponse {
    /// List of accessions.
    pub items: Vec<AccessionsWithMetadataResponse>,
    /// Total number of pages.
    pub num_pages: i64,
    /// Current page number.
    pub page: i64,
    /// Items per page.
    pub per_page: i64,
}

/// Response containing a single accession and its download URL.
#[derive(Debug, Clone)]
pub struct GetOneAccessionResponse {
    /// The accession details.
    pub accession: AccessionsWithMetadataResponse,
    /// URL to download the WACZ file.
    pub wacz_url: String,
}

/// Represents a single metadata subject.
#[derive(Debug, Clone)]
pub struct DublinMetadataSubjectResponse {
    /// Unique identifier.
    pub id: i32,
    /// The subject name.
    pub subject: String,
}

/// Response containing a list of metadata subjects.
#[derive(Debug, Clone)]
pub struct ListSubjectsResponse {
    /// List of subjects.
    pub items: Vec<DublinMetadataSubjectResponse>,
    /// Total number of pages.
    pub num_pages: i64,
    /// Current page number.
    pub page: i64,
    /// Items per page.
    pub per_page: i64,
}

/// Arguments for listing collections.
#[derive(Debug, Clone)]
pub struct ListCollectionsArgs {
    /// Page number for pagination; -1 means unset.
    pub page: i64,
    /// Number of items per page; -1 means unset.
    pub per_page: i64,
    /// Language filter.
    pub lang: MetadataLanguage,
}

impl Default for ListCollectionsArgs {
    /// Every field starts out unset.
    fn default() -> (r: Self)
        ensures
            r.page == -1,
            r.per_page == -1,
            r.lang == MetadataLanguage::Unspecified,
    {
        ListCollectionsArgs { page: -1, per_page: -1, lang: MetadataLanguage::Unspecified }
    }
}

/// The mathematical view of `ListCollectionsArgs`.
pub ghost struct ListCollectionsArgsView {
    /// Page number; -1 means unset.
    pub page: int,
    /// Items per page; -1 means unset.
    pub per_page: int,
    /// Language filter.
    pub lang: MetadataLanguage,
}

impl View for ListCollectionsArgs {
    type V = ListCollectionsArgsView;

    open spec fn view(&self) -> ListCollectionsArgsView {
        ListCollectionsArgsView {
            page: self.page as int,
            per_page: self.per_page as int,
            lang: self.lang,
        }
    }
}

/// Arguments for listing private collections.
#[derive(Debug, Clone)]
pub struct ListPrivateCollectionsArgs {
    /// Page number for pagination; -1 means unset.
    pub page: i64,
    /// Number of items per page; -1 means unset.
    pub per_page: i64,
    /// Language filter.
    pub lang: MetadataLanguage,
    /// Filter by public status; always sent explicitly.
    pub is_public: bool,
}

impl Default for ListPrivateCollectionsArgs {
    /// Every field starts out unset; the public flag defaults to false.
    fn default() -> (r: Self)
        ensures
            r.page == -1,
            r.per_page == -1,
            r.lang == MetadataLanguage::Unspecified,
            !r.is_public,
    {
        ListPrivateCollectionsArgs {
            page: -1,
            per_page: -1,
            lang: MetadataLanguage::Unspecified,
            is_public: false,
        }
    }
}

/// The mathematical view of `ListPrivateCollectionsArgs`.
pub ghost struct ListPrivateCollectionsArgsView {
    /// Page number; -1 means unset.
    pub page: int,
    /// Items per page; -1 means unset.
    pub per_page: int,
    /// Language filter.
    pub lang: MetadataLanguage,
    /// Filter by public status.
    pub is_public: bool,
}

impl View for ListPrivateCollectionsArgs {
    type V = ListPrivateCollectionsArgsView;

    open spec fn view(&self) -> ListPrivateCollectionsArgsView {
        ListPrivateCollectionsArgsView {
            page: self.page as int,
            per_page: self.per_page as int,
            lang: self.lang,
            is_public: self.is_public,
        }
    }
}

/// Arguments for getting a single collection.
#[derive(Debug, Clone)]
pub struct GetCollectionArgs {
    /// The collection ID.
    pub id: i32,
    /// Language for the collection.
    pub lang: MetadataLanguage,
}

/// Arguments for getting a single subject.
#[derive(Debug, Clone)]
pub struct GetSubjectArgs {
    /// The subject ID.
    pub id: i32,
    /// Language for the subject.
    pub lang: MetadataLanguage,
}

/// Arguments for creating a collection.
#[derive(Debug, Clone)]
pub struct CreateCollectionArgs {
    /// The collection data to create.
    pub request: CreateCollectionRequest,
}

/// Arguments for updating a collection.
#[derive(Debug, Clone)]
pub struct UpdateCollectionArgs {
    /// The ID of the collection to update.
    pub id: i32,
    /// The updated collection data.
    pub request: UpdateCollectionRequest,
}

/// Request body for creating a collection.
#[derive(Debug, Clone)]
pub struct CreateCollectionRequest {
    /// Language of the collection.
    pub lang: MetadataLanguage,
    /// Title of the collection.
    pub title: String,
    /// Whether the collection is public.
    pub is_public: bool,
    /// List of subject IDs.
    pub subject_ids: Vec<i32>,
    /// Description of the collection.
    pub description: String,
}

/// Request body for updating a collection.
#[derive(Debug, Clone)]
pub struct UpdateCollectionRequest {
    /// Language of the collection.
    pub lang: MetadataLanguage,
    /// Title of the collection.
    pub title: String,
    /// Whether the collection is public.
    pub is_public: bool,
    /// List of subject IDs.
    pub subject_ids: Vec<i32>,
    /// Description of the collection.
    pub description: String,
}

/// Response containing a single collection.
#[derive(Debug, Clone)]
pub struct CollectionResponse {
    /// Unique identifier.
    pub id: i32,
    /// Title of the collection.
    pub title: String,
    /// Whether the collection is public.
    pub is_public: bool,
    /// Description of the collection.
    pub description: Option<String>,
}

/// Response containing a list of collections.
#[derive(Debug, Clone)]
pub struct ListCollectionsResponse {
    /// List of collections.
    pub items: Vec<CollectionResponse>,
    /// Total number of pages.
    pub num_pages: i64,
    /// Current page number.
    pub page: i64,
    /// Items per page.
    pub per_page: i64,
}

} // verus!
