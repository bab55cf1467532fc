//! Argument normalization and query building.
//!
//! The normalizer resolves the sentinel-encoded optional fields of an
//! argument set into an unambiguous pruned form; the builder then turns that
//! form into the ordered query parameter sequence of the request. The order
//! is the declaration order of the fields of the operation, never the order
//! in which the caller supplied them, so two calls with identical semantic
//! arguments produce identical sequences.

use vstd::prelude::*;
use vstd::string::*;
use crate::model::{
    ListAccessionsArgs, ListAccessionsArgsView, ListCollectionsArgs, ListCollectionsArgsView,
    ListPrivateCollectionsArgs, ListPrivateCollectionsArgsView, ListSubjectsArgs,
    ListSubjectsArgsView, MetadataLanguage,
};
use crate::numfmt::{dec_int, i32_to_string, i64_to_string};

verus! {

/// The character sequences of a built parameter list: each entry is the
/// (name, value) pair of one query parameter.
pub open spec fn pairs_view(q: Seq<(&'static str, String)>) -> Seq<(Seq<char>, Seq<char>)> {
    Seq::new(q.len(), |i: int| (q[i].0@, q[i].1@))
}

/// The canonical lowercase wire form of a concrete language variant.
/// An unspecified language has no wire form of its own; where a value is
/// nevertheless required, the documented default is English.
pub open spec fn lang_value(lang: MetadataLanguage) -> Seq<char> {
    match lang {
        MetadataLanguage::Arabic => "arabic"@,
        _ => "english"@,
    }
}

/// The parameter segment of an optional numeric field: a single pair when
/// the field is set, nothing when it is unset.
pub open spec fn num_param(name: Seq<char>, v: Option<int>) -> Seq<(Seq<char>, Seq<char>)> {
    match v {
        Option::Some(p) => seq![(name, dec_int(p))],
        Option::None => Seq::empty(),
    }
}

/// The parameter segment of an optional language filter: concrete variants
/// are emitted in canonical lowercase form, the unspecified variant is
/// omitted.
pub open spec fn lang_param_optional(lang: MetadataLanguage) -> Seq<(Seq<char>, Seq<char>)> {
    match lang {
        MetadataLanguage::Unspecified => Seq::empty(),
        _ => seq![("lang"@, lang_value(lang))],
    }
}

/// The parameter segment of a required language: concrete variants are
/// emitted as themselves, the unspecified variant falls back to the
/// documented default instead of being omitted.
pub open spec fn lang_param_required(lang: MetadataLanguage) -> Seq<(Seq<char>, Seq<char>)> {
    seq![("lang"@, lang_value(lang))]
}

/// The parameter segment of a list field: one repeated parameter per
/// element, nothing when the list is empty.
pub open spec fn repeat_param(name: Seq<char>, ids: Seq<i32>) -> Seq<(Seq<char>, Seq<char>)> {
    Seq::new(ids.len(), |i: int| (name, dec_int(ids[i] as int)))
}

/// The parameter segment of a boolean flag: `true` when set, nothing when
/// not (false is the implicit default and is never serialized).
pub open spec fn flag_param(name: Seq<char>, b: bool) -> Seq<(Seq<char>, Seq<char>)> {
    if b {
        seq![(name, "true"@)]
    } else {
        Seq::empty()
    }
}

/// The parameter segment of a boolean that the operation always sends
/// explicitly, whatever its value.
pub open spec fn bool_param(name: Seq<char>, b: bool) -> Seq<(Seq<char>, Seq<char>)> {
    if b {
        seq![(name, "true"@)]
    } else {
        seq![(name, "false"@)]
    }
}

/// The parameter segment of an optional free-text field: a single pair when
/// the text is present, nothing when it is absent.
pub open spec fn text_param(name: Seq<char>, v: Option<Seq<char>>) -> Seq<(Seq<char>, Seq<char>)> {
    match v {
        Option::Some(s) => seq![(name, s)],
        Option::None => Seq::empty(),
    }
}

/// An optional numeric field resolved from its sentinel encoding: unset when
/// the value is the reserved sentinel, set otherwise.
pub open spec fn opt_num(v: int) -> Option<int> {
    if v == -1 {
        Option::None
    } else {
        Option::Some(v)
    }
}

/// An optional text field resolved from its empty-string encoding: unset when
/// the text is empty, set otherwise.
pub open spec fn opt_text(s: Seq<char>) -> Option<Seq<char>> {
    if s.len() == 0 {
        Option::None
    } else {
        Option::Some(s)
    }
}

/// The normalized form of accession listing arguments: every field is either
/// present with meaning or absent, with no sentinel values left.
pub struct NormalizedAccessionQuery {
    /// Page number, when set.
    pub page: Option<i64>,
    /// Items per page, when set.
    pub per_page: Option<i64>,
    /// Language filter; the unspecified variant means "no filter".
    pub lang: MetadataLanguage,
    /// Subject ID filter; an empty list means "no filter".
    pub metadata_subjects: Vec<i32>,
    /// Whether the subject filter is inclusive.
    pub metadata_subjects_inclusive_filter: bool,
    /// Free-text query term, when set.
    pub query_term: Option<String>,
    /// URL filter, when set.
    pub url_filter: Option<String>,
    /// Start date filter, when set.
    pub date_from: Option<String>,
    /// End date filter, when set.
    pub date_to: Option<String>,
    /// Whether to include private accessions.
    pub is_private: bool,
}

/// The mathematical view of `NormalizedAccessionQuery`.
pub ghost struct NormalizedAccessionQueryView {
    /// Page number, when set.
    pub page: Option<int>,
    /// Items per page, when set.
    pub per_page: Option<int>,
    /// Language filter.
    pub lang: MetadataLanguage,
    /// Subject ID filter.
    pub metadata_subjects: Seq<i32>,
    /// Whether the subject filter is inclusive.
    pub metadata_subjects_inclusive_filter: bool,
    /// Free-text query term, when set.
    pub query_term: Option<Seq<char>>,
    /// URL filter, when set.
    pub url_filter: Option<Seq<char>>,
    /// Start date filter, when set.
    pub date_from: Option<Seq<char>>,
    /// End date filter, when set.
    pub date_to: Option<Seq<char>>,
    /// Whether to include private accessions.
    pub is_private: bool,
}

impl View for NormalizedAccessionQuery {
    type V = NormalizedAccessionQueryView;

    open spec fn view(&self) -> NormalizedAccessionQueryView {
        NormalizedAccessionQueryView {
            page: match self.page {
                Option::Some(p) => Option::Some(p as int),
                Option::None => Option::None,
            },
            per_page: match self.per_page {
                Option::Some(p) => Option::Some(p as int),
                Option::None => Option::None,
            },
            lang: self.lang,
            metadata_subjects: self.metadata_subjects@,
            metadata_subjects_inclusive_filter: self.metadata_subjects_inclusive_filter,
            query_term: match self.query_term {
                Option::Some(s) => Option::Some(s@),
                Option::None => Option::None,
            },
            url_filter: match self.url_filter {
                Option::Some(s) => Option::Some(s@),
                Option::None => Option::None,
            },
            date_from: match self.date_from {
                Option::Some(s) => Option::Some(s@),
                Option::None => Option::None,
            },
            date_to: match self.date_to {
                Option::Some(s) => Option::Some(s@),
                Option::None => Option::None,
            },
            is_private: self.is_private,
        }
    }
}

/// What normalizing accession listing arguments means: sentinel pagination
/// and empty text fields become absent, everything else passes through.
pub open spec fn normalize_accessions_spec(a: ListAccessionsArgsView) -> NormalizedAccessionQueryView {
    NormalizedAccessionQueryView {
        page: opt_num(a.page),
        per_page: opt_num(a.per_page),
        lang: a.lang,
        metadata_subjects: a.metadata_subjects,
        metadata_subjects_inclusive_filter: a.metadata_subjects_inclusive_filter,
        query_term: opt_text(a.query_term),
        url_filter: opt_text(a.url_filter),
        date_from: opt_text(a.date_from),
        date_to: opt_text(a.date_to),
        is_private: a.is_private,
    }
}

/// The canonical sentinel-encoded argument set of a normalized form: absent
/// fields are written back as the reserved sentinel or the empty string.
pub open spec fn denormalize_accessions_spec(n: NormalizedAccessionQueryView) -> ListAccessionsArgsView {
    ListAccessionsArgsView {
        page: match n.page {
            Option::Some(p) => p,
            Option::None => -1,
        },
        per_page: match n.per_page {
            Option::Some(p) => p,
            Option::None => -1,
        },
        lang: n.lang,
        metadata_subjects: n.metadata_subjects,
        metadata_subjects_inclusive_filter: n.metadata_subjects_inclusive_filter,
        query_term: match n.query_term {
            Option::Some(s) => s,
            Option::None => Seq::empty(),
        },
        url_filter: match n.url_filter {
            Option::Some(s) => s,
            Option::None => Seq::empty(),
        },
        date_from: match n.date_from {
            Option::Some(s) => s,
            Option::None => Seq::empty(),
        },
        date_to: match n.date_to {
            Option::Some(s) => s,
            Option::None => Seq::empty(),
        },
        is_private: n.is_private,
    }
}

/// Resolves the optional fields of accession listing arguments into the
/// unambiguous normalized form. Normalization cannot fail: the arguments are
/// already type-checked when they reach this stage.
pub fn normalize_accession_args(args: ListAccessionsArgs) -> (n: NormalizedAccessionQuery)
    ensures
        n@ == normalize_accessions_spec(args@),
{
    let page = if args.page == -1 {
        Option::None
    } else {
        Option::Some(args.page)
    };
    let per_page = if args.per_page == -1 {
        Option::None
    } else {
        Option::Some(args.per_page)
    };
    let query_term = if args.query_term.as_str().is_empty() {
        Option::None
    } else {
        Option::Some(args.query_term)
    };
    let url_filter = if args.url_filter.as_str().is_empty() {
        Option::None
    } else {
        Option::Some(args.url_filter)
    };
    let date_from = if args.date_from.as_str().is_empty() {
        Option::None
    } else {
        Option::Some(args.date_from)
    };
    let date_to = if args.date_to.as_str().is_empty() {
        Option::None
    } else {
        Option::Some(args.date_to)
    };
    NormalizedAccessionQuery {
        page,
        per_page,
        lang: args.lang,
        metadata_subjects: args.metadata_subjects,
        metadata_subjects_inclusive_filter: args.metadata_subjects_inclusive_filter,
        query_term,
        url_filter,
        date_from,
        date_to,
        is_private: args.is_private,
    }
}

/// Writes a normalized accession query back in its canonical
/// sentinel-encoded argument form: absent fields become the reserved
/// sentinel or the empty string.
pub fn denormalize_accession_args(n: NormalizedAccessionQuery) -> (a: ListAccessionsArgs)
    ensures
        a@ == denormalize_accessions_spec(n@),
{
    ListAccessionsArgs {
        page: match n.page {
            Option::Some(p) => p,
            Option::None => -1,
        },
        per_page: match n.per_page {
            Option::Some(p) => p,
            Option::None => -1,
        },
        lang: n.lang,
        metadata_subjects: n.metadata_subjects,
        metadata_subjects_inclusive_filter: n.metadata_subjects_inclusive_filter,
        query_term: match n.query_term {
            Option::Some(s) => s,
            Option::None => String::new(),
        },
        url_filter: match n.url_filter {
            Option::Some(s) => s,
            Option::None => String::new(),
        },
        date_from: match n.date_from {
            Option::Some(s) => s,
            Option::None => String::new(),
        },
        date_to: match n.date_to {
            Option::Some(s) => s,
            Option::None => String::new(),
        },
        is_private: n.is_private,
    }
}

/// The ordered query parameter sequence of an accession listing: parameters
/// appear in field declaration order, absent fields are omitted.
pub open spec fn accession_query_spec(n: NormalizedAccessionQueryView) -> Seq<
    (Seq<char>, Seq<char>),
> {
    num_param("page"@, n.page) + num_param("per_page"@, n.per_page) + lang_param_optional(n.lang)
        + repeat_param("metadata_subjects"@, n.metadata_subjects) + flag_param(
        "metadata_subjects_inclusive_filter"@,
        n.metadata_subjects_inclusive_filter,
    ) + text_param("query_term"@, n.query_term) + text_param("url_filter"@, n.url_filter)
        + text_param("date_from"@, n.date_from) + text_param("date_to"@, n.date_to) + flag_param(
        "is_private"@,
        n.is_private,
    )
}

/// Builds the ordered query parameter list of an accession listing from its
/// normalized argument form.
pub fn build_accession_query_pairs(n: NormalizedAccessionQuery) -> (q: Vec<(&'static str, String)>)
    ensures
        pairs_view(q@) == accession_query_spec(n@),
{
    let ghost nv = n@;
    let mut q: Vec<(&'static str, String)> = Vec::new();
    push_num_param(&mut q, "page", n.page);
    push_num_param(&mut q, "per_page", n.per_page);
    push_lang_optional(&mut q, n.lang);
    push_repeat_param(&mut q, "metadata_subjects", &n.metadata_subjects);
    push_flag_param(
        &mut q,
        "metadata_subjects_inclusive_filter",
        n.metadata_subjects_inclusive_filter,
    );
    push_text_param(&mut q, "query_term", n.query_term);
    push_text_param(&mut q, "url_filter", n.url_filter);
    push_text_param(&mut q, "date_from", n.date_from);
    push_text_param(&mut q, "date_to", n.date_to);
    push_flag_param(&mut q, "is_private", n.is_private);
    proof {
        assert(pairs_view(q@) =~= accession_query_spec(nv));
    }
    q
}

/// The normalized form of subject listing arguments. The language is
/// mandatory for this operation, so normalization has already replaced an
/// unspecified language by the documented default.
pub struct NormalizedSubjectsQuery {
    /// Page number, when set.
    pub page: Option<i64>,
    /// Items per page, when set.
    pub per_page: Option<i64>,
    /// Language for subjects; never the unspecified variant after
    /// normalization.
    pub lang: MetadataLanguage,
}

/// The mathematical view of `NormalizedSubjectsQuery`.
pub ghost struct NormalizedSubjectsQueryView {
    /// Page number, when set.
    pub page: Option<int>,
    /// Items per page, when set.
    pub per_page: Option<int>,
    /// Language for subjects.
    pub lang: MetadataLanguage,
}

impl View for NormalizedSubjectsQuery {
    type V = NormalizedSubjectsQueryView;

    open spec fn view(&self) -> NormalizedSubjectsQueryView {
        NormalizedSubjectsQueryView {
            page: match self.page {
                Option::Some(p) => Option::Some(p as int),
                Option::None => Option::None,
            },
            per_page: match self.per_page {
                Option::Some(p) => Option::Some(p as int),
                Option::None => Option::None,
            },
            lang: self.lang,
        }
    }
}

/// What normalizing subject listing arguments means: sentinel pagination
/// becomes absent, and an unspecified language falls back to English, the
/// documented default of this operation, rather than being omitted.
pub open spec fn normalize_subjects_spec(a: ListSubjectsArgsView) -> NormalizedSubjectsQueryView {
    NormalizedSubjectsQueryView {
        page: opt_num(a.page),
        per_page: opt_num(a.per_page),
        lang: if a.lang == MetadataLanguage::Unspecified {
            MetadataLanguage::English
        } else {
            a.lang
        },
    }
}

/// The canonical sentinel-encoded argument set of a normalized subjects
/// query.
pub open spec fn denormalize_subjects_spec(n: NormalizedSubjectsQueryView) -> ListSubjectsArgsView {
    ListSubjectsArgsView {
        page: match n.page {
            Option::Some(p) => p,
            Option::None => -1,
        },
        per_page: match n.per_page {
            Option::Some(p) => p,
            Option::None => -1,
        },
        lang: n.lang,
    }
}

/// Resolves the optional fields of subject listing arguments, falling back
/// to English when no language was specified.
pub fn normalize_subjects_args(args: ListSubjectsArgs) -> (n: NormalizedSubjectsQuery)
    ensures
        n@ == normalize_subjects_spec(args@),
{
    let lang = match args.lang {
        MetadataLanguage::Unspecified => MetadataLanguage::English,
        l => l,
    };
    let page = if args.page == -1 {
        Option::None
    } else {
        Option::Some(args.page)
    };
    let per_page = if args.per_page == -1 {
        Option::None
    } else {
        Option::Some(args.per_page)
    };
    NormalizedSubjectsQuery { lang, page, per_page }
}

/// Writes a normalized subjects query back in its canonical
/// sentinel-encoded argument form.
pub fn denormalize_subjects_args(n: NormalizedSubjectsQuery) -> (a: ListSubjectsArgs)
    ensures
        a@ == denormalize_subjects_spec(n@),
{
    ListSubjectsArgs {
        page: match n.page {
            Option::Some(p) => p,
            Option::None => -1,
        },
        per_page: match n.per_page {
            Option::Some(p) => p,
            Option::None => -1,
        },
        lang: n.lang,
    }
}

/// The ordered query parameter sequence of a subject listing: the
/// pagination fields that are set, in declaration order, then the mandatory
/// language.
pub open spec fn subjects_query_spec(n: NormalizedSubjectsQueryView) -> Seq<
    (Seq<char>, Seq<char>),
> {
    num_param("page"@, n.page) + num_param("per_page"@, n.per_page) + lang_param_required(n.lang)
}

/// Builds the ordered query parameter list of a subject listing.
pub fn build_subjects_query_pairs(n: NormalizedSubjectsQuery) -> (q: Vec<(&'static str, String)>)
    ensures
        pairs_view(q@) == subjects_query_spec(n@),
{
    let ghost nv = n@;
    let mut q: Vec<(&'static str, String)> = Vec::new();
    push_num_param(&mut q, "page", n.page);
    push_num_param(&mut q, "per_page", n.per_page);
    push_lang_required(&mut q, n.lang);
    proof {
        assert(pairs_view(q@) =~= subjects_query_spec(nv));
    }
    q
}

/// The normalized form of collection listing arguments.
pub struct NormalizedCollectionQuery {
    /// Page number, when set.
    pub page: Option<i64>,
    /// Items per page, when set.
    pub per_page: Option<i64>,
    /// Language filter; the unspecified variant means "no filter".
    pub lang: MetadataLanguage,
}

/// The mathematical view of `NormalizedCollectionQuery`.
pub ghost struct NormalizedCollectionQueryView {
    /// Page number, when set.
    pub page: Option<int>,
    /// Items per page, when set.
    pub per_page: Option<int>,
    /// Language filter.
    pub lang: MetadataLanguage,
}

impl View for NormalizedCollectionQuery {
    type V = NormalizedCollectionQueryView;

    open spec fn view(&self) -> NormalizedCollectionQueryView {
        NormalizedCollectionQueryView {
            page: match self.page {
                Option::Some(p) => Option::Some(p as int),
                Option::None => Option::None,
            },
            per_page: match self.per_page {
                Option::Some(p) => Option::Some(p as int),
                Option::None => Option::None,
            },
            lang: self.lang,
        }
    }
}

/// What normalizing collection listing arguments means.
pub open spec fn normalize_collections_spec(a: ListCollectionsArgsView) -> NormalizedCollectionQueryView {
    NormalizedCollectionQueryView {
        page: opt_num(a.page),
        per_page: opt_num(a.per_page),
        lang: a.lang,
    }
}

/// The canonical sentinel-encoded argument set of a normalized collections
/// query.
pub open spec fn denormalize_collections_spec(n: NormalizedCollectionQueryView) -> ListCollectionsArgsView {
    ListCollectionsArgsView {
        page: match n.page {
            Option::Some(p) => p,
            Option::None => -1,
        },
        per_page: match n.per_page {
            Option::Some(p) => p,
            Option::None => -1,
        },
        lang: n.lang,
    }
}

/// Resolves the optional fields of collection listing arguments.
pub fn normalize_collection_args(args: ListCollectionsArgs) -> (n: NormalizedCollectionQuery)
    ensures
        n@ == normalize_collections_spec(args@),
{
    let page = if args.page == -1 {
        Option::None
    } else {
        Option::Some(args.page)
    };
    let per_page = if args.per_page == -1 {
        Option::None
    } else {
        Option::Some(args.per_page)
    };
    NormalizedCollectionQuery { page, per_page, lang: args.lang }
}

/// The ordered query parameter sequence of a collection listing.
pub open spec fn collections_query_spec(n: NormalizedCollectionQueryView) -> Seq<
    (Seq<char>, Seq<char>),
> {
    num_param("page"@, n.page) + num_param("per_page"@, n.per_page) + lang_param_optional(n.lang)
}

/// Builds the ordered query parameter list of a collection listing.
pub fn build_collections_query_pairs(n: NormalizedCollectionQuery) -> (q: Vec<
    (&'static str, String),
>)
    ensures
        pairs_view(q@) == collections_query_spec(n@),
{
    let ghost nv = n@;
    let mut q: Vec<(&'static str, String)> = Vec::new();
    push_num_param(&mut q, "page", n.page);
    push_num_param(&mut q, "per_page", n.per_page);
    push_lang_optional(&mut q, n.lang);
    proof {
        assert(pairs_view(q@) =~= collections_query_spec(nv));
    }
    q
}

/// The normalized form of private collection listing arguments. The public
/// flag is exempt from flag pruning: this operation always sends it
/// explicitly.
pub struct NormalizedPrivateCollectionQuery {
    /// Page number, when set.
    pub page: Option<i64>,
    /// Items per page, when set.
    pub per_page: Option<i64>,
    /// Language filter; the unspecified variant means "no filter".
    pub lang: MetadataLanguage,
    /// Filter by public status; always sent.
    pub is_public: bool,
}

/// The mathematical view of `NormalizedPrivateCollectionQuery`.
pub ghost struct NormalizedPrivateCollectionQueryView {
    /// Page number, when set.
    pub page: Option<int>,
    /// Items per page, when set.
    pub per_page: Option<int>,
    /// Language filter.
    pub lang: MetadataLanguage,
    /// Filter by public status.
    pub is_public: bool,
}

impl View for NormalizedPrivateCollectionQuery {
    type V = NormalizedPrivateCollectionQueryView;

    open spec fn view(&self) -> NormalizedPrivateCollectionQueryView {
        NormalizedPrivateCollectionQueryView {
            page: match self.page {
                Option::Some(p) => Option::Some(p as int),
                Option::None => Option::None,
            },
            per_page: match self.per_page {
                Option::Some(p) => Option::Some(p as int),
                Option::None => Option::None,
            },
            lang: self.lang,
            is_public: self.is_public,
        }
    }
}

/// What normalizing private collection listing arguments means.
pub open spec fn normalize_private_collections_spec(
    a: ListPrivateCollectionsArgsView,
) -> NormalizedPrivateCollectionQueryView {
    NormalizedPrivateCollectionQueryView {
        page: opt_num(a.page),
        per_page: opt_num(a.per_page),
        lang: a.lang,
        is_public: a.is_public,
    }
}

/// The canonical sentinel-encoded argument set of a normalized private
/// collections query.
pub open spec fn denormalize_private_collections_spec(
    n: NormalizedPrivateCollectionQueryView,
) -> ListPrivateCollectionsArgsView {
    ListPrivateCollectionsArgsView {
        page: match n.page {
            Option::Some(p) => p,
            Option::None => -1,
        },
        per_page: match n.per_page {
            Option::Some(p) => p,
            Option::None => -1,
        },
        lang: n.lang,
        is_public: n.is_public,
    }
}

/// Resolves the optional fields of private collection listing arguments.
pub fn normalize_private_collection_args(args: ListPrivateCollectionsArgs) -> (n:
    NormalizedPrivateCollectionQuery)
    ensures
        n@ == normalize_private_collections_spec(args@),
{
    let page = if args.page == -1 {
        Option::None
    } else {
        Option::Some(args.page)
    };
    let per_page = if args.per_page == -1 {
        Option::None
    } else {
        Option::Some(args.per_page)
    };
    NormalizedPrivateCollectionQuery { page, per_page, lang: args.lang, is_public: args.is_public }
}

/// The ordered query parameter sequence of a private collection listing: the
/// optional fields in declaration order, then the always-sent public flag.
pub open spec fn private_collections_query_spec(
    n: NormalizedPrivateCollectionQueryView,
) -> Seq<(Seq<char>, Seq<char>)> {
    num_param("page"@, n.page) + num_param("per_page"@, n.per_page) + lang_param_optional(n.lang)
        + bool_param("is_public"@, n.is_public)
}

/// Builds the ordered query parameter list of a private collection listing.
pub fn build_private_collections_query_pairs(n: NormalizedPrivateCollectionQuery) -> (q: Vec<
    (&'static str, String),
>)
    ensures
        pairs_view(q@) == private_collections_query_spec(n@),
{
    let ghost nv = n@;
    let mut q: Vec<(&'static str, String)> = Vec::new();
    push_num_param(&mut q, "page", n.page);
    push_num_param(&mut q, "per_page", n.per_page);
    push_lang_optional(&mut q, n.lang);
    push_bool_param(&mut q, "is_public", n.is_public);
    proof {
        assert(pairs_view(q@) =~= private_collections_query_spec(nv));
    }
    q
}

/// The query parameter sequence of a single-item fetch: only the optional
/// language filter.
pub open spec fn lang_query_spec(lang: MetadataLanguage) -> Seq<(Seq<char>, Seq<char>)> {
    lang_param_optional(lang)
}

/// Builds the query parameter list of a single-item fetch with an optional
/// language filter.
pub fn build_lang_query_pairs(lang: MetadataLanguage) -> (q: Vec<(&'static str, String)>)
    ensures
        pairs_view(q@) == lang_query_spec(lang),
{
    let mut q: Vec<(&'static str, String)> = Vec::new();
    push_lang_optional(&mut q, lang);
    proof {
        assert(pairs_view(q@) =~= lang_query_spec(lang));
    }
    q
}

/// Appends the segment of an optional numeric field.
fn push_num_param(q: &mut Vec<(&'static str, String)>, name: &'static str, v: Option<i64>)
    ensures
        pairs_view(final(q)@) == pairs_view(old(q)@) + num_param(name@, match v {
            Option::Some(p) => Option::Some(p as int),
            Option::None => Option::None,
        }),
{
    match v {
        Option::Some(p) => {
            q.push((name, i64_to_string(p)));
            proof {
                assert(pairs_view(q@) =~= pairs_view(old(q)@) + seq![(name@, dec_int(p as int))]);
            }
        },
        Option::None => {
            proof {
                assert(pairs_view(q@) =~= pairs_view(old(q)@) + Seq::empty());
            }
        },
    }
}

/// Appends the segment of an optional language filter.
fn push_lang_optional(q: &mut Vec<(&'static str, String)>, lang: MetadataLanguage)
    ensures
        pairs_view(final(q)@) == pairs_view(old(q)@) + lang_param_optional(lang),
{
    match lang {
        MetadataLanguage::English => {
            q.push(("lang", String::from_str("english")));
            proof {
                assert(pairs_view(q@) =~= pairs_view(old(q)@) + lang_param_optional(lang));
            }
        },
        MetadataLanguage::Arabic => {
            q.push(("lang", String::from_str("arabic")));
            proof {
                assert(pairs_view(q@) =~= pairs_view(old(q)@) + lang_param_optional(lang));
            }
        },
        MetadataLanguage::Unspecified => {
            proof {
                assert(pairs_view(q@) =~= pairs_view(old(q)@) + lang_param_optional(lang));
            }
        },
    }
}

/// Appends the segment of a required language, defaulting an unspecified
/// language to English.
fn push_lang_required(q: &mut Vec<(&'static str, String)>, lang: MetadataLanguage)
    ensures
        pairs_view(final(q)@) == pairs_view(old(q)@) + lang_param_required(lang),
{
    match lang {
        MetadataLanguage::Arabic => {
            q.push(("lang", String::from_str("arabic")));
        },
        _ => {
            q.push(("lang", String::from_str("english")));
        },
    }
    proof {
        assert(pairs_view(q@) =~= pairs_view(old(q)@) + lang_param_required(lang));
    }
}

/// Appends the segment of a list field, one repeated parameter per element.
fn push_repeat_param(q: &mut Vec<(&'static str, String)>, name: &'static str, ids: &Vec<i32>)
    ensures
        pairs_view(final(q)@) == pairs_view(old(q)@) + repeat_param(name@, ids@),
{
    let ghost base = pairs_view(q@);
    let mut i: usize = 0;
    while i < ids.len()
        invariant
            i <= ids.len(),
            pairs_view(q@) == base + repeat_param(name@, ids@).take(i as int),
        decreases ids.len() - i,
    {
        let ghost qpre = q@;
        let s = i32_to_string(ids[i]);
        let ghost sv = s@;
        q.push((name, s));
        proof {
            assert(pairs_view(q@) =~= pairs_view(qpre).push((name@, sv)));
            assert(sv == dec_int(ids@[i as int] as int));
            assert(repeat_param(name@, ids@).take(i + 1) =~= repeat_param(name@, ids@).take(
                i as int,
            ).push((name@, dec_int(ids@[i as int] as int))));
        }
        i = i + 1;
        proof {
            assert(pairs_view(q@) =~= base + repeat_param(name@, ids@).take(i as int));
        }
    }
    proof {
        assert(repeat_param(name@, ids@).take(ids@.len() as int) =~= repeat_param(name@, ids@));
        assert(pairs_view(q@) =~= base + repeat_param(name@, ids@));
    }
}

/// Appends the segment of a boolean flag.
fn push_flag_param(q: &mut Vec<(&'static str, String)>, name: &'static str, b: bool)
    ensures
        pairs_view(final(q)@) == pairs_view(old(q)@) + flag_param(name@, b),
{
    if b {
        q.push((name, String::from_str("true")));
    }
    proof {
        assert(pairs_view(q@) =~= pairs_view(old(q)@) + flag_param(name@, b));
    }
}

/// Appends the segment of an always-sent boolean.
fn push_bool_param(q: &mut Vec<(&'static str, String)>, name: &'static str, b: bool)
    ensures
        pairs_view(final(q)@) == pairs_view(old(q)@) + bool_param(name@, b),
{
    if b {
        q.push((name, String::from_str("true")));
    } else {
        q.push((name, String::from_str("false")));
    }
    proof {
        assert(pairs_view(q@) =~= pairs_view(old(q)@) + bool_param(name@, b));
    }
}

/// Appends the segment of an optional free-text field.
fn push_text_param(q: &mut Vec<(&'static str, String)>, name: &'static str, v: Option<String>)
    ensures
        pairs_view(final(q)@) == pairs_view(old(q)@) + text_param(name@, match v {
            Option::Some(s) => Option::Some(s@),
            Option::None => Option::None,
        }),
{
    match v {
        Option::Some(s) => {
            let ghost sv = s@;
            q.push((name, s));
            proof {
                assert(pairs_view(q@) =~= pairs_view(old(q)@) + seq![(name@, sv)]);
            }
        },
        Option::None => {
            proof {
                assert(pairs_view(q@) =~= pairs_view(old(q)@) + Seq::empty());
            }
        },
    }
}

} // verus!
