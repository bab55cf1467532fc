//! Proved properties of normalization and query building.
//!
//! Each public proof function here states a law of the adapter over the spec
//! functions of the query module, for every argument set the law speaks of.

use vstd::prelude::*;
use crate::model::{
    ListAccessionsArgsView, ListCollectionsArgsView, ListPrivateCollectionsArgsView,
    ListSubjectsArgsView, MetadataLanguage,
};
use crate::numfmt::dec_int;
use crate::query::{
    accession_query_spec, bool_param, collections_query_spec, denormalize_accessions_spec,
    denormalize_collections_spec, denormalize_private_collections_spec,
    denormalize_subjects_spec, flag_param, lang_param_optional, lang_param_required, lang_value,
    normalize_accessions_spec, normalize_collections_spec, normalize_private_collections_spec,
    normalize_subjects_spec, num_param, private_collections_query_spec, repeat_param,
    subjects_query_spec, text_param, NormalizedAccessionQueryView,
};

verus! {

/// How many parameters of a built query sequence carry a given name.
pub open spec fn count_named(q: Seq<(Seq<char>, Seq<char>)>, name: Seq<char>) -> nat
    decreases q.len(),
{
    if q.len() == 0 {
        0
    } else {
        count_named(q.drop_last(), name) + if q.last().0 == name {
            1nat
        } else {
            0nat
        }
    }
}

/// Counting a name in a concatenation counts it in both halves.
proof fn lemma_count_named_concat(
    a: Seq<(Seq<char>, Seq<char>)>,
    b: Seq<(Seq<char>, Seq<char>)>,
    name: Seq<char>,
)
    ensures
        count_named(a + b, name) == count_named(a, name) + count_named(b, name),
    decreases b.len(),
{
    if b.len() == 0 {
        assert(a + b =~= a);
    } else {
        lemma_count_named_concat(a, b.drop_last(), name);
        assert((a + b).drop_last() =~= a + b.drop_last());
        assert((a + b).last() == b.last());
    }
}

/// A sequence none of whose parameters carry a name counts it zero times.
proof fn lemma_count_named_none(q: Seq<(Seq<char>, Seq<char>)>, name: Seq<char>)
    requires
        forall|i: int| 0 <= i < q.len() ==> (#[trigger] q[i]).0 != name,
    ensures
        count_named(q, name) == 0,
    decreases q.len(),
{
    if q.len() > 0 {
        assert forall|i: int|
            0 <= i < q.drop_last().len() implies (#[trigger] q.drop_last()[i]).0 != name by {
            assert(q.drop_last()[i] == q[i]);
        }
        lemma_count_named_none(q.drop_last(), name);
        assert(q.last() == q[q.len() - 1]);
    }
}

/// Counting in a singleton sequence.
proof fn lemma_count_named_singleton(p: (Seq<char>, Seq<char>), name: Seq<char>)
    ensures
        count_named(seq![p], name) == if p.0 == name {
            1nat
        } else {
            0nat
        },
{
    assert(seq![p].drop_last() =~= Seq::<(Seq<char>, Seq<char>)>::empty());
    assert(count_named(Seq::<(Seq<char>, Seq<char>)>::empty(), name) == 0);
    assert(seq![p].last() == p);
}

/// The query parameter names in use are pairwise distinct words.
proof fn lemma_query_key_literals_distinct()
    ensures
        "page"@ != "per_page"@,
        "lang"@ != "page"@,
        "lang"@ != "per_page"@,
        "metadata_subjects"@ != "page"@,
        "metadata_subjects"@ != "per_page"@,
        "metadata_subjects"@ != "lang"@,
        "metadata_subjects_inclusive_filter"@ != "page"@,
        "metadata_subjects_inclusive_filter"@ != "per_page"@,
        "metadata_subjects_inclusive_filter"@ != "lang"@,
        "query_term"@ != "page"@,
        "query_term"@ != "per_page"@,
        "query_term"@ != "lang"@,
        "url_filter"@ != "page"@,
        "url_filter"@ != "per_page"@,
        "url_filter"@ != "lang"@,
        "date_from"@ != "page"@,
        "date_from"@ != "per_page"@,
        "date_from"@ != "lang"@,
        "date_to"@ != "page"@,
        "date_to"@ != "per_page"@,
        "date_to"@ != "lang"@,
        "is_private"@ != "page"@,
        "is_private"@ != "per_page"@,
        "is_private"@ != "lang"@,
        "is_public"@ != "page"@,
        "is_public"@ != "per_page"@,
        "is_public"@ != "lang"@,
{
    reveal_strlit("page");
    reveal_strlit("per_page");
    reveal_strlit("lang");
    reveal_strlit("metadata_subjects");
    reveal_strlit("metadata_subjects_inclusive_filter");
    reveal_strlit("query_term");
    reveal_strlit("url_filter");
    reveal_strlit("date_from");
    reveal_strlit("date_to");
    reveal_strlit("is_private");
    reveal_strlit("is_public");
    assert("page"@.len() == 4);
    assert("per_page"@.len() == 8);
    assert("lang"@.len() == 4);
    assert("metadata_subjects"@.len() == 17);
    assert("metadata_subjects_inclusive_filter"@.len() == 34);
    assert("query_term"@.len() == 10);
    assert("url_filter"@.len() == 10);
    assert("date_from"@.len() == 9);
    assert("date_to"@.len() == 7);
    assert("is_private"@.len() == 10);
    assert("is_public"@.len() == 9);
    assert("page"@[0] == 'p');
    assert("lang"@[0] == 'l');
}

/// The count of a name over the accession query sequence is the sum of the
/// counts over its ten segments.
proof fn lemma_accession_count(n: NormalizedAccessionQueryView, name: Seq<char>)
    ensures
        count_named(accession_query_spec(n), name) == count_named(
            num_param("page"@, n.page),
            name,
        ) + count_named(num_param("per_page"@, n.per_page), name) + count_named(
            lang_param_optional(n.lang),
            name,
        ) + count_named(repeat_param("metadata_subjects"@, n.metadata_subjects), name)
            + count_named(
            flag_param(
                "metadata_subjects_inclusive_filter"@,
                n.metadata_subjects_inclusive_filter,
            ),
            name,
        ) + count_named(text_param("query_term"@, n.query_term), name) + count_named(
            text_param("url_filter"@, n.url_filter),
            name,
        ) + count_named(text_param("date_from"@, n.date_from), name) + count_named(
            text_param("date_to"@, n.date_to),
            name,
        ) + count_named(flag_param("is_private"@, n.is_private), name),
{
    let s1 = num_param("page"@, n.page);
    let s2 = num_param("per_page"@, n.per_page);
    let s3 = lang_param_optional(n.lang);
    let s4 = repeat_param("metadata_subjects"@, n.metadata_subjects);
    let s5 = flag_param(
        "metadata_subjects_inclusive_filter"@,
        n.metadata_subjects_inclusive_filter,
    );
    let s6 = text_param("query_term"@, n.query_term);
    let s7 = text_param("url_filter"@, n.url_filter);
    let s8 = text_param("date_from"@, n.date_from);
    let s9 = text_param("date_to"@, n.date_to);
    let s10 = flag_param("is_private"@, n.is_private);
    lemma_count_named_concat(s1, s2, name);
    lemma_count_named_concat(s1 + s2, s3, name);
    lemma_count_named_concat(s1 + s2 + s3, s4, name);
    lemma_count_named_concat(s1 + s2 + s3 + s4, s5, name);
    lemma_count_named_concat(s1 + s2 + s3 + s4 + s5, s6, name);
    lemma_count_named_concat(s1 + s2 + s3 + s4 + s5 + s6, s7, name);
    lemma_count_named_concat(s1 + s2 + s3 + s4 + s5 + s6 + s7, s8, name);
    lemma_count_named_concat(s1 + s2 + s3 + s4 + s5 + s6 + s7 + s8, s9, name);
    lemma_count_named_concat(s1 + s2 + s3 + s4 + s5 + s6 + s7 + s8 + s9, s10, name);
}

/// A numeric segment counts zero for any name other than its own, and its
/// own name exactly when the field is set.
proof fn lemma_count_num_param(name: Seq<char>, v: Option<int>, other: Seq<char>)
    requires
        name != other,
    ensures
        count_named(num_param(name, v), other) == 0,
        count_named(num_param(name, v), name) == match v {
            Option::Some(_) => 1nat,
            Option::None => 0nat,
        },
{
    match v {
        Option::Some(p) => {
            lemma_count_named_singleton((name, dec_int(p)), other);
            lemma_count_named_singleton((name, dec_int(p)), name);
        },
        Option::None => {},
    }
}

/// A text segment counts zero for any name other than its own.
proof fn lemma_count_text_param(name: Seq<char>, v: Option<Seq<char>>, other: Seq<char>)
    requires
        name != other,
    ensures
        count_named(text_param(name, v), other) == 0,
{
    match v {
        Option::Some(s) => {
            lemma_count_named_singleton((name, s), other);
        },
        Option::None => {},
    }
}

/// A flag segment counts zero for any name other than its own.
proof fn lemma_count_flag_param(name: Seq<char>, b: bool, other: Seq<char>)
    requires
        name != other,
    ensures
        count_named(flag_param(name, b), other) == 0,
{
    if b {
        lemma_count_named_singleton((name, "true"@), other);
    }
}

/// A repeated segment counts zero for any name other than its own.
proof fn lemma_count_repeat_param(name: Seq<char>, ids: Seq<i32>, other: Seq<char>)
    requires
        name != other,
    ensures
        count_named(repeat_param(name, ids), other) == 0,
{
    let s = repeat_param(name, ids);
    assert(forall|i: int| 0 <= i < s.len() ==> (#[trigger] s[i]).0 != other);
    lemma_count_named_none(s, other);
}

/// The optional language segment counts zero for any name other than `lang`,
/// and counts `lang` once exactly when the language is concrete.
proof fn lemma_count_lang_optional(lang: MetadataLanguage, other: Seq<char>)
    requires
        "lang"@ != other,
    ensures
        count_named(lang_param_optional(lang), other) == 0,
        count_named(lang_param_optional(lang), "lang"@) == (
        if lang == MetadataLanguage::Unspecified {
            0nat
        } else {
            1nat
        }),
{
    match lang {
        MetadataLanguage::Unspecified => {},
        _ => {
            lemma_count_named_singleton(("lang"@, lang_value(lang)), other);
            lemma_count_named_singleton(("lang"@, lang_value(lang)), "lang"@);
        },
    }
}

/// Brings the per-segment count facts for one name over the accession query
/// sequence of a normalized argument set.
proof fn lemma_accession_segment_counts(n: NormalizedAccessionQueryView, other: Seq<char>)
    requires
        other == "page"@ || other == "per_page"@ || other == "lang"@,
    ensures
        count_named(lang_param_optional(n.lang), "lang"@) == (
        if n.lang == MetadataLanguage::Unspecified {
            0nat
        } else {
            1nat
        }),
        other != "lang"@ ==> count_named(lang_param_optional(n.lang), other) == 0,
        other != "page"@ ==> count_named(num_param("page"@, n.page), other) == 0,
        other != "per_page"@ ==> count_named(num_param("per_page"@, n.per_page), other) == 0,
        count_named(num_param("page"@, n.page), "page"@) == match n.page {
            Option::Some(_) => 1nat,
            Option::None => 0nat,
        },
        count_named(num_param("per_page"@, n.per_page), "per_page"@) == match n.per_page {
            Option::Some(_) => 1nat,
            Option::None => 0nat,
        },
        count_named(repeat_param("metadata_subjects"@, n.metadata_subjects), other) == 0,
        count_named(
            flag_param(
                "metadata_subjects_inclusive_filter"@,
                n.metadata_subjects_inclusive_filter,
            ),
            other,
        ) == 0,
        count_named(text_param("query_term"@, n.query_term), other) == 0,
        count_named(text_param("url_filter"@, n.url_filter), other) == 0,
        count_named(text_param("date_from"@, n.date_from), other) == 0,
        count_named(text_param("date_to"@, n.date_to), other) == 0,
        count_named(flag_param("is_private"@, n.is_private), other) == 0,
{
    lemma_query_key_literals_distinct();
    lemma_count_num_param("page"@, n.page, if other == "page"@ {
        "per_page"@
    } else {
        other
    });
    lemma_count_num_param("per_page"@, n.per_page, if other == "per_page"@ {
        "page"@
    } else {
        other
    });
    lemma_count_lang_optional(n.lang, if other == "lang"@ {
        "page"@
    } else {
        other
    });
    lemma_count_repeat_param("metadata_subjects"@, n.metadata_subjects, other);
    lemma_count_flag_param(
        "metadata_subjects_inclusive_filter"@,
        n.metadata_subjects_inclusive_filter,
        other,
    );
    lemma_count_text_param("query_term"@, n.query_term, other);
    lemma_count_text_param("url_filter"@, n.url_filter, other);
    lemma_count_text_param("date_from"@, n.date_from, other);
    lemma_count_text_param("date_to"@, n.date_to, other);
    lemma_count_flag_param("is_private"@, n.is_private, other);
}

/// With both pagination arguments equal to the reserved unset sentinel, the
/// built accession query sequence contains neither a `page` nor a `per_page`
/// parameter.
pub proof fn lemma_unset_pagination_omitted(a: ListAccessionsArgsView)
    requires
        a.page == -1,
        a.per_page == -1,
    ensures
        count_named(accession_query_spec(normalize_accessions_spec(a)), "page"@) == 0,
        count_named(accession_query_spec(normalize_accessions_spec(a)), "per_page"@) == 0,
{
    lemma_query_key_literals_distinct();
    let n = normalize_accessions_spec(a);
    lemma_accession_count(n, "page"@);
    lemma_accession_count(n, "per_page"@);
    lemma_accession_segment_counts(n, "page"@);
    lemma_accession_segment_counts(n, "per_page"@);
}

/// An always-sent boolean segment counts zero for any name other than its
/// own.
proof fn lemma_count_bool_param(name: Seq<char>, b: bool, other: Seq<char>)
    requires
        name != other,
    ensures
        count_named(bool_param(name, b), other) == 0,
{
    if b {
        lemma_count_named_singleton((name, "true"@), other);
    } else {
        lemma_count_named_singleton((name, "false"@), other);
    }
}

/// With both pagination arguments equal to the reserved unset sentinel, the
/// built collection query sequence contains neither a `page` nor a
/// `per_page` parameter.
pub proof fn lemma_unset_pagination_omitted_collections(a: ListCollectionsArgsView)
    requires
        a.page == -1,
        a.per_page == -1,
    ensures
        count_named(collections_query_spec(normalize_collections_spec(a)), "page"@) == 0,
        count_named(collections_query_spec(normalize_collections_spec(a)), "per_page"@) == 0,
{
    lemma_query_key_literals_distinct();
    let n = normalize_collections_spec(a);
    let s1 = num_param("page"@, n.page);
    let s2 = num_param("per_page"@, n.per_page);
    let s3 = lang_param_optional(n.lang);
    lemma_count_named_concat(s1, s2, "page"@);
    lemma_count_named_concat(s1 + s2, s3, "page"@);
    lemma_count_named_concat(s1, s2, "per_page"@);
    lemma_count_named_concat(s1 + s2, s3, "per_page"@);
    lemma_count_num_param("page"@, n.page, "per_page"@);
    lemma_count_num_param("per_page"@, n.per_page, "page"@);
    lemma_count_lang_optional(n.lang, "page"@);
    lemma_count_lang_optional(n.lang, "per_page"@);
}

/// With both pagination arguments equal to the reserved unset sentinel, the
/// built private collection query sequence contains neither a `page` nor a
/// `per_page` parameter (the always-sent public flag remains).
pub proof fn lemma_unset_pagination_omitted_private_collections(
    a: ListPrivateCollectionsArgsView,
)
    requires
        a.page == -1,
        a.per_page == -1,
    ensures
        count_named(
            private_collections_query_spec(normalize_private_collections_spec(a)),
            "page"@,
        ) == 0,
        count_named(
            private_collections_query_spec(normalize_private_collections_spec(a)),
            "per_page"@,
        ) == 0,
{
    lemma_query_key_literals_distinct();
    let n = normalize_private_collections_spec(a);
    let s1 = num_param("page"@, n.page);
    let s2 = num_param("per_page"@, n.per_page);
    let s3 = lang_param_optional(n.lang);
    let s4 = bool_param("is_public"@, n.is_public);
    lemma_count_named_concat(s1, s2, "page"@);
    lemma_count_named_concat(s1 + s2, s3, "page"@);
    lemma_count_named_concat(s1 + s2 + s3, s4, "page"@);
    lemma_count_named_concat(s1, s2, "per_page"@);
    lemma_count_named_concat(s1 + s2, s3, "per_page"@);
    lemma_count_named_concat(s1 + s2 + s3, s4, "per_page"@);
    lemma_count_num_param("page"@, n.page, "per_page"@);
    lemma_count_num_param("per_page"@, n.per_page, "page"@);
    lemma_count_lang_optional(n.lang, "page"@);
    lemma_count_lang_optional(n.lang, "per_page"@);
    lemma_count_bool_param("is_public"@, n.is_public, "page"@);
    lemma_count_bool_param("is_public"@, n.is_public, "per_page"@);
}

/// With both pagination arguments equal to the reserved unset sentinel, the
/// built subject query sequence contains neither a `page` nor a `per_page`
/// parameter (the mandatory language remains).
pub proof fn lemma_unset_pagination_omitted_subjects(a: ListSubjectsArgsView)
    requires
        a.page == -1,
        a.per_page == -1,
    ensures
        count_named(subjects_query_spec(normalize_subjects_spec(a)), "page"@) == 0,
        count_named(subjects_query_spec(normalize_subjects_spec(a)), "per_page"@) == 0,
{
    lemma_query_key_literals_distinct();
    let n = normalize_subjects_spec(a);
    let s1 = num_param("page"@, n.page);
    let s2 = num_param("per_page"@, n.per_page);
    let s3 = lang_param_required(n.lang);
    lemma_count_named_concat(s1, s2, "page"@);
    lemma_count_named_concat(s1 + s2, s3, "page"@);
    lemma_count_named_concat(s1, s2, "per_page"@);
    lemma_count_named_concat(s1 + s2, s3, "per_page"@);
    lemma_count_named_singleton(("lang"@, lang_value(n.lang)), "page"@);
    lemma_count_named_singleton(("lang"@, lang_value(n.lang)), "per_page"@);
    lemma_count_num_param("page"@, n.page, "per_page"@);
    lemma_count_num_param("per_page"@, n.per_page, "page"@);
}

/// With concrete pagination arguments and every other field unset, the built
/// accession query sequence is exactly the page parameter followed by the
/// per-page parameter.
pub proof fn lemma_concrete_pagination_exact(a: ListAccessionsArgsView)
    requires
        a.page != -1,
        a.per_page != -1,
        a.lang == MetadataLanguage::Unspecified,
        a.metadata_subjects.len() == 0,
        !a.metadata_subjects_inclusive_filter,
        a.query_term.len() == 0,
        a.url_filter.len() == 0,
        a.date_from.len() == 0,
        a.date_to.len() == 0,
        !a.is_private,
    ensures
        accession_query_spec(normalize_accessions_spec(a)) == seq![
            ("page"@, dec_int(a.page)),
            ("per_page"@, dec_int(a.per_page)),
        ],
{
    let n = normalize_accessions_spec(a);
    assert(repeat_param("metadata_subjects"@, n.metadata_subjects) =~= Seq::<
        (Seq<char>, Seq<char>),
    >::empty());
    assert(accession_query_spec(n) =~= seq![
        ("page"@, dec_int(a.page)),
        ("per_page"@, dec_int(a.per_page)),
    ]);
}

/// With the language set to Arabic, the built accession query sequence
/// contains exactly one `lang` parameter, and every `lang` parameter in it
/// carries the value `arabic`.
pub proof fn lemma_lang_arabic_exactly_one(a: ListAccessionsArgsView)
    requires
        a.lang == MetadataLanguage::Arabic,
    ensures
        count_named(accession_query_spec(normalize_accessions_spec(a)), "lang"@) == 1,
        forall|i: int|
            0 <= i < accession_query_spec(normalize_accessions_spec(a)).len() && (
            #[trigger] accession_query_spec(normalize_accessions_spec(a))[i]).0 == "lang"@
                ==> accession_query_spec(normalize_accessions_spec(a))[i].1 == "arabic"@,
{
    let n = normalize_accessions_spec(a);
    lemma_accession_count(n, "lang"@);
    lemma_accession_segment_counts(n, "lang"@);
    lemma_query_key_literals_distinct();
    let q = accession_query_spec(n);
    let s4 = repeat_param("metadata_subjects"@, n.metadata_subjects);
    assert(forall|j: int| 0 <= j < s4.len() ==> (#[trigger] s4[j]).0 == "metadata_subjects"@);
    assert forall|i: int|
        0 <= i < q.len() && (#[trigger] q[i]).0 == "lang"@ implies q[i].1 == "arabic"@ by {
        assert(lang_param_optional(n.lang) == seq![("lang"@, "arabic"@)]);
    }
}

/// With the language unspecified on an operation whose language filter is
/// optional, the built accession query sequence contains no `lang` parameter
/// at all.
pub proof fn lemma_lang_unspecified_omitted(a: ListAccessionsArgsView)
    requires
        a.lang == MetadataLanguage::Unspecified,
    ensures
        count_named(accession_query_spec(normalize_accessions_spec(a)), "lang"@) == 0,
{
    lemma_query_key_literals_distinct();
    let n = normalize_accessions_spec(a);
    lemma_accession_count(n, "lang"@);
    lemma_accession_segment_counts(n, "lang"@);
}

/// On the subject listing, whose language is mandatory, an unspecified
/// language is not omitted: the built sequence carries exactly one `lang`
/// parameter, placed last after the pagination fields, with the documented
/// default value `english`.
pub proof fn lemma_required_lang_fallback(a: ListSubjectsArgsView)
    requires
        a.lang == MetadataLanguage::Unspecified,
    ensures
        subjects_query_spec(normalize_subjects_spec(a)).len() >= 1,
        subjects_query_spec(normalize_subjects_spec(a)).last() == ("lang"@, "english"@),
        count_named(subjects_query_spec(normalize_subjects_spec(a)), "lang"@) == 1,
{
    let n = normalize_subjects_spec(a);
    let s1 = num_param("page"@, n.page);
    let s2 = num_param("per_page"@, n.per_page);
    let s3 = lang_param_required(n.lang);
    lemma_query_key_literals_distinct();
    lemma_count_named_concat(s1, s2, "lang"@);
    lemma_count_named_concat(s1 + s2, s3, "lang"@);
    lemma_count_named_singleton(("lang"@, lang_value(n.lang)), "lang"@);
    lemma_count_num_param("page"@, n.page, "lang"@);
    lemma_count_num_param("per_page"@, n.per_page, "lang"@);
    assert(subjects_query_spec(n).last() == s3[0]);
}

/// Normalizing an already-normalized accession argument set is a no-op: the
/// canonical sentinel encoding of a normalized form normalizes back to the
/// same form.
pub proof fn lemma_normalize_accessions_idempotent(a: ListAccessionsArgsView)
    ensures
        normalize_accessions_spec(denormalize_accessions_spec(normalize_accessions_spec(a)))
            == normalize_accessions_spec(a),
{
}

/// Normalizing an already-normalized subject argument set is a no-op; in
/// particular the language fallback is stable.
pub proof fn lemma_normalize_subjects_idempotent(a: ListSubjectsArgsView)
    ensures
        normalize_subjects_spec(denormalize_subjects_spec(normalize_subjects_spec(a)))
            == normalize_subjects_spec(a),
{
}

/// Normalizing an already-normalized collection argument set is a no-op.
pub proof fn lemma_normalize_collections_idempotent(a: ListCollectionsArgsView)
    ensures
        normalize_collections_spec(denormalize_collections_spec(normalize_collections_spec(a)))
            == normalize_collections_spec(a),
{
}

/// Normalizing an already-normalized private collection argument set is a
/// no-op.
pub proof fn lemma_normalize_private_collections_idempotent(a: ListPrivateCollectionsArgsView)
    ensures
        normalize_private_collections_spec(
            denormalize_private_collections_spec(normalize_private_collections_spec(a)),
        ) == normalize_private_collections_spec(a),
{
}

} // verus!
