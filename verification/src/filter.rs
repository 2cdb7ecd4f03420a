//! The filter pipeline: the pure predicate deciding which records are
//! worth downloading, and the accepted subset of a page.

use vstd::prelude::*;

use crate::config::Config;
use crate::rating::spec_allows;
use crate::record::Record;
use crate::record::rating_of_code;
use crate::record::spec_rating_of_code;
use crate::text::contains_token;
use crate::text::has_token;

verus! {

/// The record passes the cheap leading filters: it has a file URL and an
/// extension and its aspect ratio is within tolerance. Only such records
/// have their rating code examined at all.
pub open spec fn reaches_rating_check(rec: Record, config: Config) -> bool {
    &&& rec.file_url is Some
    &&& rec.file_ext is Some
    &&& config.spec_tolerated(rec.image_width as int, rec.image_height as int)
}

/// The record's rating code is one of the recognized single letters.
pub open spec fn rating_recognized(rec: Record) -> bool {
    spec_rating_of_code(rec.rating@) is Some
}

/// What [`accepts`] returns: the conjunction of the acceptance predicates.
/// A record is eligible when it has a file URL and an extension, its
/// aspect ratio is within tolerance, its rating code is recognized and
/// allowed by the policy, its tags do not contain the exact token
/// `animated`, it is not marked deleted, and it carries the required tag
/// when one is configured.
pub open spec fn spec_accepts(rec: Record, config: Config) -> bool {
    &&& rec.file_url is Some
    &&& rec.file_ext is Some
    &&& config.spec_tolerated(rec.image_width as int, rec.image_height as int)
    &&& spec_rating_of_code(rec.rating@) matches Some(r) && spec_allows(
        config.allowed_rating,
        r,
    )
    &&& !has_token(rec.tag_string@, "animated"@)
    &&& !rec.is_deleted
    &&& (config.required_tag matches Some(t) ==> has_token(rec.tag_string@, t@))
}

/// Whether `rec` is eligible for download under `config`. Deterministic
/// and side-effect-free: the result is a function of the two arguments
/// alone. An unrecognized rating code is reported separately as a schema
/// violation by the paginator's page step; here it simply fails the
/// rating predicate.
pub fn accepts(rec: &Record, config: &Config) -> (r: bool)
    requires
        config.wf(),
    ensures
        r == spec_accepts(*rec, *config),
{
    if rec.file_url.is_none() {
        return false;
    }
    if rec.file_ext.is_none() {
        return false;
    }
    if !config.is_tolerated_aspect_ratio(rec.image_width, rec.image_height) {
        return false;
    }
    let rating = match rating_of_code(rec.rating.as_str()) {
        Some(r) => r,
        None => {
            return false;
        },
    };
    if !config.allowed_rating.allows(&rating) {
        return false;
    }
    if contains_token(rec.tag_string.as_str(), "animated") {
        return false;
    }
    if rec.is_deleted {
        return false;
    }
    match &config.required_tag {
        Some(tag) => contains_token(rec.tag_string.as_str(), tag.as_str()),
        None => true,
    }
}

/// The subsequence of `recs` that [`spec_accepts`] admits, in page order.
pub open spec fn accepted_records(recs: Seq<Record>, config: Config) -> Seq<Record>
    decreases recs.len(),
{
    if recs.len() == 0 {
        Seq::empty()
    } else {
        let rest = accepted_records(recs.drop_last(), config);
        if spec_accepts(recs.last(), config) {
            rest.push(recs.last())
        } else {
            rest
        }
    }
}

/// Every record of the accepted subset is itself accepted: no rejected
/// record can reach a download.
pub proof fn lemma_accepted_are_accepted(recs: Seq<Record>, config: Config)
    ensures
        forall|k: int|
            0 <= k < accepted_records(recs, config).len() ==> spec_accepts(
                #[trigger] accepted_records(recs, config)[k],
                config,
            ),
    decreases recs.len(),
{
    if recs.len() > 0 {
        let rest = accepted_records(recs.drop_last(), config);
        lemma_accepted_are_accepted(recs.drop_last(), config);
        assert forall|k: int| 0 <= k < accepted_records(recs, config).len() implies spec_accepts(
            #[trigger] accepted_records(recs, config)[k],
            config,
        ) by {
            if spec_accepts(recs.last(), config) {
                assert(accepted_records(recs, config) == rest.push(recs.last()));
                if k < rest.len() {
                    assert(accepted_records(recs, config)[k] == rest[k]);
                } else {
                    assert(accepted_records(recs, config)[k] == recs.last());
                }
            } else {
                assert(accepted_records(recs, config) == rest);
            }
        }
    }
}

/// A page of records that are all accepted filters to itself.
proof fn lemma_accepted_fixpoint(recs: Seq<Record>, config: Config)
    requires
        forall|k: int| 0 <= k < recs.len() ==> spec_accepts(#[trigger] recs[k], config),
    ensures
        accepted_records(recs, config) == recs,
    decreases recs.len(),
{
    if recs.len() > 0 {
        assert(spec_accepts(recs.last(), config));
        lemma_accepted_fixpoint(recs.drop_last(), config);
        assert(accepted_records(recs, config) =~= recs);
    } else {
        assert(accepted_records(recs, config) =~= recs);
    }
}

/// Filtering is idempotent: running the accepted subset of a page through
/// the pipeline again yields the same subset.
pub proof fn lemma_filter_idempotent(recs: Seq<Record>, config: Config)
    ensures
        accepted_records(accepted_records(recs, config), config) == accepted_records(
            recs,
            config,
        ),
{
    lemma_accepted_are_accepted(recs, config);
    lemma_accepted_fixpoint(accepted_records(recs, config), config);
}

/// A record without a file URL is never accepted, whatever its other
/// fields and whatever the configuration.
pub proof fn lemma_no_url_never_accepted(rec: Record, config: Config)
    requires
        rec.file_url is None,
    ensures
        !spec_accepts(rec, config),
{
}

/// A record whose tags contain the exact token `animated` is never
/// accepted, whatever its other fields and whatever the configuration.
pub proof fn lemma_animated_never_accepted(rec: Record, config: Config)
    requires
        has_token(rec.tag_string@, "animated"@),
    ensures
        !spec_accepts(rec, config),
{
}

} // verus!
