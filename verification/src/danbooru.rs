//! The pagination state machine driving the crawl: the search cursor, the
//! tag expression each cursor issues, and the step that turns one page
//! response into the next cursor and the downloads to spawn.

use vstd::prelude::*;

use crate::config::Config;
use crate::filter::accepted_records;
use crate::filter::accepts;
use crate::filter::rating_recognized;
use crate::filter::reaches_rating_check;
use crate::record::Record;
use crate::record::rating_of_code;
use crate::text::dec_rep;
use crate::text::push_decimal;
use vstd::string::StringExecFns;

verus! {

/// Crawl cursor: where the next page request starts. `Under(x)` asks for
/// ids below `x` (descending), `Above(x)` for ids above `x` (ascending),
/// `Start` for the first page with only the baseline tags.
#[derive(Debug, Clone, Eq, Hash, PartialEq, Structural)]
pub enum Search {
    Start,
    Under(usize),
    Above(usize),
}

/// Direction of progress through ids implied by a cursor.
#[derive(Debug, Clone, Eq, Hash, PartialEq, Structural)]
pub enum Direction {
    Later,
    Earlier,
}

impl Direction {
    pub fn is_later(&self) -> (b: bool)
        ensures
            b == (*self == Direction::Later),
    {
        match self {
            Direction::Later => true,
            _ => false,
        }
    }

    pub fn is_earlier(&self) -> (b: bool)
        ensures
            b == (*self == Direction::Earlier),
    {
        match self {
            Direction::Earlier => true,
            _ => false,
        }
    }
}

/// The id bound and direction a cursor queries from, if it has one.
pub open spec fn spec_from_direction(s: Search) -> Option<(usize, Direction)> {
    match s {
        Search::Start => None,
        Search::Under(x) => Some((x, Direction::Earlier)),
        Search::Above(x) => Some((x, Direction::Later)),
    }
}

/// The tag expression a cursor issues: the id bound (with ascending order
/// for `Above`), padded with the baseline tags up to two tokens.
pub open spec fn spec_tags(s: Search) -> Seq<char> {
    match s {
        Search::Start => "touhou "@ + "-rating:e "@,
        Search::Under(x) => "id:<"@ + dec_rep(x as nat) + " "@ + "touhou "@,
        Search::Above(x) => "id:>"@ + dec_rep(x as nat) + " "@ + "order:id_asc "@,
    }
}

impl Search {
    /// The id this cursor is bounded by and the direction it progresses
    /// in; `Start` has neither.
    pub fn get_from_direction(&self) -> (r: Option<(usize, Direction)>)
        ensures
            r == spec_from_direction(*self),
    {
        match self {
            Search::Start => None,
            Search::Under(x) => Some((*x, Direction::Earlier)),
            Search::Above(x) => Some((*x, Direction::Later)),
        }
    }

    /// Builds the tag expression for the page request this cursor issues.
    pub fn obtain_tags(&self) -> (tags: String)
        ensures
            tags@ == spec_tags(*self),
    {
        let mut tags = String::new();
        match self {
            Search::Start => {
                tags.append("touhou ");
                tags.append("-rating:e ");
            },
            Search::Under(x) => {
                tags.append("id:<");
                push_decimal(&mut tags, *x);
                tags.append(" ");
                tags.append("touhou ");
            },
            Search::Above(x) => {
                tags.append("id:>");
                push_decimal(&mut tags, *x);
                tags.append(" ");
                tags.append("order:id_asc ");
            },
        }
        proof {
            assert(tags@ =~= spec_tags(*self));
        }
        tags
    }
}

/// The largest id in a nonempty page.
pub open spec fn spec_max_id(recs: Seq<Record>) -> usize
    recommends
        recs.len() > 0,
    decreases recs.len(),
{
    if recs.len() <= 1 {
        recs[0].id
    } else {
        let rest = spec_max_id(recs.drop_last());
        if recs.last().id > rest {
            recs.last().id
        } else {
            rest
        }
    }
}

/// The smallest id in a nonempty page.
pub open spec fn spec_min_id(recs: Seq<Record>) -> usize
    recommends
        recs.len() > 0,
    decreases recs.len(),
{
    if recs.len() <= 1 {
        recs[0].id
    } else {
        let rest = spec_min_id(recs.drop_last());
        if recs.last().id < rest {
            recs.last().id
        } else {
            rest
        }
    }
}

/// The largest id occurring in `recs`.
pub fn max_id(recs: &Vec<Record>) -> (m: usize)
    requires
        recs@.len() > 0,
    ensures
        m == spec_max_id(recs@),
{
    let mut m = recs[0].id;
    let mut i: usize = 1;
    proof {
        assert(recs@.subrange(0, 1)[0] == recs@[0]);
    }
    while i < recs.len()
        invariant
            1 <= i <= recs@.len(),
            m == spec_max_id(recs@.subrange(0, i as int)),
        decreases recs@.len() - i,
    {
        let id = recs[i].id;
        proof {
            assert(recs@.subrange(0, i + 1).drop_last() =~= recs@.subrange(0, i as int));
            assert(recs@.subrange(0, i + 1).last() == recs@[i as int]);
        }
        if id > m {
            m = id;
        }
        i += 1;
    }
    proof {
        assert(recs@.subrange(0, recs@.len() as int) =~= recs@);
    }
    m
}

/// The smallest id occurring in `recs`.
pub fn min_id(recs: &Vec<Record>) -> (m: usize)
    requires
        recs@.len() > 0,
    ensures
        m == spec_min_id(recs@),
{
    let mut m = recs[0].id;
    let mut i: usize = 1;
    proof {
        assert(recs@.subrange(0, 1)[0] == recs@[0]);
    }
    while i < recs.len()
        invariant
            1 <= i <= recs@.len(),
            m == spec_min_id(recs@.subrange(0, i as int)),
        decreases recs@.len() - i,
    {
        let id = recs[i].id;
        proof {
            assert(recs@.subrange(0, i + 1).drop_last() =~= recs@.subrange(0, i as int));
            assert(recs@.subrange(0, i + 1).last() == recs@[i as int]);
        }
        if id < m {
            m = id;
        }
        i += 1;
    }
    proof {
        assert(recs@.subrange(0, recs@.len() as int) =~= recs@);
    }
    m
}

/// The cursor for the page after a nonempty page: the extreme id observed,
/// in the cursor's own direction.
pub open spec fn spec_next_search(s: Search, recs: Seq<Record>) -> Search
    recommends
        recs.len() > 0,
        !(s is Start),
{
    match s {
        Search::Start => Search::Start,
        Search::Under(_) => Search::Under(spec_min_id(recs)),
        Search::Above(_) => Search::Above(spec_max_id(recs)),
    }
}

/// Computes the follow-up cursor after a nonempty page: the minimum id
/// observed under `Under`, the maximum under `Above`.
pub fn next_search(search: &Search, recs: &Vec<Record>) -> (next: Search)
    requires
        recs@.len() > 0,
        !(*search is Start),
    ensures
        next == spec_next_search(*search, recs@),
{
    match search {
        Search::Under(_) => Search::Under(min_id(recs)),
        Search::Above(_) => Search::Above(max_id(recs)),
        Search::Start => Search::Start,
    }
}

/// What one page request came back as: a decoded record list, or one of
/// the two retryable failures.
pub enum PageOutcome {
    Records(Vec<Record>),
    TransportError,
    DecodeError,
}

/// One download to spawn: the file URL and the destination filename.
#[derive(Debug)]
pub struct Download {
    pub url: String,
    pub filename: String,
}

/// What the paginator does after one page: reissue the identical cursor,
/// stop for good, abort on a schema violation, or spawn the listed
/// downloads and continue at the next cursor.
#[derive(Debug)]
pub enum Step {
    Retry(Search),
    Finished,
    SchemaViolation,
    Continue(Search, Vec<Download>),
}

/// The destination filename for a record: the source label, the id in
/// decimal, and the file extension.
pub open spec fn spec_filename(id: nat, ext: Seq<char>) -> Seq<char> {
    "danbooru "@ + dec_rep(id) + "."@ + ext
}

/// Builds the destination filename for one accepted record.
pub fn make_filename(id: usize, ext: &str) -> (name: String)
    ensures
        name@ == spec_filename(id as nat, ext@),
{
    let mut name = String::new();
    name.append("danbooru ");
    push_decimal(&mut name, id);
    name.append(".");
    name.append(ext);
    proof {
        assert(name@ =~= spec_filename(id as nat, ext@));
    }
    name
}

/// No record of the page that reaches the rating check carries an
/// unrecognized rating code. A violation means the remote schema changed
/// and the crawl must abort.
pub open spec fn page_schema_ok(recs: Seq<Record>, config: Config) -> bool {
    forall|k: int|
        0 <= k < recs.len() ==> (reaches_rating_check(#[trigger] recs[k], config)
            ==> rating_recognized(recs[k]))
}

/// `dls` is exactly one download per record of `recs`, in order: the
/// record's file URL and its destination filename.
pub open spec fn downloads_match(dls: Seq<Download>, recs: Seq<Record>) -> bool {
    &&& dls.len() == recs.len()
    &&& forall|k: int|
        0 <= k < dls.len() ==> (#[trigger] dls[k]).url@ == recs[k].file_url.unwrap()@
            && dls[k].filename@ == spec_filename(recs[k].id as nat, recs[k].file_ext.unwrap()@)
}

/// One step of the paginator: given the cursor that issued a page request
/// and what came back, decide what happens next. A transport or decode
/// failure retries the identical cursor; an empty page ends the crawl; a
/// page with an unrecognized rating code that reaches the rating check
/// aborts; otherwise every accepted record becomes one download and the
/// cursor advances to the extreme id observed.
#[verifier::loop_isolation(false)]
pub fn process_response(search: Search, outcome: PageOutcome, config: &Config) -> (step: Step)
    requires
        config.wf(),
        (outcome matches PageOutcome::Records(recs) && recs@.len() > 0) ==> !(search is Start),
    ensures
        (outcome is TransportError || outcome is DecodeError) ==> step == Step::Retry(search),
        outcome matches PageOutcome::Records(recs) ==> {
            &&& recs@.len() == 0 ==> step is Finished
            &&& recs@.len() > 0 && !page_schema_ok(recs@, *config) ==> step is SchemaViolation
            &&& recs@.len() > 0 && page_schema_ok(recs@, *config) ==> (step matches Step::Continue(
                next,
                dls,
            ) && next == spec_next_search(search, recs@) && downloads_match(
                dls@,
                accepted_records(recs@, *config),
            ))
        },
{
    let recs = match outcome {
        PageOutcome::TransportError => {
            return Step::Retry(search);
        },
        PageOutcome::DecodeError => {
            return Step::Retry(search);
        },
        PageOutcome::Records(recs) => recs,
    };
    if recs.len() == 0 {
        return Step::Finished;
    }
    let mut i: usize = 0;
    while i < recs.len()
        invariant
            config.wf(),
            i <= recs@.len(),
            forall|p: int|
                0 <= p < i ==> (reaches_rating_check(#[trigger] recs@[p], *config)
                    ==> rating_recognized(recs@[p])),
        decreases recs@.len() - i,
    {
        let rec = &recs[i];
        let reaches = rec.file_url.is_some() && rec.file_ext.is_some()
            && config.is_tolerated_aspect_ratio(rec.image_width, rec.image_height);
        if reaches {
            if rating_of_code(rec.rating.as_str()).is_none() {
                proof {
                    assert(reaches_rating_check(recs@[i as int], *config) && !rating_recognized(
                        recs@[i as int],
                    ));
                    assert(!page_schema_ok(recs@, *config));
                }
                return Step::SchemaViolation;
            }
        }
        i += 1;
    }
    let mut downloads: Vec<Download> = Vec::new();
    let mut j: usize = 0;
    while j < recs.len()
        invariant
            config.wf(),
            j <= recs@.len(),
            downloads_match(downloads@, accepted_records(recs@.subrange(0, j as int), *config)),
        decreases recs@.len() - j,
    {
        let ghost prefix = recs@.subrange(0, j as int);
        let rec = &recs[j];
        proof {
            assert(recs@.subrange(0, j + 1).drop_last() =~= prefix);
            assert(recs@.subrange(0, j + 1).last() == recs@[j as int]);
        }
        if accepts(rec, config) {
            if let (Some(u), Some(e)) = (&rec.file_url, &rec.file_ext) {
                let filename = make_filename(rec.id, e.as_str());
                let url = u.clone();
                downloads.push(Download { url, filename });
            }
        }
        j += 1;
    }
    proof {
        assert(recs@.subrange(0, recs@.len() as int) =~= recs@);
    }
    let next = next_search(&search, &recs);
    Step::Continue(next, downloads)
}

/// The extreme ids of a nonempty page are ids of the page: the maximum is
/// some record's id and bounds every id from above.
pub proof fn lemma_max_id_bounds(recs: Seq<Record>)
    requires
        recs.len() > 0,
    ensures
        exists|k: int| 0 <= k < recs.len() && (#[trigger] recs[k]).id == spec_max_id(recs),
        forall|k: int| 0 <= k < recs.len() ==> (#[trigger] recs[k]).id <= spec_max_id(recs),
    decreases recs.len(),
{
    if recs.len() == 1 {
        assert(recs[0].id == spec_max_id(recs));
    } else {
        lemma_max_id_bounds(recs.drop_last());
        let m = spec_max_id(recs.drop_last());
        let k = choose|k: int|
            0 <= k < recs.drop_last().len() && (#[trigger] recs.drop_last()[k]).id == m;
        if recs.last().id > m {
            assert(recs[recs.len() - 1].id == spec_max_id(recs));
        } else {
            assert(recs[k].id == spec_max_id(recs));
        }
        assert forall|p: int| 0 <= p < recs.len() implies (#[trigger] recs[p]).id <= spec_max_id(
            recs,
        ) by {
            if p < recs.len() - 1 {
                assert(recs.drop_last()[p].id <= m);
            }
        }
    }
}

/// The minimum id of a nonempty page is some record's id and bounds every
/// id from below.
pub proof fn lemma_min_id_bounds(recs: Seq<Record>)
    requires
        recs.len() > 0,
    ensures
        exists|k: int| 0 <= k < recs.len() && (#[trigger] recs[k]).id == spec_min_id(recs),
        forall|k: int| 0 <= k < recs.len() ==> (#[trigger] recs[k]).id >= spec_min_id(recs),
    decreases recs.len(),
{
    if recs.len() == 1 {
        assert(recs[0].id == spec_min_id(recs));
    } else {
        lemma_min_id_bounds(recs.drop_last());
        let m = spec_min_id(recs.drop_last());
        let k = choose|k: int|
            0 <= k < recs.drop_last().len() && (#[trigger] recs.drop_last()[k]).id == m;
        if recs.last().id < m {
            assert(recs[recs.len() - 1].id == spec_min_id(recs));
        } else {
            assert(recs[k].id == spec_min_id(recs));
        }
        assert forall|p: int| 0 <= p < recs.len() implies (#[trigger] recs[p]).id >= spec_min_id(
            recs,
        ) by {
            if p < recs.len() - 1 {
                assert(recs.drop_last()[p].id >= m);
            }
        }
    }
}

/// Under an ascending cursor the crawl only moves forward: when every id
/// of the page lies above the bound, the follow-up cursor's bound is
/// strictly larger, so no page is revisited.
pub proof fn lemma_cursor_advances_above(x: usize, recs: Seq<Record>)
    requires
        recs.len() > 0,
        forall|k: int| 0 <= k < recs.len() ==> (#[trigger] recs[k]).id > x,
    ensures
        spec_next_search(Search::Above(x), recs) matches Search::Above(y) && y > x,
{
    lemma_max_id_bounds(recs);
}

/// Under a descending cursor the crawl only moves backward: when every id
/// of the page lies below the bound, the follow-up cursor's bound is
/// strictly smaller.
pub proof fn lemma_cursor_advances_under(x: usize, recs: Seq<Record>)
    requires
        recs.len() > 0,
        forall|k: int| 0 <= k < recs.len() ==> (#[trigger] recs[k]).id < x,
    ensures
        spec_next_search(Search::Under(x), recs) matches Search::Under(y) && y < x,
{
    lemma_min_id_bounds(recs);
}

} // verus!
