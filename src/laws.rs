//! What holds of whole lookups, proved over the state machine's model.

use vstd::prelude::*;
use crate::instant::{Instant, whole_days, within_hour, rfc3339_instant};
use crate::json::{json_well_formed, json_string_at};
use crate::lookup::{
    ActionView, Event, LookupState, Phase, ReplyView, cache_dir, cache_file_of, commits_url_of,
    freshness_json, next, request, run, template_path_of,
};

verus! {

/// How many of `acts` go upstream.
pub open spec fn fetch_count(acts: Seq<ActionView>) -> nat
    decreases acts.len(),
{
    if acts.len() == 0 {
        0
    } else {
        (if acts[0] is Fetch {
            1nat
        } else {
            0nat
        }) + fetch_count(acts.drop_first())
    }
}

pub open spec fn rank(p: Phase) -> nat {
    match p {
        Phase::Preparing => 0,
        Phase::CheckingCache => 1,
        Phase::ReadingCache => 2,
        Phase::Fetching => 3,
        Phase::Storing => 4,
        Phase::Finished => 5,
    }
}

proof fn lemma_next_moves_forward(s: LookupState, e: Event, now: Instant)
    ensures
        rank(next(s, e, now).0.phase) >= rank(s.phase),
        next(s, e, now).1 is Fetch ==> rank(s.phase) < 3 && next(s, e, now).0.phase
            == Phase::Fetching,
{
}

proof fn lemma_fetch_count_cons(a: ActionView, rest: Seq<ActionView>)
    ensures
        fetch_count(seq![a] + rest) == (if a is Fetch {
            1nat
        } else {
            0nat
        }) + fetch_count(rest),
{
    let all = seq![a] + rest;
    assert(all[0] == a);
    assert(all.drop_first() =~= rest);
}

/// `run` takes its first step and hands the rest on.
proof fn lemma_run_cons(s: LookupState, first: (Event, Instant), rest: Seq<(Event, Instant)>)
    ensures
        run(s, seq![first] + rest) == seq![next(s, first.0, first.1).1] + run(
            next(s, first.0, first.1).0,
            rest,
        ),
{
    let steps = seq![first] + rest;
    assert(steps[0] == first);
    assert(steps.drop_first() =~= rest);
}

proof fn lemma_run_fetches(s: LookupState, steps: Seq<(Event, Instant)>)
    ensures
        fetch_count(run(s, steps)) <= (if rank(s.phase) < 3 {
            1nat
        } else {
            0nat
        }),
    decreases steps.len(),
{
    if steps.len() > 0 {
        let (s2, a) = next(s, steps[0].0, steps[0].1);
        lemma_next_moves_forward(s, steps[0].0, steps[0].1);
        lemma_run_fetches(s2, steps.drop_first());
        lemma_fetch_count_cons(a, run(s2, steps.drop_first()));
    }
}

/// A lookup goes upstream at most once, whatever happens along the way.
pub proof fn lemma_at_most_one_fetch(package: Seq<char>, steps: Seq<(Event, Instant)>)
    ensures
        fetch_count(request(package, steps)) <= 1,
{
    lemma_run_fetches(crate::lookup::start_state(package), steps);
    lemma_fetch_count_cons(
        ActionView::CreateCacheDir(cache_dir()),
        run(crate::lookup::start_state(package), steps),
    );
}

/// A cache entry younger than an hour that holds JSON is answered with as it
/// stands, and nothing goes upstream.
pub proof fn lemma_fresh_entry_served(
    package: Seq<char>,
    created: bool,
    modified: Instant,
    text: String,
    t1: Instant,
    t2: Instant,
    t3: Instant,
)
    requires
        within_hour(modified, t2),
        json_well_formed(text@),
    ensures
        request(
            package,
            seq![
                (Event::CacheDirCreated(created), t1),
                (Event::CacheModified(Some(modified)), t2),
                (Event::CacheRead(Some(text)), t3),
            ],
        ) == seq![
            ActionView::CreateCacheDir(cache_dir()),
            ActionView::CheckCache(cache_file_of(package)),
            ActionView::ReadCache(cache_file_of(package)),
            ActionView::Respond(ReplyView::Found(text@)),
        ],
{
    let s0 = crate::lookup::start_state(package);
    let first = (Event::CacheDirCreated(created), t1);
    let second = (Event::CacheModified(Some(modified)), t2);
    let third = (Event::CacheRead(Some(text)), t3);
    let (s1, _) = next(s0, first.0, first.1);
    let (s2, _) = next(s1, second.0, second.1);
    let (s3, _) = next(s2, third.0, third.1);
    let e: Seq<(Event, Instant)> = Seq::empty();
    lemma_run_cons(s2, third, e);
    lemma_run_cons(s1, second, seq![third]);
    lemma_run_cons(s0, first, seq![second, third]);
    assert(seq![third] =~= seq![third] + e);
    assert(seq![second, third] =~= seq![second] + seq![third]);
    assert(seq![first, second, third] =~= seq![first] + seq![second, third]);
    assert(run(s3, e) =~= Seq::<ActionView>::empty());
}

/// Two lookups that both find the same JSON cache entry younger than an hour
/// take the same actions and give the same answer.
pub proof fn lemma_repeat_within_hour(
    package: Seq<char>,
    modified: Instant,
    text: String,
    created_a: bool,
    a1: Instant,
    a2: Instant,
    a3: Instant,
    created_b: bool,
    b1: Instant,
    b2: Instant,
    b3: Instant,
)
    requires
        within_hour(modified, a2),
        within_hour(modified, b2),
        json_well_formed(text@),
    ensures
        request(
            package,
            seq![
                (Event::CacheDirCreated(created_a), a1),
                (Event::CacheModified(Some(modified)), a2),
                (Event::CacheRead(Some(text)), a3),
            ],
        ) == request(
            package,
            seq![
                (Event::CacheDirCreated(created_b), b1),
                (Event::CacheModified(Some(modified)), b2),
                (Event::CacheRead(Some(text)), b3),
            ],
        ),
{
    lemma_fresh_entry_served(package, created_a, modified, text, a1, a2, a3);
    lemma_fresh_entry_served(package, created_b, modified, text, b1, b2, b3);
}

/// A cache entry younger than an hour that cannot be read or is not JSON
/// is passed over: the lookup goes upstream instead of failing.
pub proof fn lemma_unusable_entry_refetched(
    package: Seq<char>,
    created: bool,
    modified: Instant,
    text: Option<String>,
    t1: Instant,
    t2: Instant,
    t3: Instant,
)
    requires
        within_hour(modified, t2),
        text is None || !json_well_formed(text->0@),
    ensures
        request(
            package,
            seq![
                (Event::CacheDirCreated(created), t1),
                (Event::CacheModified(Some(modified)), t2),
                (Event::CacheRead(text), t3),
            ],
        ) == seq![
            ActionView::CreateCacheDir(cache_dir()),
            ActionView::CheckCache(cache_file_of(package)),
            ActionView::ReadCache(cache_file_of(package)),
            ActionView::Fetch(commits_url_of(package)),
        ],
{
    let s0 = crate::lookup::start_state(package);
    let first = (Event::CacheDirCreated(created), t1);
    let second = (Event::CacheModified(Some(modified)), t2);
    let third = (Event::CacheRead(text), t3);
    let (s1, _) = next(s0, first.0, first.1);
    let (s2, _) = next(s1, second.0, second.1);
    let (s3, _) = next(s2, third.0, third.1);
    let e: Seq<(Event, Instant)> = Seq::empty();
    lemma_run_cons(s2, third, e);
    lemma_run_cons(s1, second, seq![third]);
    lemma_run_cons(s0, first, seq![second, third]);
    assert(seq![third] =~= seq![third] + e);
    assert(seq![second, third] =~= seq![second] + seq![third]);
    assert(seq![first, second, third] =~= seq![first] + seq![second, third]);
    assert(run(s3, e) =~= Seq::<ActionView>::empty());
}

/// Where the cache entry is missing or an hour old or more, the lookup goes
/// upstream; when the answer names the template's latest commit date, the
/// report is written over the cache entry, and only once that write has
/// succeeded is the same report the answer.
pub proof fn lemma_missing_or_stale_entry_refreshed(
    package: Seq<char>,
    created: bool,
    modified: Option<Instant>,
    body: String,
    stored: bool,
    t1: Instant,
    t2: Instant,
    t3: Instant,
    t4: Instant,
)
    requires
        modified is None || !within_hour(modified->0, t2),
    ensures
        ({
            let r = request(
                package,
                seq![
                    (Event::CacheDirCreated(created), t1),
                    (Event::CacheModified(modified), t2),
                    (Event::Fetched(Some(body)), t3),
                    (Event::CacheStored(stored), t4),
                ],
            );
            &&& r.len() == 5
            &&& r[2] == ActionView::Fetch(commits_url_of(package))
            &&& forall|j: Seq<char>|
                r[4] == ActionView::Respond(ReplyView::Found(j)) ==> r[3] == ActionView::StoreCache(
                    cache_file_of(package),
                    j,
                )
            &&& json_well_formed(body@) && json_string_at(
                body@,
                0,
                "commit"@,
                "committer"@,
                "date"@,
            ) is None ==> r[3] == ActionView::Respond(ReplyView::NotFound)
            &&& forall|date: Seq<char>, p: (i64, u32)|
                json_well_formed(body@) && json_string_at(
                    body@,
                    0,
                    "commit"@,
                    "committer"@,
                    "date"@,
                ) == Some(date) && rfc3339_instant(date) == Some(p) ==> {
                    let report = freshness_json(
                        template_path_of(package),
                        date,
                        whole_days(Instant { secs: p.0, nanos: p.1 }, t3),
                    );
                    &&& r[3] == ActionView::StoreCache(cache_file_of(package), report)
                    &&& r[4] == ActionView::Respond(
                        if stored {
                            ReplyView::Found(report)
                        } else {
                            ReplyView::Failed
                        },
                    )
                }
        }),
{
    let s0 = crate::lookup::start_state(package);
    let (s1, _) = next(s0, Event::CacheDirCreated(created), t1);
    let (s2, _) = next(s1, Event::CacheModified(modified), t2);
    let (s3, _) = next(s2, Event::Fetched(Some(body)), t3);
    let (s4, _) = next(s3, Event::CacheStored(stored), t4);
    let e: Seq<(Event, Instant)> = Seq::empty();
    let last = seq![(Event::CacheStored(stored), t4)];
    let two = seq![(Event::Fetched(Some(body)), t3), (Event::CacheStored(stored), t4)];
    let three = seq![
        (Event::CacheModified(modified), t2),
        (Event::Fetched(Some(body)), t3),
        (Event::CacheStored(stored), t4),
    ];
    lemma_run_cons(s3, (Event::CacheStored(stored), t4), e);
    lemma_run_cons(s2, (Event::Fetched(Some(body)), t3), last);
    lemma_run_cons(s1, (Event::CacheModified(modified), t2), two);
    lemma_run_cons(s0, (Event::CacheDirCreated(created), t1), three);
    assert(last =~= seq![(Event::CacheStored(stored), t4)] + e);
    assert(two =~= seq![(Event::Fetched(Some(body)), t3)] + last);
    assert(three =~= seq![(Event::CacheModified(modified), t2)] + two);
    assert(seq![
        (Event::CacheDirCreated(created), t1),
        (Event::CacheModified(modified), t2),
        (Event::Fetched(Some(body)), t3),
        (Event::CacheStored(stored), t4),
    ] =~= seq![(Event::CacheDirCreated(created), t1)] + three);
    assert(run(s4, e) =~= Seq::<ActionView>::empty());
}

} // verus!
