//! One lookup, as a state machine: each call says what to do next, and the
//! caller answers with what came of it.
//!
//! A lookup makes sure the cache directory exists, checks the age of the
//! package's cache entry, serves the entry if it is younger than an hour and
//! holds JSON, and otherwise asks upstream for the package template's latest
//! commit, stores the resulting report as the new entry and answers with it.

use vstd::prelude::*;
use crate::instant::{Instant, whole_days, within_hour, rfc3339_instant, is_fresh, days_between, parse_rfc3339, utc_now};
use crate::json::{json_well_formed, json_string_at, json_quoted, decimal, is_json, string_at, quote, decimal_text};

verus! {

/// The directory that holds one cache entry per package.
pub open spec fn cache_dir() -> Seq<char> {
    "cache"@
}

/// Where the cache entry of `package` lives.
pub open spec fn cache_file_of(package: Seq<char>) -> Seq<char> {
    "cache/"@ + package + ".json"@
}

/// The path of the package's build template inside the upstream repository.
pub open spec fn template_path_of(package: Seq<char>) -> Seq<char> {
    "srcpkgs/"@ + package + "/template"@
}

/// The upstream query for the commits that touched the package's template.
pub open spec fn commits_url_of(package: Seq<char>) -> Seq<char> {
    "https://api.github.com/repos/void-linux/void-packages/commits?path="@ + template_path_of(
        package,
    )
}

/// The report for a template last changed on `date`, `days` whole days ago,
/// as compact JSON with its keys in order.
pub open spec fn freshness_json(path: Seq<char>, date: Seq<char>, days: int) -> Seq<char> {
    "{\"days_since_last_modified\":"@ + decimal(days) + ",\"last_modified\":"@ + json_quoted(date)
        + ",\"package_name\":"@ + json_quoted(path) + "}"@
}

pub fn cache_file_path(package: &str) -> (r: String)
    ensures
        r@ == cache_file_of(package@),
{
    String::from_str("cache/").concat(package).concat(".json")
}

pub fn template_path(package: &str) -> (r: String)
    ensures
        r@ == template_path_of(package@),
{
    String::from_str("srcpkgs/").concat(package).concat("/template")
}

pub fn commits_url(package: &str) -> (r: String)
    ensures
        r@ == commits_url_of(package@),
{
    let path = template_path(package);
    String::from_str("https://api.github.com/repos/void-linux/void-packages/commits?path=").concat(
        path.as_str(),
    )
}

/// The report for `path`, last changed on `date`, `days` whole days ago.
pub fn freshness_result(path: &str, date: &str, days: i64) -> (r: String)
    ensures
        r@ == freshness_json(path@, date@, days as int),
{
    let mut out = String::from_str("{\"days_since_last_modified\":");
    let n = decimal_text(days);
    out.append(n.as_str());
    out.append(",\"last_modified\":");
    let d = quote(date);
    out.append(d.as_str());
    out.append(",\"package_name\":");
    let p = quote(path);
    out.append(p.as_str());
    out.append("}");
    out
}

/// How far a lookup has come.
#[derive(Clone, Copy, Debug, PartialEq, Eq)]
pub enum Phase {
    Preparing,
    CheckingCache,
    ReadingCache,
    Fetching,
    Storing,
    Finished,
}

/// The answer to the caller: a JSON body (200), not found (404), or an
/// internal error (500).
#[derive(Debug)]
pub enum Reply {
    Found(String),
    NotFound,
    Failed,
}

pub enum ReplyView {
    Found(Seq<char>),
    NotFound,
    Failed,
}

impl View for Reply {
    type V = ReplyView;

    open spec fn view(&self) -> ReplyView {
        match self {
            Reply::Found(s) => ReplyView::Found(s@),
            Reply::NotFound => ReplyView::NotFound,
            Reply::Failed => ReplyView::Failed,
        }
    }
}

/// What the caller is asked to do next.
#[derive(Debug)]
pub enum Action {
    /// Create this directory; answer with `CacheDirCreated`.
    CreateCacheDir(String),
    /// Read this file's modification time; answer with `CacheModified`.
    CheckCache(String),
    /// Read this file whole as text; answer with `CacheRead`.
    ReadCache(String),
    /// GET this URL with a `User-Agent` header and read the body as text;
    /// answer with `Fetched`.
    Fetch(String),
    /// Write these contents to this file, replacing it; answer with
    /// `CacheStored`.
    StoreCache(String, String),
    /// Answer the request; the lookup is over.
    Respond(Reply),
}

pub enum ActionView {
    CreateCacheDir(Seq<char>),
    CheckCache(Seq<char>),
    ReadCache(Seq<char>),
    Fetch(Seq<char>),
    StoreCache(Seq<char>, Seq<char>),
    Respond(ReplyView),
}

impl View for Action {
    type V = ActionView;

    open spec fn view(&self) -> ActionView {
        match self {
            Action::CreateCacheDir(p) => ActionView::CreateCacheDir(p@),
            Action::CheckCache(p) => ActionView::CheckCache(p@),
            Action::ReadCache(p) => ActionView::ReadCache(p@),
            Action::Fetch(u) => ActionView::Fetch(u@),
            Action::StoreCache(p, c) => ActionView::StoreCache(p@, c@),
            Action::Respond(r) => ActionView::Respond(r@),
        }
    }
}

/// What came of the last action.
#[derive(Debug)]
pub enum Event {
    /// Whether the directory could be created (it may already exist).
    CacheDirCreated(bool),
    /// The file's modification time; `None` if it is missing or has none.
    CacheModified(Option<Instant>),
    /// The file's text; `None` if it could not be read as text.
    CacheRead(Option<String>),
    /// The response body; `None` on a transport failure or a body that is
    /// not text.
    Fetched(Option<String>),
    /// Whether the file was written.
    CacheStored(bool),
}

/// One lookup in progress.
pub struct Lookup {
    package: String,
    phase: Phase,
    pending: String,
}

pub struct LookupState {
    pub package: Seq<char>,
    pub phase: Phase,
    /// The report waiting for its cache entry to be written.
    pub pending: Seq<char>,
}

impl View for Lookup {
    type V = LookupState;

    closed spec fn view(&self) -> LookupState {
        LookupState { package: self.package@, phase: self.phase, pending: self.pending@ }
    }
}

pub open spec fn start_state(package: Seq<char>) -> LookupState {
    LookupState { package, phase: Phase::Preparing, pending: Seq::empty() }
}

pub open spec fn finish(s: LookupState, reply: ReplyView) -> (LookupState, ActionView) {
    (LookupState { phase: Phase::Finished, pending: Seq::empty(), ..s }, ActionView::Respond(reply))
}

pub open spec fn go_fetch(s: LookupState) -> (LookupState, ActionView) {
    (LookupState { phase: Phase::Fetching, ..s }, ActionView::Fetch(commits_url_of(s.package)))
}

/// What an upstream body leads to, at `now`.
pub open spec fn after_fetch(s: LookupState, body: Seq<char>, now: Instant) -> (
    LookupState,
    ActionView,
) {
    if !json_well_formed(body) {
        finish(s, ReplyView::Failed)
    } else {
        match json_string_at(body, 0, "commit"@, "committer"@, "date"@) {
            None => finish(s, ReplyView::NotFound),
            Some(date) => match rfc3339_instant(date) {
                None => finish(s, ReplyView::Failed),
                Some(p) => {
                    let last = Instant { secs: p.0, nanos: p.1 };
                    let report = freshness_json(
                        template_path_of(s.package),
                        date,
                        whole_days(last, now),
                    );
                    (
                        LookupState { phase: Phase::Storing, pending: report, ..s },
                        ActionView::StoreCache(cache_file_of(s.package), report),
                    )
                },
            },
        }
    }
}

/// The next state and action after event `e` in state `s`, at time `now`.
/// An event that does not answer the last action ends the lookup with an
/// internal error.
pub open spec fn next(s: LookupState, e: Event, now: Instant) -> (LookupState, ActionView) {
    match (s.phase, e) {
        (Phase::Preparing, Event::CacheDirCreated(_)) => (
            LookupState { phase: Phase::CheckingCache, ..s },
            ActionView::CheckCache(cache_file_of(s.package)),
        ),
        (Phase::CheckingCache, Event::CacheModified(m)) => {
            if m is Some && within_hour(m->0, now) {
                (
                    LookupState { phase: Phase::ReadingCache, ..s },
                    ActionView::ReadCache(cache_file_of(s.package)),
                )
            } else {
                go_fetch(s)
            }
        },
        (Phase::ReadingCache, Event::CacheRead(t)) => {
            if t is Some && json_well_formed(t->0@) {
                finish(s, ReplyView::Found(t->0@))
            } else {
                go_fetch(s)
            }
        },
        (Phase::Fetching, Event::Fetched(b)) => match b {
            None => finish(s, ReplyView::Failed),
            Some(body) => after_fetch(s, body@, now),
        },
        (Phase::Storing, Event::CacheStored(ok)) => {
            if ok {
                finish(s, ReplyView::Found(s.pending))
            } else {
                finish(s, ReplyView::Failed)
            }
        },
        _ => finish(s, ReplyView::Failed),
    }
}

/// The actions that a lookup in state `s` takes in answer to `steps`, each
/// an event and the time at which it is handled.
pub open spec fn run(s: LookupState, steps: Seq<(Event, Instant)>) -> Seq<ActionView>
    decreases steps.len(),
{
    if steps.len() == 0 {
        Seq::empty()
    } else {
        let (s2, a) = next(s, steps[0].0, steps[0].1);
        seq![a] + run(s2, steps.drop_first())
    }
}

/// All actions of a lookup of `package`, the first one included.
pub open spec fn request(package: Seq<char>, steps: Seq<(Event, Instant)>) -> Seq<ActionView> {
    seq![ActionView::CreateCacheDir(cache_dir())] + run(start_state(package), steps)
}

impl Lookup {
    /// Starts a lookup of `package`; the first action creates the cache
    /// directory.
    pub fn new(package: String) -> (r: (Lookup, Action))
        ensures
            r.0@ == start_state(package@),
            r.1@ == ActionView::CreateCacheDir(cache_dir()),
    {
        (
            Lookup { package, phase: Phase::Preparing, pending: String::new() },
            Action::CreateCacheDir(String::from_str("cache")),
        )
    }

    pub fn phase(&self) -> (r: Phase)
        ensures
            r == self@.phase,
    {
        self.phase
    }

    fn finish(&mut self, reply: Reply) -> (r: Action)
        ensures
            (final(self)@, r@) == finish(old(self)@, reply@),
    {
        self.phase = Phase::Finished;
        self.pending = String::new();
        Action::Respond(reply)
    }

    fn go_fetch(&mut self) -> (r: Action)
        ensures
            (final(self)@, r@) == go_fetch(old(self)@),
    {
        self.phase = Phase::Fetching;
        Action::Fetch(commits_url(self.package.as_str()))
    }

    fn after_fetch(&mut self, body: &str, now: Instant) -> (r: Action)
        ensures
            (final(self)@, r@) == after_fetch(old(self)@, body@, now),
    {
        match string_at(body, 0, "commit", "committer", "date") {
            None => self.finish(Reply::Failed),
            Some(None) => self.finish(Reply::NotFound),
            Some(Some(date)) => match parse_rfc3339(date.as_str()) {
                None => self.finish(Reply::Failed),
                Some(last) => {
                    let path = template_path(self.package.as_str());
                    let days = days_between(last, now);
                    let report = freshness_result(path.as_str(), date.as_str(), days);
                    self.phase = Phase::Storing;
                    self.pending = report.clone();
                    Action::StoreCache(cache_file_path(self.package.as_str()), report)
                },
            },
        }
    }

    /// Takes `event` in at time `now` and says what to do next.
    pub fn step_at(&mut self, event: Event, now: Instant) -> (r: Action)
        ensures
            (final(self)@, r@) == next(old(self)@, event, now),
    {
        match (self.phase, event) {
            (Phase::Preparing, Event::CacheDirCreated(_)) => {
                self.phase = Phase::CheckingCache;
                Action::CheckCache(cache_file_path(self.package.as_str()))
            },
            (Phase::CheckingCache, Event::CacheModified(m)) => match m {
                Some(modified) => {
                    if is_fresh(modified, now) {
                        self.phase = Phase::ReadingCache;
                        Action::ReadCache(cache_file_path(self.package.as_str()))
                    } else {
                        self.go_fetch()
                    }
                },
                None => self.go_fetch(),
            },
            (Phase::ReadingCache, Event::CacheRead(t)) => match t {
                Some(text) => {
                    if is_json(text.as_str()) {
                        self.finish(Reply::Found(text))
                    } else {
                        self.go_fetch()
                    }
                },
                None => self.go_fetch(),
            },
            (Phase::Fetching, Event::Fetched(b)) => match b {
                Some(body) => self.after_fetch(body.as_str(), now),
                None => self.finish(Reply::Failed),
            },
            (Phase::Storing, Event::CacheStored(ok)) => {
                if ok {
                    let report = self.pending.clone();
                    self.finish(Reply::Found(report))
                } else {
                    self.finish(Reply::Failed)
                }
            },
            _ => self.finish(Reply::Failed),
        }
    }

    /// Takes `event` in at the current time and says what to do next. A
    /// clock that cannot be read (set before 1970) ends the lookup with an
    /// internal error.
    pub fn step(&mut self, event: Event) -> (r: Action)
        ensures
            (exists|now: Instant|
                now.nanos < 1_000_000_000 && (final(self)@, r@) == next(old(self)@, event, now))
                || (final(self)@, r@) == finish(old(self)@, ReplyView::Failed),
    {
        match utc_now() {
            Some(now) => self.step_at(event, now),
            None => self.finish(Reply::Failed),
        }
    }
}

} // verus!
