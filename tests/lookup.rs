use pkg_freshness::instant::{days_between, is_fresh, Instant};
use pkg_freshness::json::decimal_text;
use pkg_freshness::lookup::{
    cache_file_path, commits_url, freshness_result, template_path, Action, Event, Lookup, Phase,
    Reply,
};

const JAN_1: i64 = 1_704_067_200; // 2024-01-01T00:00:00Z
const JAN_8: i64 = 1_704_672_000; // 2024-01-08T00:00:00Z

fn at(secs: i64) -> Instant {
    Instant { secs, nanos: 0 }
}

const ONE_COMMIT: &str = r#"[{"commit":{"committer":{"date":"2024-01-01T00:00:00Z"}}}]"#;
const REPORT: &str = r#"{"days_since_last_modified":7,"last_modified":"2024-01-01T00:00:00Z","package_name":"srcpkgs/foo/template"}"#;

/// Brings a lookup of `package` to the point where it asks upstream, with no
/// cache entry on disk.
fn fetching(package: &str) -> Lookup {
    let (mut l, first) = Lookup::new(package.to_string());
    assert!(matches!(first, Action::CreateCacheDir(ref d) if d == "cache"));
    let a = l.step_at(Event::CacheDirCreated(true), at(JAN_8));
    assert!(matches!(a, Action::CheckCache(ref p) if p == &format!("cache/{}.json", package)));
    let a = l.step_at(Event::CacheModified(None), at(JAN_8));
    match a {
        Action::Fetch(url) => assert_eq!(
            url,
            format!(
                "https://api.github.com/repos/void-linux/void-packages/commits?path=srcpkgs/{}/template",
                package
            )
        ),
        other => panic!("expected a fetch, got {:?}", other),
    }
    l
}

fn reply(a: Action) -> Reply {
    match a {
        Action::Respond(r) => r,
        other => panic!("expected a reply, got {:?}", other),
    }
}

#[test]
fn paths_for_package() {
    assert_eq!(cache_file_path("gcc"), "cache/gcc.json");
    assert_eq!(template_path("gcc"), "srcpkgs/gcc/template");
    assert_eq!(
        commits_url("gcc"),
        "https://api.github.com/repos/void-linux/void-packages/commits?path=srcpkgs/gcc/template"
    );
}

#[test]
fn seven_days_between_first_and_eighth_of_january() {
    assert_eq!(days_between(at(JAN_1), at(JAN_8)), 7);
}

#[test]
fn days_round_toward_zero() {
    assert_eq!(days_between(at(0), at(86_399)), 0);
    assert_eq!(days_between(at(0), at(86_400)), 1);
    assert_eq!(days_between(at(0), Instant { secs: 172_799, nanos: 999_999_999 }), 1);
    assert_eq!(days_between(at(86_399), at(0)), 0);
    assert_eq!(days_between(at(172_800), at(0)), -2);
}

#[test]
fn days_over_the_widest_range() {
    assert_eq!(days_between(at(i64::MIN), at(i64::MAX)), 213_503_982_334_601);
}

#[test]
fn freshness_boundary_is_one_hour() {
    assert!(is_fresh(at(1000), at(1000)));
    assert!(is_fresh(at(1000), Instant { secs: 4599, nanos: 999_999_999 }));
    assert!(!is_fresh(at(1000), at(4600)));
    assert!(is_fresh(at(5000), at(1000)));
}

#[test]
fn decimal_numbers() {
    assert_eq!(decimal_text(0), "0");
    assert_eq!(decimal_text(7), "7");
    assert_eq!(decimal_text(1234567890), "1234567890");
    assert_eq!(decimal_text(-42), "-42");
    assert_eq!(decimal_text(i64::MIN), "-9223372036854775808");
    assert_eq!(decimal_text(i64::MAX), "9223372036854775807");
}

#[test]
fn report_is_compact_json() {
    assert_eq!(freshness_result("srcpkgs/foo/template", "2024-01-01T00:00:00Z", 7), REPORT);
}

#[test]
fn report_escapes_strings() {
    assert_eq!(
        freshness_result("a\"b\\c", "x\ny", -3),
        r#"{"days_since_last_modified":-3,"last_modified":"x\ny","package_name":"a\"b\\c"}"#
    );
}

#[test]
fn upstream_commit_gives_seven_days_and_is_stored() {
    let mut l = fetching("foo");
    let a = l.step_at(Event::Fetched(Some(ONE_COMMIT.to_string())), at(JAN_8));
    match a {
        Action::StoreCache(path, contents) => {
            assert_eq!(path, "cache/foo.json");
            assert_eq!(contents, REPORT);
        }
        other => panic!("expected a store, got {:?}", other),
    }
    assert_eq!(l.phase(), Phase::Storing);
    match reply(l.step_at(Event::CacheStored(true), at(JAN_8))) {
        Reply::Found(body) => assert_eq!(body, REPORT),
        other => panic!("expected a report, got {:?}", other),
    }
    assert_eq!(l.phase(), Phase::Finished);
}

#[test]
fn failed_store_is_an_internal_error() {
    let mut l = fetching("foo");
    let a = l.step_at(Event::Fetched(Some(ONE_COMMIT.to_string())), at(JAN_8));
    assert!(matches!(a, Action::StoreCache(_, _)));
    assert!(matches!(reply(l.step_at(Event::CacheStored(false), at(JAN_8))), Reply::Failed));
}

#[test]
fn empty_commit_list_is_not_found_without_cache() {
    let mut l = fetching("nothing");
    let r = reply(l.step_at(Event::Fetched(Some("[]".to_string())), at(JAN_8)));
    assert!(matches!(r, Reply::NotFound));
}

#[test]
fn empty_commit_list_is_not_found_with_stale_cache() {
    let (mut l, _) = Lookup::new("nothing".to_string());
    l.step_at(Event::CacheDirCreated(false), at(JAN_8));
    let a = l.step_at(Event::CacheModified(Some(at(JAN_1))), at(JAN_8));
    assert!(matches!(a, Action::Fetch(_)));
    let r = reply(l.step_at(Event::Fetched(Some("[]".to_string())), at(JAN_8)));
    assert!(matches!(r, Reply::NotFound));
}

#[test]
fn empty_commit_list_is_not_found_with_unusable_fresh_cache() {
    let (mut l, _) = Lookup::new("nothing".to_string());
    l.step_at(Event::CacheDirCreated(true), at(JAN_8));
    let a = l.step_at(Event::CacheModified(Some(at(JAN_8 - 60))), at(JAN_8));
    assert!(matches!(a, Action::ReadCache(_)));
    let a = l.step_at(Event::CacheRead(Some("{\"package_name\":".to_string())), at(JAN_8));
    assert!(matches!(a, Action::Fetch(_)));
    let r = reply(l.step_at(Event::Fetched(Some("[]".to_string())), at(JAN_8)));
    assert!(matches!(r, Reply::NotFound));
}

#[test]
fn other_shapes_are_not_found() {
    for body in [
        "{}",
        r#"{"0":{"commit":{"committer":{"date":"2024-01-01T00:00:00Z"}}}}"#,
        r#"[{"commit":{"committer":{"date":7}}}]"#,
        r#"[{"commit":{}}]"#,
    ] {
        let mut l = fetching("foo");
        let r = reply(l.step_at(Event::Fetched(Some(body.to_string())), at(JAN_8)));
        assert!(matches!(r, Reply::NotFound), "body {}", body);
    }
}

#[test]
fn malformed_upstream_json_is_an_internal_error() {
    let mut l = fetching("foo");
    let r = reply(l.step_at(Event::Fetched(Some("[{\"commit\":".to_string())), at(JAN_8)));
    assert!(matches!(r, Reply::Failed));
}

#[test]
fn unreachable_upstream_is_an_internal_error() {
    let mut l = fetching("foo");
    let r = reply(l.step_at(Event::Fetched(None), at(JAN_8)));
    assert!(matches!(r, Reply::Failed));
}

#[test]
fn bad_date_is_an_internal_error() {
    let mut l = fetching("foo");
    let body = r#"[{"commit":{"committer":{"date":"yesterday"}}}]"#;
    let r = reply(l.step_at(Event::Fetched(Some(body.to_string())), at(JAN_8)));
    assert!(matches!(r, Reply::Failed));
}

#[test]
fn date_with_offset_is_taken_to_utc() {
    let mut l = fetching("foo");
    let body = r#"[{"commit":{"committer":{"date":"2024-01-01T23:00:00-02:00"}}}]"#;
    match l.step_at(Event::Fetched(Some(body.to_string())), at(JAN_8 + 86_400)) {
        Action::StoreCache(_, contents) => assert_eq!(
            contents,
            r#"{"days_since_last_modified":6,"last_modified":"2024-01-01T23:00:00-02:00","package_name":"srcpkgs/foo/template"}"#
        ),
        other => panic!("expected a store, got {:?}", other),
    }
}

#[test]
fn fresh_cache_is_served_verbatim() {
    let cached = "{ \"package_name\": \"srcpkgs/foo/template\", \"days_since_last_modified\": 3 }";
    let (mut l, _) = Lookup::new("foo".to_string());
    l.step_at(Event::CacheDirCreated(false), at(JAN_8));
    let a = l.step_at(Event::CacheModified(Some(at(JAN_8 - 3599))), at(JAN_8));
    assert!(matches!(a, Action::ReadCache(ref p) if p == "cache/foo.json"));
    match reply(l.step_at(Event::CacheRead(Some(cached.to_string())), at(JAN_8))) {
        Reply::Found(body) => assert_eq!(body, cached),
        other => panic!("expected the cached body, got {:?}", other),
    }
}

#[test]
fn repeated_requests_within_hour_agree() {
    let mut answers = Vec::new();
    for (created, now) in [(true, JAN_8), (false, JAN_8 + 1800)] {
        let (mut l, _) = Lookup::new("foo".to_string());
        l.step_at(Event::CacheDirCreated(created), at(now));
        l.step_at(Event::CacheModified(Some(at(JAN_8 - 600))), at(now));
        match reply(l.step_at(Event::CacheRead(Some(REPORT.to_string())), at(now))) {
            Reply::Found(body) => answers.push(body),
            other => panic!("expected the cached body, got {:?}", other),
        }
    }
    assert_eq!(answers[0], answers[1]);
    assert_eq!(answers[0], REPORT);
}

#[test]
fn stale_cache_goes_upstream_once() {
    let (mut l, _) = Lookup::new("foo".to_string());
    l.step_at(Event::CacheDirCreated(true), at(JAN_8));
    let a = l.step_at(Event::CacheModified(Some(at(JAN_8 - 3600))), at(JAN_8));
    assert!(matches!(a, Action::Fetch(_)));
    let a = l.step_at(Event::Fetched(Some(ONE_COMMIT.to_string())), at(JAN_8));
    assert!(matches!(a, Action::StoreCache(ref p, _) if p == "cache/foo.json"));
    let r = reply(l.step_at(Event::CacheStored(true), at(JAN_8)));
    assert!(matches!(r, Reply::Found(_)));
    // Nothing more is asked of the caller once the lookup has answered.
    let r = reply(l.step_at(Event::Fetched(Some(ONE_COMMIT.to_string())), at(JAN_8)));
    assert!(matches!(r, Reply::Failed));
}

#[test]
fn unreadable_fresh_cache_goes_upstream() {
    let (mut l, _) = Lookup::new("foo".to_string());
    l.step_at(Event::CacheDirCreated(true), at(JAN_8));
    l.step_at(Event::CacheModified(Some(at(JAN_8))), at(JAN_8));
    let a = l.step_at(Event::CacheRead(None), at(JAN_8));
    assert!(matches!(a, Action::Fetch(_)));
}

#[test]
fn out_of_turn_event_is_an_internal_error() {
    let (mut l, _) = Lookup::new("foo".to_string());
    let r = reply(l.step_at(Event::CacheStored(true), at(JAN_8)));
    assert!(matches!(r, Reply::Failed));
    assert_eq!(l.phase(), Phase::Finished);
}

#[test]
fn step_uses_the_clock() {
    let mut l = fetching("foo");
    match l.step(Event::Fetched(Some(ONE_COMMIT.to_string()))) {
        Action::StoreCache(path, contents) => {
            assert_eq!(path, "cache/foo.json");
            let prefix = "{\"days_since_last_modified\":";
            assert!(contents.starts_with(prefix));
            let rest = &contents[prefix.len()..];
            let days: Result<i64, _> = rest[..rest.find(',').unwrap()].parse();
            assert!(days.is_ok(), "report {}", contents);
        }
        other => panic!("expected a store, got {:?}", other),
    }
}

#[test]
fn report_escapes_control_characters() {
    assert_eq!(
        freshness_result("p\u{1}\u{1f}\t", "\u{8}\u{c}\r\u{7f}é", 0),
        "{\"days_since_last_modified\":0,\"last_modified\":\"\\b\\f\\r\u{7f}é\",\"package_name\":\"p\\u0001\\u001f\\t\"}"
    );
}
