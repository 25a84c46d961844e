use url_resource::cache::{watch_closed, ActorAction, CacheEvent, FetchStatus, ResourceCache};
use url_resource::config::UrlResourceHash;
use url_resource::content::UrlResourceContent;
use url_resource::error::{UrlResourceError, UrlResourceErrorReason};
use url_resource::fetch::{
    fetch_timed_out, finish_file_fetch, select_adapter, FetchAdapter, FileReadFailure,
};
use url_resource::locator::Locator;

const HELLO: &str = "Hello, world!\n";
const HELLO_SHA256: &str =
    "sha256:d9014c4624844aa5bac314773d6b689ad467fa4e1d1a50a1b8a99d5a95f72ff5";

fn hello_content() -> UrlResourceContent {
    UrlResourceContent::from_fetched(HELLO.as_bytes().to_vec(), None)
}

fn outcome(cache: &ResourceCache) -> Option<Result<UrlResourceContent, UrlResourceError>> {
    cache.status().clone().into_outcome()
}

#[test]
fn ftp_unsupported() {
    let url = Locator::parse("ftp://example.com/hello.txt").unwrap();
    let err = select_adapter(&url).err().unwrap();
    assert_eq!(err, UrlResourceError::new_unsupported_scheme("ftp".to_owned()));
}

#[test]
fn file_scheme_selects_file_adapter() {
    let url = Locator::parse("file:///tmp/hello.txt").unwrap();
    assert_eq!(select_adapter(&url), Ok(FetchAdapter::File));
}

#[test]
fn file_resource() {
    let url = Locator::parse("file:///tmp/hello.txt").unwrap();
    let result = finish_file_fetch(
        Ok(HELLO.as_bytes().to_vec()),
        &url,
        Some(UrlResourceHash::Sha256),
    );
    let content = result.ok().unwrap();
    assert_eq!(String::from_utf8(content.data.to_vec()).unwrap(), HELLO);
    assert_eq!(content.hash.as_deref(), Some(HELLO_SHA256));
}

#[test]
fn file_resource_without_hash() {
    let content = hello_content();
    assert_eq!(content.data.to_vec(), HELLO.as_bytes().to_vec());
    assert_eq!(content.hash, None);
}

#[test]
fn empty_file_content() {
    let content = UrlResourceContent::from_fetched(Vec::new(), Some(UrlResourceHash::Sha256));
    assert!(content.data.is_empty());
    assert_eq!(
        content.hash.as_deref(),
        Some("sha256:e3b0c44298fc1c149afbf4c8996fb92427ae41e4649b934ca495991b7852b855")
    );
}

#[test]
fn file_read_failures_are_classified() {
    let url = Locator::parse("file:///tmp/missing.txt").unwrap();
    let not_found = finish_file_fetch(
        Err(FileReadFailure::Open { message: "no such file".to_owned() }),
        &url,
        None,
    );
    assert_eq!(
        not_found.err(),
        Some(UrlResourceError::new_resource_not_found("no such file".to_owned()))
    );
    let unreadable = finish_file_fetch(
        Err(FileReadFailure::Read { message: "is a directory".to_owned() }),
        &url,
        None,
    );
    assert_eq!(
        unreadable.err(),
        Some(UrlResourceError::new_resource_read_error("is a directory".to_owned()))
    );
    let denied = finish_file_fetch(
        Err(FileReadFailure::AccessDenied { message: "permission denied".to_owned() }),
        &url,
        None,
    );
    assert_eq!(
        denied.err(),
        Some(UrlResourceError::new_resource_access_denied("permission denied".to_owned()))
    );
    let no_path = FileReadFailure::NoFilePath.into_error(&url);
    assert_eq!(
        no_path,
        UrlResourceError::new_failed_precondition(
            "Configured URL resource invalid: file:///tmp/missing.txt".to_owned()
        )
    );
}

#[test]
fn locator_is_normalized_by_url_parsing() {
    let url = Locator::parse("HTTP://Example.COM").unwrap();
    assert_eq!(url.scheme(), "http");
    assert_eq!(url.as_str(), "http://example.com/");
}

#[test]
fn locator_rejects_relative_text() {
    let err = Locator::parse("not a url").err().unwrap();
    assert_eq!(err.reason(), UrlResourceErrorReason::FailedPrecondition);
}

#[test]
fn ttl_works() {
    let mut cache = ResourceCache::new(1000);
    assert_eq!(cache.on_fetch(0), ActorAction::ReplyAndStartFetch);
    let missing = UrlResourceError::new_resource_not_found("hello.txt".to_owned());
    assert_eq!(
        cache.on_fetch_completed(Err(missing), 0),
        ActorAction::PublishAndScheduleClear { at: 1001 }
    );
    assert_eq!(
        outcome(&cache).unwrap().err().map(|e| e.reason()),
        Some(UrlResourceErrorReason::ResourceNotFound),
        "testing that resource is initially not found"
    );

    assert_eq!(cache.on_fetch(990), ActorAction::Reply);
    assert_eq!(
        outcome(&cache).unwrap().err().map(|e| e.reason()),
        Some(UrlResourceErrorReason::ResourceNotFound),
        "testing that resource not found is still cached"
    );

    assert_eq!(cache.on_fetch(1001), ActorAction::ReplyAndStartFetch);
    assert!(matches!(cache.status(), FetchStatus::Fetching));
    cache.on_fetch_completed(Ok(hello_content()), 1001);
    let content = outcome(&cache).unwrap().ok().unwrap();
    assert_eq!(String::from_utf8(content.data.to_vec()).unwrap(), HELLO);
}

#[test]
fn single_flight_shares_one_fetch() {
    let mut cache = ResourceCache::new(60_000);
    let actions: Vec<ActorAction> = [0u64, 1, 2, 5, 9].iter().map(|t| cache.on_fetch(*t)).collect();
    assert_eq!(actions[0], ActorAction::ReplyAndStartFetch);
    assert!(actions[1..].iter().all(|a| *a == ActorAction::Reply));
    cache.on_fetch_completed(Ok(hello_content()), 10);
    for _ in 0..5 {
        assert_eq!(outcome(&cache), Some(Ok(hello_content())));
    }
}

#[test]
fn expired_result_refetches_once() {
    let mut cache = ResourceCache::new(100);
    cache.on_fetch(0);
    cache.on_fetch_completed(Ok(hello_content()), 50);
    assert_eq!(cache.on_fetch(149), ActorAction::Reply);
    assert_eq!(cache.on_fetch(150), ActorAction::ReplyAndStartFetch);
    assert_eq!(cache.on_fetch(151), ActorAction::Reply);
    assert_eq!(cache.on_fetch(500), ActorAction::Reply);
}

#[test]
fn failure_is_cached_until_expiry() {
    let mut cache = ResourceCache::new(100);
    let failure = UrlResourceError::new_unknown("boom".to_owned());
    cache.on_fetch(0);
    cache.on_fetch_completed(Err(failure.clone()), 0);
    assert_eq!(cache.on_fetch(99), ActorAction::Reply);
    assert_eq!(outcome(&cache), Some(Err(failure)));
    assert_eq!(cache.on_fetch(100), ActorAction::ReplyAndStartFetch);
}

#[test]
fn stale_clear_keeps_newer_result() {
    let mut cache = ResourceCache::new(100);
    cache.on_fetch(0);
    cache.on_fetch_completed(Err(UrlResourceError::new_unknown("old".to_owned())), 0);
    assert_eq!(cache.on_fetch(100), ActorAction::ReplyAndStartFetch);
    cache.on_fetch_completed(Ok(hello_content()), 100);
    assert_eq!(cache.on_clear(100), ActorAction::Ignore);
    assert_eq!(outcome(&cache), Some(Ok(hello_content())));
}

#[test]
fn clear_resets_expired_result() {
    let mut cache = ResourceCache::new(100);
    cache.on_fetch(0);
    cache.on_fetch_completed(Ok(hello_content()), 0);
    assert_eq!(cache.on_clear(100), ActorAction::Ignore);
    assert_eq!(cache.on_clear(101), ActorAction::Publish);
    assert!(matches!(cache.status(), FetchStatus::NotFetched));
    assert_eq!(cache.on_fetch(101), ActorAction::ReplyAndStartFetch);
}

#[test]
fn clear_without_result_is_ignored() {
    let mut cache = ResourceCache::new(100);
    assert_eq!(cache.on_clear(5_000), ActorAction::Ignore);
    assert!(matches!(cache.status(), FetchStatus::NotFetched));
    cache.on_fetch(0);
    assert_eq!(cache.on_clear(5_000), ActorAction::Ignore);
    assert!(matches!(cache.status(), FetchStatus::Fetching));
}

#[test]
fn completion_without_fetch_is_ignored() {
    let mut cache = ResourceCache::new(100);
    assert_eq!(cache.on_fetch_completed(Ok(hello_content()), 0), ActorAction::Ignore);
    assert!(matches!(cache.status(), FetchStatus::NotFetched));
}

#[test]
fn expiration_saturates_at_clock_end() {
    let mut cache = ResourceCache::new(u64::MAX);
    cache.on_fetch(10);
    assert_eq!(
        cache.on_fetch_completed(Ok(hello_content()), 10),
        ActorAction::PublishAndScheduleClear { at: u64::MAX }
    );
    assert_eq!(cache.on_fetch(u64::MAX - 1), ActorAction::Reply);
}

#[test]
fn handle_dispatches_events_in_order() {
    let mut cache = ResourceCache::new(10);
    assert_eq!(cache.ttl_millis(), 10);
    assert_eq!(cache.handle(CacheEvent::Fetch { now: 0 }), ActorAction::ReplyAndStartFetch);
    assert_eq!(
        cache.handle(CacheEvent::Completed { result: Ok(hello_content()), now: 3 }),
        ActorAction::PublishAndScheduleClear { at: 14 }
    );
    assert_eq!(cache.handle(CacheEvent::Clear { now: 13 }), ActorAction::Ignore);
    assert_eq!(cache.handle(CacheEvent::Clear { now: 14 }), ActorAction::Publish);
}

#[test]
fn waiting_callers_skip_unfinished_statuses() {
    assert_eq!(FetchStatus::NotFetched.into_outcome(), None);
    assert_eq!(FetchStatus::Fetching.into_outcome(), None);
    let fetched = FetchStatus::Fetched { result: Ok(hello_content()), expiration: 7 };
    assert_eq!(fetched.into_outcome(), Some(Ok(hello_content())));
    assert_eq!(watch_closed().reason(), UrlResourceErrorReason::ServiceUnavailable);
}

#[test]
fn timed_out_fetch_is_cached_as_unavailable() {
    let mut cache = ResourceCache::new(100);
    cache.on_fetch(0);
    cache.on_fetch_completed(Err(fetch_timed_out()), 30);
    assert_eq!(
        outcome(&cache),
        Some(Err(UrlResourceError::new_service_unavailable("timed out".to_owned())))
    );
    assert_eq!(cache.on_fetch(129), ActorAction::Reply);
}

#[test]
fn closed_watch_reports_unavailable() {
    assert_eq!(
        watch_closed(),
        UrlResourceError::new_service_unavailable("URL resource watch stream ended".to_owned())
    );
}

#[test]
fn cloned_status_keeps_result_and_expiration() {
    let status = FetchStatus::Fetched { result: Ok(hello_content()), expiration: 42 };
    match status.clone() {
        FetchStatus::Fetched { result, expiration } => {
            assert_eq!(expiration, 42);
            assert_eq!(result, Ok(hello_content()));
        }
        _ => panic!("clone changed the status"),
    }
}
