use url_resource::config::{
    TokioUrlResourceProvider, UrlResource, UrlResourceProvider, UrlResourceProviderKind,
    DEFAULT_CACHE_TTL_MILLIS, DEFAULT_FETCH_MAX_WAIT_MILLIS, DEFAULT_MPSC_CHANNEL_SIZE,
};
use url_resource::error::{
    UrlResourceError, UrlResourceErrorReason, UrlResourceErrorReport, UrlResourceErrorReports,
};
use url_resource::locator::Locator;

fn config(cache_ttl_millis: Option<u64>, mpsc_channel_size: Option<usize>) -> UrlResource {
    UrlResource {
        url: Locator::parse("file:///tmp/hello.txt").unwrap(),
        cache_ttl_millis,
        fetch_max_wait_millis: None,
        hash: None,
        provider: UrlResourceProvider::Tokio(TokioUrlResourceProvider { mpsc_channel_size }),
    }
}

#[test]
fn settings_apply_defaults() {
    let settings = config(None, None).settings().unwrap();
    assert_eq!(settings.ttl_millis, 15 * 60 * 1000);
    assert_eq!(settings.ttl_millis, DEFAULT_CACHE_TTL_MILLIS);
    assert_eq!(settings.channel_size, 8);
    assert_eq!(settings.channel_size, DEFAULT_MPSC_CHANNEL_SIZE);
    assert_eq!(settings.fetch_max_wait_millis, DEFAULT_FETCH_MAX_WAIT_MILLIS);
    assert_eq!(settings.fetch_max_wait_millis, 30_000);
    assert_eq!(settings.url.as_str(), "file:///tmp/hello.txt");
}

#[test]
fn settings_keep_configured_values() {
    let settings = config(Some(60_000), Some(2)).settings().unwrap();
    assert_eq!(settings.ttl_millis, 60_000);
    assert_eq!(settings.channel_size, 2);
}

#[test]
fn settings_refuse_empty_queue() {
    let err = config(None, Some(0)).settings().err().unwrap();
    assert_eq!(err.reason(), UrlResourceErrorReason::FailedPrecondition);
    assert_eq!(
        err,
        UrlResourceError::new_failed_precondition(
            "Command queue capacity must be at least one".to_owned()
        )
    );
}

#[test]
fn provider_kind_is_named_in_snake_case() {
    let provider = UrlResourceProvider::Tokio(TokioUrlResourceProvider { mpsc_channel_size: None });
    assert_eq!(provider.kind(), UrlResourceProviderKind::Tokio);
    assert_eq!(provider.kind().as_str(), "tokio");
}

#[test]
fn error_messages() {
    let cases = vec![
        (UrlResourceError::new_failed_precondition("m".to_owned()), "Failed precondition: m"),
        (UrlResourceError::new_resource_access_denied("m".to_owned()), "Denied access to resource: m"),
        (UrlResourceError::new_resource_not_found("m".to_owned()), "Resource not found: m"),
        (UrlResourceError::new_resource_read_error("m".to_owned()), "Error resource: m"),
        (UrlResourceError::new_service_unavailable("m".to_owned()), "Service unavailable: m"),
        (UrlResourceError::new_unknown("m".to_owned()), "Unknown: m"),
        (
            UrlResourceError::new_unsupported_provider(UrlResourceProviderKind::Tokio),
            "Unsupported UrlResourceProvider kind `tokio`",
        ),
        (UrlResourceError::new_unsupported_scheme("ftp".to_owned()), "URL scheme `ftp` not supported"),
    ];
    for (error, message) in cases {
        assert_eq!(error.to_message(), message);
    }
}

#[test]
fn error_reason_codes() {
    let cases = vec![
        (UrlResourceErrorReason::FailedPrecondition, "FAILED_PRECONDITION"),
        (UrlResourceErrorReason::ResourceAccessDenied, "RESOURCE_ACCESS_DENIED"),
        (UrlResourceErrorReason::ResourceNotFound, "RESOURCE_NOT_FOUND"),
        (UrlResourceErrorReason::ResourceReadError, "RESOURCE_READ_ERROR"),
        (UrlResourceErrorReason::ServiceUnavailable, "SERVICE_UNAVAILABLE"),
        (UrlResourceErrorReason::Unknown, "UNKNOWN"),
        (UrlResourceErrorReason::UnsupportedProvider, "UNSUPPORTED_PROVIDER"),
        (UrlResourceErrorReason::UnsupportedScheme, "UNSUPPORTED_SCHEME"),
    ];
    for (reason, code) in cases {
        assert_eq!(reason.as_str(), code);
    }
    assert_eq!(
        UrlResourceError::new_resource_access_denied("x".to_owned()).reason(),
        UrlResourceErrorReason::ResourceAccessDenied
    );
    assert_eq!(UrlResourceError::DOMAIN, "com.appbiotic.data.url-resource");
}

#[test]
fn error_report_holds_code_and_message() {
    let report =
        UrlResourceErrorReport::from(UrlResourceError::new_unsupported_scheme("ftp".to_owned()));
    assert_eq!(report.code, "UNSUPPORTED_SCHEME");
    assert_eq!(report.message, "URL scheme `ftp` not supported");
    let reports = UrlResourceErrorReports::from(report);
    assert_eq!(reports.errors.len(), 1);
    assert_eq!(reports.errors[0].code, "UNSUPPORTED_SCHEME");
}
