use manget::download::{DownloadError, DownloadItem, FetchOutcome};
use manget::fetch::{
    check_status, download_one_item, download_one_url, prepare_request, FetchAttempt, FetchStep,
};

#[test]
fn status_bounds() {
    assert!(check_status(200).is_ok());
    assert!(check_status(299).is_ok());
    assert!(matches!(check_status(199), Err(DownloadError::HttpStatus(199))));
    assert!(matches!(check_status(300), Err(DownloadError::HttpStatus(300))));
    assert!(matches!(check_status(404), Err(DownloadError::HttpStatus(404))));
    assert!(matches!(check_status(500), Err(DownloadError::HttpStatus(500))));
}

#[test]
fn name_is_last_segment_with_inferred_extension() {
    let r = download_one_url("https://cdn.example/chapter/12/0001", None, 200, Some("image/jpeg"), 10);
    assert_eq!(r.unwrap(), "0001.jpg");
    let r = download_one_url("https://cdn.example/data/info", None, 200, Some("application/json"), 10);
    assert_eq!(r.unwrap(), "info.json");
}

#[test]
fn unrecognized_content_type_adds_no_extension() {
    let r = download_one_url("https://cdn.example/chapter/12/0001", None, 200, Some("video/mp4"), 10);
    assert_eq!(r.unwrap(), "0001");
    let r = download_one_url("https://cdn.example/chapter/12/0001", None, 200, None, 10);
    assert_eq!(r.unwrap(), "0001");
}

#[test]
fn name_with_extension_is_kept() {
    let r = download_one_url("https://cdn.example/a/b/page.png", None, 200, Some("image/jpeg"), 10);
    assert_eq!(r.unwrap(), "page.png");
    let r = download_one_url("https://cdn.example/x", Some("page_01.webp"), 200, Some("image/png"), 10);
    assert_eq!(r.unwrap(), "page_01.webp");
}

#[test]
fn explicit_name_wins_and_gets_an_extension() {
    let r = download_one_url("https://cdn.example/a/b/raw.bin", Some("page_003"), 200, Some("image/png"), 10);
    assert_eq!(r.unwrap(), "page_003.png");
    let r = download_one_url("https://cdn.example/", Some("page_003"), 200, Some("text/plain"), 10);
    assert_eq!(r.unwrap(), "page_003.txt");
}

#[test]
fn query_is_no_part_of_the_name() {
    let r = download_one_url("https://cdn.example/a/0001.jpg?token=abc", None, 200, None, 10);
    assert_eq!(r.unwrap(), "0001.jpg");
}

#[test]
fn url_decides_before_the_status() {
    let r = download_one_url("no url at all", None, 503, Some("image/png"), 10);
    assert!(matches!(r, Err(DownloadError::InvalidUrl(_))));
    let r = download_one_url("no url at all", Some("page_003"), 200, Some("image/png"), 10);
    assert!(matches!(r, Err(DownloadError::InvalidUrl(_))));
    let r = download_one_url("https://cdn.example/a", None, 503, Some("image/png"), 10);
    assert!(matches!(r, Err(DownloadError::HttpStatus(503))));
}

#[test]
fn url_is_checked_before_any_request() {
    match prepare_request("not a url", None) {
        Err(e) => {
            assert!(!e.is_retryable());
            match e {
                DownloadError::InvalidUrl(url) => assert_eq!(url, "not a url"),
                _ => panic!("expected InvalidUrl"),
            }
        }
        Ok(_) => panic!("expected InvalidUrl"),
    }
    assert!(matches!(prepare_request("not a url", Some("x")), Err(DownloadError::InvalidUrl(_))));
    assert!(matches!(prepare_request("data:text/plain,x", Some("x")), Err(DownloadError::InvalidUrl(_))));
    assert_eq!(prepare_request("https://cdn.example/a/b.jpg", None).unwrap(), "b.jpg");
    assert_eq!(prepare_request("https://cdn.example/a/b.jpg", Some("c")).unwrap(), "c");
    assert!(matches!(prepare_request("https://cdn.example/a/", None), Err(DownloadError::InvalidUrl(_))));
    assert!(matches!(prepare_request("https://cdn.example/a", Some("")), Err(DownloadError::InvalidUrl(_))));
}

#[test]
fn empty_body_is_no_download() {
    match download_one_url("https://cdn.example/a/b.jpg", None, 200, Some("image/jpeg"), 0) {
        Err(e) => {
            assert!(e.is_retryable());
            match e {
                DownloadError::RequestError(cause) => assert_eq!(cause, "empty response body"),
                _ => panic!("expected RequestError"),
            }
        }
        Ok(_) => panic!("an empty body is no page"),
    }
    assert!(download_one_url("https://cdn.example/a/b.jpg", None, 200, None, 1).is_ok());
}

#[test]
fn url_without_file_name_is_invalid() {
    match download_one_url("no url at all", None, 200, Some("image/png"), 10) {
        Err(DownloadError::InvalidUrl(url)) => assert_eq!(url, "no url at all"),
        _ => panic!("expected InvalidUrl"),
    }
    match download_one_url("mailto:someone@example.com", None, 200, None, 10) {
        Err(DownloadError::InvalidUrl(url)) => assert_eq!(url, "mailto:someone@example.com"),
        _ => panic!("expected InvalidUrl"),
    }
}

#[test]
fn empty_last_segment_names_no_file() {
    match download_one_url("https://cdn.example/", None, 200, Some("image/png"), 10) {
        Err(DownloadError::InvalidUrl(url)) => assert_eq!(url, "https://cdn.example/"),
        _ => panic!("expected InvalidUrl"),
    }
}

fn item_with_two_fallbacks() -> DownloadItem {
    DownloadItem::new("https://a.example/1", Some("one"))
        .add_option_url(Some("https://b.example/1".to_string()))
        .add_option_url(Some("https://c.example/1".to_string()))
}

#[test]
fn attempt_walks_the_urls_in_order() {
    let attempt = FetchAttempt::new(item_with_two_fallbacks());
    assert_eq!(attempt.url(), "https://a.example/1");
    assert_eq!(attempt.item().name(), Some("one"));
    let attempt = match attempt.settle(Err(DownloadError::HttpStatus(500))) {
        FetchStep::Next(a) => a,
        FetchStep::Done(_) => panic!("a fallback is left"),
    };
    assert_eq!(attempt.url(), "https://b.example/1");
    let attempt = match attempt.settle(Err(DownloadError::RequestError("reset".to_string()))) {
        FetchStep::Next(a) => a,
        FetchStep::Done(_) => panic!("a fallback is left"),
    };
    assert_eq!(attempt.url(), "https://c.example/1");
    match attempt.settle(Err(DownloadError::HttpStatus(404))) {
        FetchStep::Done(FetchOutcome::Failure(f)) => {
            assert!(matches!(f.error, DownloadError::HttpStatus(404)));
            assert_eq!(f.item.url(), "https://a.example/1");
            assert_eq!(f.item.alt_urls().len(), 2);
        }
        _ => panic!("the fetch is over"),
    }
}

#[test]
fn attempt_ends_on_success() {
    let attempt = FetchAttempt::new(item_with_two_fallbacks());
    match attempt.settle(Ok("out/one.jpg".to_string())) {
        FetchStep::Done(FetchOutcome::Success(path)) => assert_eq!(path, "out/one.jpg"),
        _ => panic!("the fetch is over"),
    }
}

#[test]
fn first_success_wins() {
    let outcome = download_one_item(
        item_with_two_fallbacks(),
        vec![
            Err(DownloadError::HttpStatus(500)),
            Ok("out/from_b".to_string()),
            Ok("out/from_c".to_string()),
        ],
    );
    match outcome {
        FetchOutcome::Success(path) => assert_eq!(path, "out/from_b"),
        _ => panic!("expected a success"),
    }
}

#[test]
fn last_error_is_reported() {
    let outcome = download_one_item(
        item_with_two_fallbacks(),
        vec![
            Err(DownloadError::HttpStatus(500)),
            Err(DownloadError::RequestError("timeout".to_string())),
            Err(DownloadError::InvalidUrl("https://c.example/1".to_string())),
        ],
    );
    assert!(!outcome.is_success());
    match outcome {
        FetchOutcome::Failure(f) => {
            match f.error {
                DownloadError::InvalidUrl(u) => assert_eq!(u, "https://c.example/1"),
                _ => panic!("expected the last error"),
            }
            assert_eq!(f.item.url(), "https://a.example/1");
        }
        _ => panic!("expected a failure"),
    }
}

#[test]
fn item_without_fallbacks() {
    let outcome = download_one_item(
        DownloadItem::new("https://a.example/1", None),
        vec![Err(DownloadError::IoError("disk full".to_string()))],
    );
    match outcome {
        FetchOutcome::Failure(f) => assert!(matches!(f.error, DownloadError::IoError(_))),
        _ => panic!("expected a failure"),
    }
    let outcome = download_one_item(
        DownloadItem::new("https://a.example/1", None),
        vec![Ok("p".to_string())],
    );
    assert!(outcome.is_success());
}
