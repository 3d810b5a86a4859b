use manget::batch::{plan_chunks, Interval, RateLimit};
use manget::downloader::{Downloader, DownloaderError};

fn bounds(total: usize, limit: Option<RateLimit>) -> Vec<(usize, usize, bool)> {
    plan_chunks(total, limit).iter().map(|c| (c.start, c.end, c.pause)).collect()
}

#[test]
fn five_items_two_per_second() {
    let limit = RateLimit::new(2, Interval::from_secs(1));
    let chunks = plan_chunks(5, Some(limit));
    assert_eq!(chunks.len(), 3);
    assert_eq!(chunks.iter().filter(|c| c.pause).count(), 2);
    assert!(chunks.iter().all(|c| c.end - c.start <= 2));
    assert!(!chunks[chunks.len() - 1].pause);
    assert_eq!(limit.window(), Interval { secs: 1, nanos: 0 });
    assert_eq!(limit.max_items(), 2);
}

#[test]
fn chunks_cover_every_item_once() {
    for total in 0..40usize {
        for size in 1..9usize {
            let chunks = plan_chunks(total, Some(RateLimit::new(size, Interval::from_secs(1))));
            assert_eq!(chunks.len(), (total + size - 1) / size);
            let mut next = 0;
            for (k, c) in chunks.iter().enumerate() {
                assert_eq!(c.start, next);
                assert!(c.start < c.end);
                assert!(c.end - c.start <= size);
                assert_eq!(c.pause, k + 1 < chunks.len());
                next = c.end;
            }
            assert_eq!(next, total);
        }
    }
}

#[test]
fn exact_multiple_has_no_short_chunk() {
    let limit = RateLimit::new(3, Interval::from_secs(60));
    assert_eq!(bounds(6, Some(limit)), vec![(0, 3, true), (3, 6, false)]);
}

#[test]
fn nothing_to_fetch() {
    assert_eq!(bounds(0, Some(RateLimit::new(4, Interval::from_secs(1)))), vec![]);
    assert_eq!(bounds(0, None), vec![(0, 0, false)]);
}

#[test]
fn limit_larger_than_batch() {
    assert_eq!(bounds(3, Some(RateLimit::new(10, Interval::from_secs(1)))), vec![(0, 3, false)]);
}

#[test]
fn no_limit_is_one_wave() {
    assert_eq!(bounds(7, None), vec![(0, 7, false)]);
}

#[test]
fn new_downloader_saves_into_current_directory() {
    let d = Downloader::new();
    assert_eq!(d.len(), 0);
    assert_eq!(d.path(), ".");
    assert!(d.speed_limit().is_none());
}

#[test]
fn downloader_collects_urls() {
    let mut d = Downloader::new();
    d.add_url("http://a.example/x.png");
    d.add_url_with_name("http://a.example/y", "page_00");
    assert_eq!(d.len(), 2);
    assert_eq!(d.url_at(0), "http://a.example/x.png");
    assert_eq!(d.name_at(0), None);
    assert_eq!(d.url_at(1), "http://a.example/y");
    assert_eq!(d.name_at(1), Some("page_00"));
}

#[test]
fn downloader_speed_limits() {
    let d = Downloader::new().limit_urls_per_second(3);
    let l = d.speed_limit().unwrap();
    assert_eq!((l.max_items(), l.window()), (3, Interval { secs: 1, nanos: 0 }));
    let d = Downloader::new().limit_urls_per_minute(7);
    let l = d.speed_limit().unwrap();
    assert_eq!((l.max_items(), l.window()), (7, Interval { secs: 60, nanos: 0 }));
    let d = Downloader::new().limit_speed(1, Interval { secs: 2, nanos: 500 });
    let l = d.speed_limit().unwrap();
    assert_eq!((l.max_items(), l.window()), (1, Interval { secs: 2, nanos: 500 }));
}

#[test]
fn downloader_set_path() {
    let d = Downloader::new().set_path("./downloads", true).unwrap();
    assert_eq!(d.path(), "./downloads");
    match Downloader::new().set_path("./missing", false) {
        Err(DownloaderError::PathNotFound(p)) => assert_eq!(p, "./missing"),
        _ => panic!("expected PathNotFound"),
    }
}

#[test]
fn downloader_plans_by_its_limit() {
    let mut d = Downloader::new().limit_speed(1, Interval::from_secs(1));
    d.add_url("http://a.example/1");
    d.add_url("http://a.example/2");
    d.add_url("http://a.example/3");
    let plan: Vec<(usize, usize, bool)> =
        d.download().iter().map(|c| (c.start, c.end, c.pause)).collect();
    assert_eq!(plan, vec![(0, 1, true), (1, 2, true), (2, 3, false)]);
    let mut free = Downloader::new();
    free.add_url("http://a.example/1");
    free.add_url("http://a.example/2");
    let plan: Vec<(usize, usize, bool)> =
        free.download().iter().map(|c| (c.start, c.end, c.pause)).collect();
    assert_eq!(plan, vec![(0, 2, false)]);
}

#[test]
fn downloader_names_files() {
    let d = Downloader::new();
    assert_eq!(
        d.download_one_url("http://a.example/manga/tcbop_1084_001.jpg", None, 200).unwrap(),
        "tcbop_1084_001.jpg"
    );
    assert_eq!(d.download_one_url("http://a.example/x", Some("page_00"), 204).unwrap(), "page_00");
    match d.download_one_url("http://a.example/x", None, 404) {
        Err(DownloaderError::InvalidRequestStatus(url, status)) => {
            assert_eq!(url, "http://a.example/x");
            assert_eq!(status, 404);
        }
        _ => panic!("expected InvalidRequestStatus"),
    }
    match d.download_one_url("not a url", None, 404) {
        Err(DownloaderError::InvalidUrl(url)) => assert_eq!(url, "not a url"),
        _ => panic!("expected InvalidUrl"),
    }
}

#[test]
fn add_urls_consumes_the_downloader() {
    let mut d = Downloader::new();
    d.add_url("http://a.example/1");
    d.add_urls(vec!["http://a.example/2"]);
}
