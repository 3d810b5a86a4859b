use manget::manga::mangadex::MangadexChapter;
use manget::manga::{
    archive_parent_made, download_chapter, download_chapter_as_cbz, finish_archive,
    generate_chapter_full_name, get_chapter, request_headers, resolve, site_for_domain,
    zip_folder, ChapterError, DirEntry, Site,
};
use manget::download::DownloadItem;
use manget::web::UrlParts;

fn chapter(title: &str, number: &str) -> MangadexChapter {
    MangadexChapter::from_url(
        "https://mangadex.org/chapter/abc",
        title.to_string(),
        None,
        None,
        Some(number.to_string()),
        vec![
            DownloadItem::new("https://s.example/data-saver/h/1.jpg", Some("page_001")),
            DownloadItem::new("https://s.example/data-saver/h/2.jpg", Some("page_002")),
        ],
    )
}

#[test]
fn unsupported_domain() {
    match get_chapter("https://unknown-site.example/x") {
        Err(ChapterError::SiteNotSupported(domain)) => assert_eq!(domain, "unknown-site.example"),
        _ => panic!("expected SiteNotSupported"),
    }
}

#[test]
fn supported_domains() {
    let cases = [
        ("https://mangapark.net/title/74968-x/7968180-en-vol.13-ch.106", Site::MangaPark),
        ("https://mangadex.org/chapter/f9a8fc1f-1fb5-43af-8844-1672ee6c7290", Site::Mangadex),
        ("https://truyenqq.com.vn/truyen-tranh/x/chuong-85/749049", Site::Truyenqq),
        ("https://truyenqqne.com/truyen-tranh/x", Site::Truyenqq),
        ("https://blogtruyen.vn/c656991/nise-koi-chap-2295-ngoai-truyen", Site::BlogTruyen),
        ("https://www.toptruyen.live/truyen-tranh/x/chapter-81/771033", Site::TopTruyen),
        ("http://truyentuan.com/one-piece-chuong-1086/", Site::TruyenTranhTuan),
        ("https://www.nettruyenus.com/truyen-tranh/x/chap-77/1062446", Site::Nettruyen),
        ("https://nettruyenco.vn/truyen-tranh/x/chuong-85/749049", Site::Nettruyen),
    ];
    for (url, site) in cases {
        match get_chapter(url) {
            Ok(s) => assert_eq!(s, site),
            Err(_) => panic!("{} should resolve", url),
        }
    }
}

#[test]
fn domain_is_matched_without_case() {
    assert!(matches!(get_chapter("https://MangaDex.ORG/chapter/1"), Ok(Site::Mangadex)));
}

#[test]
fn malformed_url_is_invalid() {
    match get_chapter("not a url") {
        Err(ChapterError::InvalidUrl(url)) => assert_eq!(url, "not a url"),
        _ => panic!("expected InvalidUrl"),
    }
    match get_chapter("") {
        Err(ChapterError::InvalidUrl(url)) => assert_eq!(url, ""),
        _ => panic!("expected InvalidUrl"),
    }
}

#[test]
fn url_without_host_is_invalid() {
    match get_chapter("mailto:someone@mangadex.org") {
        Err(ChapterError::InvalidUrl(url)) => assert_eq!(url, "mailto:someone@mangadex.org"),
        _ => panic!("expected InvalidUrl"),
    }
}

#[test]
fn url_with_address_for_host_is_invalid() {
    match get_chapter("https://127.0.0.1/chapter/1") {
        Err(ChapterError::InvalidUrl(url)) => assert_eq!(url, "https://127.0.0.1/chapter/1"),
        _ => panic!("expected InvalidUrl"),
    }
}

#[test]
fn site_by_domain() {
    assert_eq!(site_for_domain("mangapark.net"), Some(Site::MangaPark));
    assert_eq!(site_for_domain("www.mangapark.net"), None);
    assert_eq!(site_for_domain("toptruyen.live"), None);
    assert_eq!(site_for_domain("www.nettruyenmax.com"), Some(Site::Nettruyen));
    assert_eq!(site_for_domain("nettruyen"), Some(Site::Nettruyen));
    assert_eq!(site_for_domain("nettruye.com"), None);
    assert_eq!(site_for_domain(""), None);
}

#[test]
fn resolve_decides_from_the_parts() {
    let parts = UrlParts {
        text: "https://example.org/".to_string(),
        scheme: "https".to_string(),
        has_host: true,
        domain: Some("example.org".to_string()),
        path_segments: Some(vec!["".to_string()]),
    };
    match resolve("https://example.org", &Some(parts)) {
        Err(ChapterError::SiteNotSupported(d)) => assert_eq!(d, "example.org"),
        _ => panic!("expected SiteNotSupported"),
    }
    let no_domain = UrlParts {
        text: "https://10.0.0.1/".to_string(),
        scheme: "https".to_string(),
        has_host: true,
        domain: None,
        path_segments: None,
    };
    match resolve("https://10.0.0.1", &Some(no_domain)) {
        Err(ChapterError::InvalidUrl(u)) => assert_eq!(u, "https://10.0.0.1/"),
        _ => panic!("expected InvalidUrl"),
    }
    match resolve("x", &None) {
        Err(ChapterError::InvalidUrl(u)) => assert_eq!(u, "x"),
        _ => panic!("expected InvalidUrl"),
    }
}

#[test]
fn full_name_of_a_chapter() {
    let c = chapter("Mato Seihei no Slave", "106");
    assert_eq!(generate_chapter_full_name(&c, false), "Mato Seihei no Slave - chap 106");
    let c = chapter("What? Why: \"this\"", "1.");
    assert_eq!(generate_chapter_full_name(&c, false), "What Why this - chap 1");
}

#[test]
fn chapter_goes_to_named_directory_by_default() {
    let c = chapter("Title", "7");
    let run = download_chapter(&c, None, None, false);
    assert_eq!(run.destination(), "./Title - chap 7");
    assert_eq!(run.pending().len(), 2);
    assert_eq!(run.pending()[1].url(), "https://s.example/data-saver/h/2.jpg");
    assert!(!run.is_retry());
    assert_eq!(run.referer(), None);
    assert!(run.rate_limit().is_none());
}

#[test]
fn chapter_goes_where_it_is_asked_to() {
    let c = chapter("Title", "7");
    let run = download_chapter(&c, Some("/tmp/out/ch7"), None, false);
    assert_eq!(run.destination(), "/tmp/out/ch7");
}

#[test]
fn archive_is_named_after_the_chapter() {
    let c = chapter("Title", "7");
    let job = download_chapter_as_cbz(&c, None, Ok("/tmp/scratch".to_string()), None, false).unwrap();
    assert_eq!(job.run.destination(), "/tmp/scratch");
    assert_eq!(job.run.pending().len(), 2);
    assert_eq!(job.archive, "./Title - chap 7.cbz");
    let job =
        download_chapter_as_cbz(&c, Some("out/seven.cbz"), Ok("/tmp/scratch".to_string()), None, false)
            .unwrap();
    assert_eq!(job.archive, "out/seven.cbz");
}

#[test]
fn archive_name_keeps_the_dots_of_the_label() {
    let job = |number: &str| {
        let c = MangadexChapter::from_url(
            "u",
            "M".to_string(),
            Some("Ch.".to_string() + number),
            None,
            Some("1".to_string()),
            Vec::new(),
        );
        download_chapter_as_cbz(&c, None, Ok("/tmp/s".to_string()), None, false).unwrap().archive
    };
    assert_eq!(job("057"), "./M - chap 1 - Ch.057.cbz");
    assert_eq!(job("058"), "./M - chap 1 - Ch.058.cbz");
    assert_ne!(job("057"), job("058"));
}

#[test]
fn archive_without_scratch_directory_fails() {
    let c = chapter("Title", "7");
    match download_chapter_as_cbz(&c, None, Err("no space left".to_string()), None, false) {
        Err(ChapterError::IoError(cause)) => assert_eq!(cause, "no space left"),
        _ => panic!("expected IoError"),
    }
    assert!(archive_parent_made(Ok(())).is_ok());
    match archive_parent_made(Err("read-only file system".to_string())) {
        Err(ChapterError::IoError(cause)) => assert_eq!(cause, "read-only file system"),
        _ => panic!("expected IoError"),
    }
}

#[test]
fn headers_of_the_sites() {
    let pair = |a: &str, b: &str| (a.to_string(), b.to_string());
    assert_eq!(request_headers(Site::BlogTruyen), vec![pair("Accept", "*/*"), pair("User-Agent", "Manget")]);
    assert_eq!(request_headers(Site::Nettruyen), vec![pair("User-Agent", "Manget")]);
    assert!(request_headers(Site::Mangadex).is_empty());
    assert!(request_headers(Site::TopTruyen).is_empty());
}

#[test]
fn test_zip_folder() {
    let entries = vec![
        DirEntry { name: "page_001.jpg".to_string(), is_file: true },
        DirEntry { name: "download".to_string(), is_file: false },
        DirEntry { name: "page_002.jpg".to_string(), is_file: true },
    ];
    assert_eq!(zip_folder(&entries), vec!["page_001.jpg".to_string(), "page_002.jpg".to_string()]);
    assert!(zip_folder(&Vec::new()).is_empty());
}

#[test]
fn packed_chapter_loses_its_directory() {
    let end = finish_archive("/tmp/scratch".to_string(), "out/seven.cbz".to_string(), Ok(()));
    assert_eq!(end.remove, Some("/tmp/scratch".to_string()));
    assert_eq!(end.result.unwrap(), "out/seven.cbz");
}

#[test]
fn failed_packing_keeps_the_directory() {
    let end = finish_archive(
        "/tmp/scratch".to_string(),
        "out/seven.cbz".to_string(),
        Err("no space left".to_string()),
    );
    assert_eq!(end.remove, None);
    match end.result {
        Err(ChapterError::ArchiveError(cause)) => assert_eq!(cause, "no space left"),
        _ => panic!("expected ArchiveError"),
    }
}
