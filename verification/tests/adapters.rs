use manget::manga::blogtruyen::{BlogTruyenChapter, BlogTruyenError};
use manget::manga::mangadex::{
    chapter_id, chapter_info_address, chapter_pages_address, get_chapter_info, get_chapter_pages,
    MangadexChapter, MangadexError, Relationship,
};
use manget::manga::mangapark::{
    get_chapter_download_info, get_title_and_chapter_name, pages_from_listing, MangaParkChapter,
    MangaParkError,
};
use manget::manga::nettruyen::{NettruyenChapter, NettruyenError};
use manget::manga::toptruyen::{TopTruyenChapter, TopTruyenError};
use manget::manga::truyenqq::{TruyenqqChapter, TruyenqqError};
use manget::manga::truyentranhtuan::{TruyenTranhTuanChapter, TruyenTranhTuanError};
use manget::manga::Chapter;
use manget::scrape::{make_page_name, pick_filled, pick_label};

#[test]
fn picked_text_loses_the_white_space_around_it() {
    let texts = vec!["  \n One Piece \t".to_string(), "\u{a0}x\u{2003}".to_string(), "   ".to_string()];
    assert_eq!(pick_filled(&texts, 0), Some("One Piece".to_string()));
    assert_eq!(pick_filled(&texts, 1), Some("x".to_string()));
    assert_eq!(pick_filled(&texts, 2), None);
    assert_eq!(pick_filled(&texts, 3), None);
}

#[test]
fn picked_label_loses_its_lead() {
    let texts = vec![" - - Chapter 5 ".to_string(), " - ".to_string(), "-x".to_string()];
    assert_eq!(pick_label(&texts, 0, "- "), Some("Chapter 5".to_string()));
    assert_eq!(pick_label(&texts, 1, "- "), Some("-".to_string()));
    assert_eq!(pick_label(&texts, 1, "-"), None);
    assert_eq!(pick_label(&texts, 2, "- "), Some("-x".to_string()));
    assert_eq!(pick_label(&texts, 3, "- "), None);
}

#[test]
fn page_names() {
    assert_eq!(make_page_name(0, "jpg"), "page_00.jpg");
    assert_eq!(make_page_name(7, "png"), "page_07.png");
    assert_eq!(make_page_name(123, "webp"), "page_123.webp");
}

const TOPTRUYEN: &str = r#"<html><body>
<h1 class="chapter-info">
<a href="/x">Grand Blue</a>
<span> - Chapter 81 </span></h1>
<div class="page-chapter" id="page_1"><img src="https://i.example/81/1.jpg"></div>
<div class="page-chapter" id="page_2"><img src="https://i.example/81/2.png?x=1"></div>
<div class="page-chapter"><img src="https://i.example/ad.jpg"></div>
</body></html>"#;

#[test]
fn toptruyen_chapter() {
    let c = TopTruyenChapter::from_url("https://www.toptruyen.live/c/81", TOPTRUYEN).unwrap();
    assert_eq!(c.url(), "https://www.toptruyen.live/c/81");
    assert_eq!(c.manga(), "Grand Blue");
    assert_eq!(c.chapter(), "Chapter 81");
    assert_eq!(c.referer(), Some("https://www.toptruyen.live/".to_string()));
    let pages = c.pages_download_info();
    assert_eq!(pages.len(), 2);
    assert_eq!(pages[0].url(), "https://i.example/81/1.jpg");
    assert_eq!(pages[0].name(), Some("page_00.jpg"));
    assert_eq!(pages[1].url(), "https://i.example/81/2.png?x=1");
    assert_eq!(pages[1].name(), Some("page_01.png"));
}

#[test]
fn toptruyen_without_title() {
    match TopTruyenChapter::from_url("u", "<html><body><p>nothing</p></body></html>") {
        Err(TopTruyenError::ParseError(what)) => assert_eq!(what, "cannot find title"),
        _ => panic!("expected a parse error"),
    }
}

#[test]
fn toptruyen_without_title_text_or_label() {
    let no_title = r#"<h1 class="chapter-info">a</h1>
<div class="page-chapter" id="page_1"><img src="https://i.example/1.jpg"></div>"#;
    match TopTruyenChapter::from_url("u", no_title) {
        Err(TopTruyenError::ParseError(what)) => assert_eq!(what, "cannot find title"),
        _ => panic!("expected a parse error"),
    }
    let blank_title = r#"<h1 class="chapter-info">a<b>  </b>c<b>- L</b></h1>"#;
    match TopTruyenChapter::from_url("u", blank_title) {
        Err(TopTruyenError::ParseError(what)) => assert_eq!(what, "cannot find title"),
        _ => panic!("expected a parse error"),
    }
    let no_label = r#"<h1 class="chapter-info">a<b>T</b>c<b>   </b></h1>"#;
    match TopTruyenChapter::from_url("u", no_label) {
        Err(TopTruyenError::ParseError(what)) => assert_eq!(what, "cannot find chapter"),
        _ => panic!("expected a parse error"),
    }
}

#[test]
fn toptruyen_image_without_source() {
    let html = r#"<h1 class="chapter-info">a<b>T</b>c<b>- L</b></h1>
<div class="page-chapter" id="page_1"><img alt="x"></div>"#;
    match TopTruyenChapter::from_url("u", html) {
        Err(TopTruyenError::ParseError(what)) => assert_eq!(what, "cannot find image source"),
        _ => panic!("expected a parse error"),
    }
}

#[test]
fn truyenqq_chapter() {
    let html = r#"<h1 class="detail-title">
<a href="/x">Grand Blue</a> - Chuong 85</h1>
<img class="lazy" referrerpolicy="origin" src="https://i.example/85/1.jpg">
<img class="lazy" src="https://i.example/other.jpg">
<img class="lazy" referrerpolicy="origin" src="https://i.example/85/2.jpg">"#;
    let c = TruyenqqChapter::from_url("https://truyenqq.com.vn/c/85", html).unwrap();
    assert_eq!(c.manga(), "Grand Blue");
    assert_eq!(c.chapter(), "Chuong 85");
    assert_eq!(c.referer(), Some("https://truyenqq.com.vn/".to_string()));
    assert_eq!(c.pages_download_info().len(), 2);
    assert_eq!(c.pages_download_info()[1].url(), "https://i.example/85/2.jpg");
    assert_eq!(c.pages_download_info()[1].name(), Some("page_01.jpg"));
    assert!(matches!(
        TruyenqqChapter::from_url("u", "<p></p>"),
        Err(TruyenqqError::ParseError(_))
    ));
}

#[test]
fn blogtruyen_chapter() {
    let html = r#"<header><div class="breadcrumbs">
<a href="/">Home</a><span> &gt; </span><a href="/x">Nisekoi</a><span> &gt; Nisekoi chap 229.5 </span>
</div></header>
<article id="content"><img src="https://i.example/1.jpg"><img src="https://i.example/2.png"></article>"#;
    let c = BlogTruyenChapter::from_url("https://blogtruyen.vn/c1", "blogtruyen.vn", html).unwrap();
    assert_eq!(c.manga(), "Nisekoi");
    assert_eq!(c.chapter(), "chap 229.5");
    assert_eq!(c.referer(), Some("https://blogtruyen.vn/".to_string()));
    assert_eq!(c.pages_download_info().len(), 2);
    assert_eq!(c.pages_download_info()[1].name(), Some("page_01.png"));
    assert!(matches!(
        BlogTruyenChapter::from_url("u", "d", "<p></p>"),
        Err(BlogTruyenError::ParseError(_))
    ));
}

#[test]
fn blogtruyen_without_title_text_or_label() {
    let images = r#"<article id="content"><img src="https://i.example/1.jpg"></article>"#;
    let short = format!(
        r#"<header><div class="breadcrumbs"><a href="/">Home</a><span> &gt; </span></div></header>{images}"#
    );
    match BlogTruyenChapter::from_url("u", "blogtruyen.vn", &short) {
        Err(BlogTruyenError::ParseError(what)) => assert_eq!(what, "cannot find title"),
        _ => panic!("expected a parse error"),
    }
    let unlabelled = format!(
        r#"<header><div class="breadcrumbs">
<a href="/">Home</a><span> &gt; </span><a href="/x">Nisekoi</a><span> &gt; Nisekoi </span>
</div></header>{images}"#
    );
    match BlogTruyenChapter::from_url("u", "blogtruyen.vn", &unlabelled) {
        Err(BlogTruyenError::ParseError(what)) => assert_eq!(what, "cannot find chapter"),
        _ => panic!("expected a parse error"),
    }
}

#[test]
fn blogtruyen_mobile_pages_come_from_the_main_site() {
    assert_eq!(
        BlogTruyenChapter::host_to_fetch(Some("m.blogtruyenmoi.com")),
        Some("blogtruyenmoi.com".to_string())
    );
    assert_eq!(BlogTruyenChapter::host_to_fetch(Some("blogtruyen.vn")), None);
    assert_eq!(BlogTruyenChapter::host_to_fetch(None), None);
}

#[test]
fn nettruyen_chapter() {
    let html = r#"<h1 class="txt-primary">
   <a href="/x">Lagier</a>  <span>- Chapter 77</span></h1>
<div class="page-chapter"><img src="//i.example/77/1.jpg" data-cdn="//cdn.example/77/1.jpg"></div>
<div class="page-chapter"><img data-sv1="https://i.example/77/3.webp" data-src="https://o.example/3.jpg"></div>
<div class="page-chapter"><img data-src="https://i.example/77/4.png"></div>"#;
    let c = NettruyenChapter::from_url("https://www.nettruyenus.com/c/77", "https", "www.nettruyenus.com", html)
        .unwrap();
    assert_eq!(c.manga(), "Lagier");
    assert_eq!(c.chapter(), "Chapter 77");
    assert_eq!(c.referer(), Some("https://www.nettruyenus.com/".to_string()));
    let pages = c.pages_download_info();
    assert_eq!(pages.len(), 3);
    assert_eq!(pages[0].url(), "https://i.example/77/1.jpg");
    assert_eq!(pages[0].name(), Some("page_00.jpg"));
    assert_eq!(pages[0].alt_urls().to_vec(), vec!["https://cdn.example/77/1.jpg".to_string()]);
    assert_eq!(pages[1].url(), "https://i.example/77/3.webp");
    assert_eq!(pages[1].name(), Some("page_01.webp"));
    assert!(pages[1].alt_urls().is_empty());
    assert_eq!(pages[2].url(), "https://i.example/77/4.png");
    assert_eq!(pages[2].name(), Some("page_02.png"));
}

#[test]
fn nettruyen_without_referer() {
    let html = r#"<h1 class="txt-primary">T<span>- 5</span></h1>
<div class="page-chapter"><img src="https://i.example/1.jpg" referrerpolicy="no-referrer"></div>"#;
    let c = NettruyenChapter::from_url("u", "http", "nettruyenco.vn", html).unwrap();
    assert_eq!(c.referer(), None);
    assert_eq!(c.manga(), "T");
    assert_eq!(c.chapter(), "5");
}

#[test]
fn nettruyen_missing_fields() {
    let expect = |html: &str, what: &str| match NettruyenChapter::from_url("u", "http", "d", html) {
        Err(NettruyenError::ParseError(w)) => assert_eq!(w, what),
        _ => panic!("expected a parse error"),
    };
    expect("<p></p>", "cannot find title");
    expect(r#"<h1 class="txt-primary">  </h1>"#, "cannot find title");
    expect(r#"<h1 class="txt-primary">T</h1>"#, "cannot find chapter");
    expect(r#"<h1 class="txt-primary">T<span>   </span></h1>"#, "cannot find chapter");
    expect(
        r#"<h1 class="txt-primary">T<span>- 5</span></h1><div class="page-chapter"><img alt="x"></div>"#,
        "cannot find image source",
    );
}

#[test]
fn truyentranhtuan_chapter() {
    let html = r#"<div id="read-title"><p><a href="/">Home</a>
<a href="/x"> One Piece </a><span> &gt; One Piece 1086</span></p></div>
<script>var slides_page_path = ["http://i.example/op/1086/001.jpg",
"http://i.example/op/1086/002.jpg"];</script>"#;
    let c = TruyenTranhTuanChapter::from_url("http://truyentuan.com/op-1086/", html).unwrap();
    assert_eq!(c.manga(), "One Piece");
    assert_eq!(c.chapter(), "One Piece 1086");
    assert_eq!(c.referer(), None);
    let pages = c.pages_download_info();
    assert_eq!(pages.len(), 2);
    assert_eq!(pages[0].url(), "http://i.example/op/1086/001.jpg");
    assert_eq!(pages[0].name(), Some("001.jpg"));
    assert_eq!(pages[1].name(), Some("002.jpg"));
}

#[test]
fn truyentranhtuan_errors() {
    let titled = r#"<div id="read-title">a<i>b</i><b>T</b><b>&gt; L</b></div>"#;
    match TruyenTranhTuanChapter::from_url("u", titled) {
        Err(TruyenTranhTuanError::ParseError(what)) => assert_eq!(what, "cannot find chapter list"),
        _ => panic!("expected a parse error"),
    }
    let untitled = r#"<div id="read-title">a</div><script>slides_page_path = ["x"];</script>"#;
    match TruyenTranhTuanChapter::from_url("u", untitled) {
        Err(TruyenTranhTuanError::ParseError(what)) => assert_eq!(what, "cannot find title"),
        _ => panic!("expected a parse error"),
    }
    let broken = r#"<div id="read-title">a<i>b</i><b>T</b><b>&gt; L</b></div><script>slides_page_path = [1, 2];</script>"#;
    assert!(matches!(
        TruyenTranhTuanChapter::from_url("u", broken),
        Err(TruyenTranhTuanError::CannotDeserialize)
    ));
    match TruyenTranhTuanChapter::from_url("u", "<p></p>") {
        Err(TruyenTranhTuanError::ParseError(what)) => assert_eq!(what, "cannot find title"),
        _ => panic!("expected a parse error"),
    }
}

const MANGAPARK: &str = r#"<html><body><h3><a href="/title/74968-x">Mato Seihei <b>no</b> Slave</a></h3>
<h6><a href="/title/74968-x/7968180">Vol.13 Ch.106: Bell's Tears</a></h6>
<script>["/title/74968-x/7968180","https://s.example/1.jpg","https://s.example/2.jpg",7]</script>
</body></html>"#;

#[test]
fn mangapark_chapter() {
    let c = MangaParkChapter::from_url("https://mangapark.net/title/74968-x/7968180", MANGAPARK).unwrap();
    assert_eq!(c.manga(), "Mato Seihei no Slave");
    assert_eq!(c.chapter(), "Vol.13 Ch.106: Bell's Tears");
    assert_eq!(c.referer(), None);
    let pages = c.pages_download_info();
    assert_eq!(pages.len(), 2);
    assert_eq!(pages[0].url(), "https://s.example/1.jpg");
    assert_eq!(pages[0].name(), Some("page_000"));
    assert_eq!(pages[1].name(), Some("page_001"));
}

#[test]
fn mangapark_parts() {
    let (title, label) = get_title_and_chapter_name(MANGAPARK).unwrap();
    assert_eq!(title, "Mato Seihei no Slave");
    assert_eq!(label, "Vol.13 Ch.106: Bell's Tears");
    assert_eq!(get_chapter_download_info(MANGAPARK).unwrap().len(), 2);
    assert!(matches!(get_title_and_chapter_name("<p></p>"), Err(MangaParkError::ParseError)));
    assert!(matches!(get_chapter_download_info("<p></p>"), Err(MangaParkError::ParseError)));
    assert!(matches!(MangaParkChapter::from_url("u", "<p></p>"), Err(MangaParkError::ParseError)));
    let blank = r#"<h3><a href="/title/1"></a></h3><h6><a href="/title/1/2">Ch.1</a></h6>"#;
    assert!(matches!(get_title_and_chapter_name(blank), Err(MangaParkError::ParseError)));
}

#[test]
fn mangapark_listing() {
    let pages = pages_from_listing("\"/title/1\",\"https://a/1\",\"https://a/2\",").unwrap();
    assert_eq!(pages.len(), 2);
    assert_eq!(pages[1].url(), "https://a/2");
    assert_eq!(pages_from_listing("\"/title/1\"").unwrap().len(), 0);
    assert_eq!(pages_from_listing("").unwrap().len(), 0);
    assert!(pages_from_listing("\"/title/1\",\"\",").is_none());
    let stop = pages_from_listing("x,a,,b").unwrap();
    assert_eq!(stop.len(), 1);
    assert_eq!(stop[0].url(), "a");
}

#[test]
fn mangadex_chapter_id() {
    let segments = Some(vec!["chapter".to_string(), "f9a8".to_string(), "1".to_string()]);
    assert_eq!(chapter_id("u", &segments).unwrap(), "f9a8");
    for bad in [
        Some(vec!["title".to_string(), "f9a8".to_string()]),
        Some(vec!["chapter".to_string()]),
        Some(vec![]),
        None,
    ] {
        match chapter_id("https://mangadex.org/x", &bad) {
            Err(MangadexError::UrlParseError(url)) => assert_eq!(url, "https://mangadex.org/x"),
            _ => panic!("expected UrlParseError"),
        }
    }
}

#[test]
fn mangadex_title() {
    let list = vec![
        Relationship { kind: "scanlation_group".to_string(), titles: Some(vec!["G".to_string()]) },
        Relationship { kind: "manga".to_string(), titles: Some(vec!["T".to_string(), "U".to_string()]) },
        Relationship { kind: "manga".to_string(), titles: Some(vec!["V".to_string()]) },
    ];
    assert_eq!(get_chapter_info(&list).unwrap(), "T");
    let untitled = vec![
        Relationship { kind: "manga".to_string(), titles: None },
        Relationship { kind: "manga".to_string(), titles: Some(vec!["V".to_string()]) },
    ];
    assert!(matches!(get_chapter_info(&untitled), Err(MangadexError::CannotGetManga)));
    let blank = vec![Relationship { kind: "manga".to_string(), titles: Some(vec!["".to_string()]) }];
    assert!(matches!(get_chapter_info(&blank), Err(MangadexError::CannotGetManga)));
    assert_eq!(
        chapter_info_address("f9a8"),
        "https://api.mangadex.org/chapter/f9a8?includes[]=manga"
    );
    assert_eq!(chapter_pages_address("f9a8"), "https://api.mangadex.org/at-home/server/f9a8");
    let empty = vec![Relationship { kind: "manga".to_string(), titles: Some(vec![]) }];
    assert!(matches!(get_chapter_info(&empty), Err(MangadexError::CannotGetManga)));
    assert!(matches!(get_chapter_info(&Vec::new()), Err(MangadexError::CannotGetManga)));
}

#[test]
fn mangadex_pages_and_labels() {
    let pages = get_chapter_pages(
        "https://s.example",
        "h4sh",
        &vec!["a.jpg".to_string(), "b.jpg".to_string()],
    );
    assert_eq!(pages.len(), 2);
    assert_eq!(pages[0].url(), "https://s.example/data-saver/h4sh/a.jpg");
    assert_eq!(pages[0].name(), Some("page_001"));
    assert_eq!(pages[1].url(), "https://s.example/data-saver/h4sh/b.jpg");
    assert_eq!(pages[1].name(), Some("page_002"));
    let label = |t: Option<&str>, v: Option<&str>, c: Option<&str>| {
        MangadexChapter::from_url(
            "u",
            "M".to_string(),
            t.map(|x| x.to_string()),
            v.map(|x| x.to_string()),
            c.map(|x| x.to_string()),
            Vec::new(),
        )
        .chapter()
    };
    assert_eq!(label(Some("Tears"), Some("13"), Some("106")), "vol 13 chap 106 - Tears");
    assert_eq!(label(None, Some("13"), Some("106")), "vol 13 chap 106");
    assert_eq!(label(Some("Tears"), None, Some("106")), "chap 106 - Tears");
    assert_eq!(label(None, None, Some("106")), "chap 106");
    assert_eq!(label(None, None, None), "chap 0");
}
