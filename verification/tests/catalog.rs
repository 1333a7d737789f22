use undersea::FeedError;
use undersea::FeedSource;
use undersea::Shows;

fn feed_bytes(title: &str) -> Vec<u8> {
    format!(
        r#"<?xml version="1.0" encoding="UTF-8"?>
<rss version="2.0"><channel><title>{title}</title>
<item><title>one</title><enclosure url="https://example.org/1.mp3" length="1" type="audio/mpeg"/><pubDate>Mon, 01 Jan 2024 00:00:00 +0000</pubDate></item>
</channel></rss>"#
    )
    .into_bytes()
}

#[test]
fn default_catalog_is_empty() {
    let shows = Shows::default();
    assert_eq!(shows.shows().len(), 0);
    assert_eq!(shows.names().len(), 0);
    assert!(shows.get_show_by_index(0).is_none());
}

#[test]
fn add_single_from_url() {
    let mut shows = Shows::default();
    shows
        .add(String::from("https://example.org/a.xml"), Ok(feed_bytes("alpha")))
        .expect("to add shows");
    assert_eq!(shows.shows().len(), 1);
    assert_eq!(shows.names(), vec![String::from("alpha")]);
    let show = shows.get_show_by_index(0).expect("first show");
    assert_eq!(show.url(), "https://example.org/a.xml");
    assert_eq!(show.episodes().len(), 1);
}

#[test]
fn add_network_failure_leaves_catalog_unchanged() {
    let mut shows = Shows::default();
    let err = shows
        .add(
            String::from("https://example.org/a.xml"),
            Err(String::from("connection refused")),
        )
        .expect_err("transport failed");
    match err {
        FeedError::Network(message) => assert_eq!(message, "connection refused"),
        FeedError::Parse => panic!("wrong error kind"),
    }
    assert_eq!(shows.shows().len(), 0);
}

#[test]
fn add_malformed_document_leaves_catalog_unchanged() {
    let mut shows = Shows::default();
    let err = shows
        .add(
            String::from("https://example.org/a.xml"),
            Ok(b"not xml".to_vec()),
        )
        .expect_err("bytes do not parse");
    assert!(matches!(err, FeedError::Parse));
    assert_eq!(shows.shows().len(), 0);
    assert_eq!(err.label(), "parse error");
}

#[test]
fn error_labels() {
    assert_eq!(FeedError::Parse.label(), "parse error");
    assert_eq!(
        FeedError::Network(String::from("x")).label(),
        "network error"
    );
}

#[test]
fn add_multiple() {
    let mut shows = Shows::default();
    let sources = vec![
        FeedSource {
            url: String::from("https://example.org/a.xml"),
            fetched: Ok(feed_bytes("alpha")),
        },
        FeedSource {
            url: String::from("https://example.org/b.xml"),
            fetched: Ok(feed_bytes("beta")),
        },
    ];
    shows.add_multiple(sources).expect("to add shows");
    assert_eq!(
        shows.names(),
        vec![String::from("alpha"), String::from("beta")]
    );
}

#[test]
fn add_multiple_stops_at_first_failure() {
    // The second source fails: only the first show is kept, the error
    // names the second source's defect, and the third is never reached.
    let mut shows = Shows::default();
    let sources = vec![
        FeedSource {
            url: String::from("https://example.org/a.xml"),
            fetched: Ok(feed_bytes("alpha")),
        },
        FeedSource {
            url: String::from("https://example.org/b.xml"),
            fetched: Err(String::from("timed out")),
        },
        FeedSource {
            url: String::from("https://example.org/c.xml"),
            fetched: Ok(feed_bytes("gamma")),
        },
    ];
    let err = shows.add_multiple(sources).expect_err("second source fails");
    match err {
        FeedError::Network(message) => assert_eq!(message, "timed out"),
        FeedError::Parse => panic!("wrong error kind"),
    }
    assert_eq!(shows.shows().len(), 1);
    assert_eq!(shows.names(), vec![String::from("alpha")]);
    let kept = shows.get_show_by_index(0).expect("first show kept");
    assert_eq!(kept.url(), "https://example.org/a.xml");
    assert_eq!(kept.episodes().len(), 1);
}

#[test]
fn get_show_by_index_bounds() {
    let mut shows = Shows::default();
    shows
        .add(String::from("https://example.org/a.xml"), Ok(feed_bytes("alpha")))
        .expect("to add shows");
    assert!(shows.get_show_by_index(0).is_some());
    assert!(shows.get_show_by_index(1).is_none());
    assert!(shows.get_show_by_index(usize::MAX).is_none());
}
