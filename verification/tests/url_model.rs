use syphon::crawl_url::CrawlUrl;

#[test]
fn parse_splits_an_absolute_url_into_its_parts() {
    let u = CrawlUrl::parse("http://x.test/").unwrap();
    assert_eq!(u.scheme, "http");
    assert_eq!(u.host, "x.test");
    assert_eq!(u.path, "/");
}

#[test]
fn parse_normalizes_a_missing_path_to_root() {
    let u = CrawlUrl::parse("https://x.test").unwrap();
    assert_eq!(u.scheme, "https");
    assert_eq!(u.path, "/");
}

#[test]
fn parse_keeps_the_path_without_query_or_fragment() {
    let u = CrawlUrl::parse("http://x.test/a/b?q=1#frag").unwrap();
    assert_eq!(u.path, "/a/b");
    assert_eq!(u.query, Some("q=1".to_string()));
    let plain = CrawlUrl::parse("http://x.test/a/b").unwrap();
    assert_eq!(plain.query, None);
}

#[test]
fn parse_rejects_other_schemes_and_hostless_urls() {
    assert!(CrawlUrl::parse("ftp://x.test/").is_none());
    assert!(CrawlUrl::parse("mailto:user@x.test").is_none());
    assert!(CrawlUrl::parse("not a url").is_none());
    assert!(CrawlUrl::parse("/relative/only").is_none());
}

#[test]
fn from_parts_accepts_exactly_well_formed_parts() {
    let u = CrawlUrl::from_parts("http".to_string(), "x.test".to_string(), "/".to_string());
    assert!(u.is_some());
    assert_eq!(u.unwrap().query, None);
    assert!(CrawlUrl::from_parts("gopher".to_string(), "x.test".to_string(), "/".to_string())
        .is_none());
    assert!(CrawlUrl::from_parts("http".to_string(), String::new(), "/".to_string()).is_none());
    assert!(CrawlUrl::from_parts("http".to_string(), "x.test".to_string(), String::new())
        .is_none());
    assert!(CrawlUrl::from_parts("http".to_string(), "x.test".to_string(), "a".to_string())
        .is_none());
}

#[test]
fn join_resolves_relative_references() {
    let base = CrawlUrl::parse("http://x.test/a/b").unwrap();
    assert_eq!(base.join("/c").unwrap().path, "/c");
    assert_eq!(base.join("c").unwrap().path, "/a/c");
    assert_eq!(base.join("../d").unwrap().path, "/d");
    let same = base.join("#frag").unwrap();
    assert_eq!(same.host, "x.test");
    assert_eq!(same.path, "/a/b");
}

#[test]
fn join_carries_the_query_of_the_reference() {
    let base = CrawlUrl::parse("http://x.test/a?keep=1").unwrap();
    let q = base.join("/b?q=2").unwrap();
    assert_eq!(q.path, "/b");
    assert_eq!(q.query, Some("q=2".to_string()));
    // A fragment-only reference keeps the base's query.
    let same = base.join("#frag").unwrap();
    assert_eq!(same.path, "/a");
    assert_eq!(same.query, Some("keep=1".to_string()));
    // A path reference drops it.
    let dropped = base.join("/c").unwrap();
    assert_eq!(dropped.query, None);
}

#[test]
fn join_follows_an_absolute_reference_to_its_own_host() {
    let base = CrawlUrl::parse("http://x.test/").unwrap();
    let other = base.join("http://y.test/z").unwrap();
    assert_eq!(other.host, "y.test");
    assert_eq!(other.path, "/z");
}

#[test]
fn clone_keeps_every_part() {
    let u = CrawlUrl::parse("https://x.test/a").unwrap();
    let c = u.clone();
    assert_eq!(u, c);
}
