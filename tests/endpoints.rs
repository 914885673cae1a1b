use bragi_status::endpoint::{derive_endpoint, endpoint_of, UrlParts};
use bragi_status::error::{Error, ErrorKind};

fn derived(s: &str) -> (String, String) {
    derive_endpoint(s).unwrap()
}

#[test]
fn endpoint_with_port() {
    assert_eq!(
        derived("http://es.example.com:9200/munin"),
        (String::from("http://es.example.com:9200"), String::from("munin"))
    );
}

#[test]
fn endpoint_without_port() {
    assert_eq!(
        derived("http://es.example.com/munin"),
        (String::from("http://es.example.com"), String::from("munin"))
    );
}

#[test]
fn deriving_again_keeps_the_base() {
    let (base, _) = derived("http://es.example.com:9200/munin");
    let (again, prefix) = derived(&base);
    assert_eq!(again, base);
    assert_eq!(prefix, "munin");
    let (base, _) = derived("http://es.example.com/munin");
    assert_eq!(derived(&base).0, base);
}

#[test]
fn prefix_is_first_segment_or_default() {
    assert_eq!(derived("http://es:9200/mimir/x/y").1, "mimir");
    assert_eq!(derived("http://es:9200/").1, "munin");
    assert_eq!(derived("http://es:9200").1, "munin");
    assert_eq!(derived("HTTP://ES:9200/a").0, "http://es:9200");
}

#[test]
fn default_port_is_not_written() {
    assert_eq!(derived("http://es:80/a").0, "http://es");
    assert_eq!(derived("https://es:443/a").0, "https://es");
    assert_eq!(derived("https://es:80/a").0, "https://es:80");
}

#[test]
fn malformed_endpoint_is_an_error() {
    for s in ["not a url", "", "http://", "http://es:99999/"] {
        match derive_endpoint(s) {
            Err(e) => {
                assert_eq!(e.kind(), ErrorKind::UrlParse);
                match e {
                    Error::ElasticsearchURLNotReadable { url, source } => {
                        assert_eq!(url, s);
                        assert_eq!(source, "not an absolute URL");
                    }
                    other => panic!("unexpected {:?}", other),
                }
            }
            Ok(x) => panic!("{} derived {:?}", s, x),
        }
    }
}

#[test]
fn endpoint_without_host_is_an_error() {
    match derive_endpoint("mailto:someone@example.com") {
        Err(Error::ElasticsearchURLNotReadable { url, source }) => {
            assert_eq!(url, "mailto:someone@example.com");
            assert_eq!(source, "the URL has no host");
        }
        other => panic!("unexpected {:?}", other),
    }
}

#[test]
fn endpoint_from_parts() {
    let parts = UrlParts {
        scheme: String::from("https"),
        host: Some(String::from("search")),
        port: Some(8443),
        first_segment: Some(String::new()),
    };
    assert_eq!(
        endpoint_of(&parts),
        Some((String::from("https://search:8443"), String::from("munin")))
    );
    let parts = UrlParts {
        scheme: String::from("http"),
        host: Some(String::from("h")),
        port: None,
        first_segment: None,
    };
    assert_eq!(endpoint_of(&parts), Some((String::from("http://h"), String::from("munin"))));
    let parts = UrlParts {
        scheme: String::from("http"),
        host: None,
        port: Some(1),
        first_segment: Some(String::from("p")),
    };
    assert_eq!(endpoint_of(&parts), None);
}
