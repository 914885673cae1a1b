use bragi_status::error::{Error, ErrorKind};
use bragi_status::settings::{parse_port, Bragi};

fn s(x: &str) -> String {
    String::from(x)
}

#[test]
fn titles_kinds_and_messages() {
    let cases: Vec<(Error, &str, ErrorKind, &str)> = vec![
        (Error::MiscError { details: s("d") }, "User Error", ErrorKind::Internal, "Misc Error: d"),
        (
            Error::ConfigError { details: s("d"), source: s("x") },
            "Configuration Error",
            ErrorKind::Configuration,
            "Config Error: d => x",
        ),
        (
            Error::EnvVarError { details: s("d"), source: s("x") },
            "Environment Error",
            ErrorKind::Configuration,
            "Environment Variable Error: d => x",
        ),
        (Error::IOError { details: s("d"), source: s("x") }, "IO Error", ErrorKind::Internal, "IO Error: x"),
        (
            Error::ReqwestError { details: s("d"), source: s("x") },
            "Reqwest Error",
            ErrorKind::Unreachable,
            "Reqwest Error: d x",
        ),
        (Error::URLError { details: s("d"), source: s("x") }, "URL Error", ErrorKind::UrlParse, "URL Error: d x"),
        (
            Error::TokioIOError { details: s("d"), source: s("x") },
            "Tokio IO Error",
            ErrorKind::Internal,
            "Tokio IO Error: d: x",
        ),
        (
            Error::TokioJoinError { details: s("d"), source: s("x") },
            "Tokio Join Error",
            ErrorKind::Internal,
            "Tokio Task Error d: x",
        ),
        (
            Error::SerdeJSONError { details: s("d"), source: s("x") },
            "Serde Error",
            ErrorKind::NotReadable,
            "Serde Json Error: d => x",
        ),
        (
            Error::ParseIntError { details: s("d"), source: s("x") },
            "Parse Int Error",
            ErrorKind::Configuration,
            "Parse Int Error: d => x",
        ),
        (
            Error::NotAccessible { url: s("http://u"), source: s("x") },
            "Not Accessible Error",
            ErrorKind::Unreachable,
            "Could not access url http://u",
        ),
        (
            Error::NotReadable { url: s("http://u"), source: s("x") },
            "Not Readable Error",
            ErrorKind::NotReadable,
            "JSON Status not readable http://u",
        ),
        (
            Error::ElasticsearchURLNotReadable { url: s("::"), source: s("x") },
            "Elasticsearch URL Not Readable Error",
            ErrorKind::UrlParse,
            "elasticsearch url not parsable ::",
        ),
    ];
    for (e, title, kind, message) in cases {
        assert_eq!(e.title(), title);
        assert_eq!(e.kind(), kind);
        assert_eq!(e.message(), message);
    }
}

#[test]
fn upstream_url() {
    let b = Bragi { host: s("localhost"), port: 4000 };
    assert_eq!(b.url(), "http://localhost:4000");
    let b = Bragi { host: s("bragi"), port: 0 };
    assert_eq!(b.url(), "http://bragi:0");
}

#[test]
fn port_numbers() {
    assert_eq!(parse_port("8080").unwrap(), 8080);
    assert_eq!(parse_port("+1").unwrap(), 1);
    assert_eq!(parse_port("65535").unwrap(), 65535);
    for bad in ["65536", "", "80a", "-1", "99999999999"] {
        match parse_port(bad) {
            Err(Error::MiscError { details }) => {
                assert_eq!(details, format!("Could not parse into a valid port number ({})", bad))
            }
            other => panic!("{:?}", other),
        }
    }
}
