//! The errors of the probe and of the service around it, their kinds, and the
//! text under which they are reported.

use vstd::prelude::*;

verus! {

/// What went wrong, as the service reports it. Causes from outside the library
/// are carried as their messages.
#[derive(Clone, Debug)]
pub enum Error {
    MiscError { details: String },
    ConfigError { details: String, source: String },
    EnvVarError { details: String, source: String },
    IOError { details: String, source: String },
    ReqwestError { details: String, source: String },
    URLError { details: String, source: String },
    TokioIOError { details: String, source: String },
    TokioJoinError { details: String, source: String },
    SerdeJSONError { details: String, source: String },
    ParseIntError { details: String, source: String },
    /// A request could not be made, or was answered with a client or server error.
    NotAccessible { url: String, source: String },
    /// An answer's body does not have the expected shape.
    NotReadable { url: String, source: String },
    /// The Elasticsearch endpoint that the upstream service reports is no URL.
    ElasticsearchURLNotReadable { url: String, source: String },
}

/// The machine-checkable kind of an error.
#[derive(Clone, Copy, Debug, PartialEq, Eq, Structural)]
pub enum ErrorKind {
    /// A transport failure, or an answer outside the 2xx range.
    Unreachable,
    /// A body that could not be read into the expected shape.
    NotReadable,
    /// A malformed URL.
    UrlParse,
    /// The service's own configuration could not be loaded.
    Configuration,
    /// Anything else: a broken invariant, a failure of the runtime.
    Internal,
}

/// Model of an error: each text as a sequence of characters.
pub enum ErrorModel {
    MiscError { details: Seq<char> },
    ConfigError { details: Seq<char>, source: Seq<char> },
    EnvVarError { details: Seq<char>, source: Seq<char> },
    IOError { details: Seq<char>, source: Seq<char> },
    ReqwestError { details: Seq<char>, source: Seq<char> },
    URLError { details: Seq<char>, source: Seq<char> },
    TokioIOError { details: Seq<char>, source: Seq<char> },
    TokioJoinError { details: Seq<char>, source: Seq<char> },
    SerdeJSONError { details: Seq<char>, source: Seq<char> },
    ParseIntError { details: Seq<char>, source: Seq<char> },
    NotAccessible { url: Seq<char>, source: Seq<char> },
    NotReadable { url: Seq<char>, source: Seq<char> },
    ElasticsearchURLNotReadable { url: Seq<char>, source: Seq<char> },
}

impl View for Error {
    type V = ErrorModel;

    open spec fn view(&self) -> ErrorModel {
        match self {
            Error::MiscError { details } => ErrorModel::MiscError { details: details@ },
            Error::ConfigError { details, source } => ErrorModel::ConfigError {
                details: details@,
                source: source@,
            },
            Error::EnvVarError { details, source } => ErrorModel::EnvVarError {
                details: details@,
                source: source@,
            },
            Error::IOError { details, source } => ErrorModel::IOError {
                details: details@,
                source: source@,
            },
            Error::ReqwestError { details, source } => ErrorModel::ReqwestError {
                details: details@,
                source: source@,
            },
            Error::URLError { details, source } => ErrorModel::URLError {
                details: details@,
                source: source@,
            },
            Error::TokioIOError { details, source } => ErrorModel::TokioIOError {
                details: details@,
                source: source@,
            },
            Error::TokioJoinError { details, source } => ErrorModel::TokioJoinError {
                details: details@,
                source: source@,
            },
            Error::SerdeJSONError { details, source } => ErrorModel::SerdeJSONError {
                details: details@,
                source: source@,
            },
            Error::ParseIntError { details, source } => ErrorModel::ParseIntError {
                details: details@,
                source: source@,
            },
            Error::NotAccessible { url, source } => ErrorModel::NotAccessible {
                url: url@,
                source: source@,
            },
            Error::NotReadable { url, source } => ErrorModel::NotReadable {
                url: url@,
                source: source@,
            },
            Error::ElasticsearchURLNotReadable { url, source } =>
                ErrorModel::ElasticsearchURLNotReadable { url: url@, source: source@ },
        }
    }
}

impl ErrorModel {
    /// The kind of each error.
    pub open spec fn kind(self) -> ErrorKind {
        match self {
            ErrorModel::MiscError { .. } => ErrorKind::Internal,
            ErrorModel::ConfigError { .. } => ErrorKind::Configuration,
            ErrorModel::EnvVarError { .. } => ErrorKind::Configuration,
            ErrorModel::IOError { .. } => ErrorKind::Internal,
            ErrorModel::ReqwestError { .. } => ErrorKind::Unreachable,
            ErrorModel::URLError { .. } => ErrorKind::UrlParse,
            ErrorModel::TokioIOError { .. } => ErrorKind::Internal,
            ErrorModel::TokioJoinError { .. } => ErrorKind::Internal,
            ErrorModel::SerdeJSONError { .. } => ErrorKind::NotReadable,
            ErrorModel::ParseIntError { .. } => ErrorKind::Configuration,
            ErrorModel::NotAccessible { .. } => ErrorKind::Unreachable,
            ErrorModel::NotReadable { .. } => ErrorKind::NotReadable,
            ErrorModel::ElasticsearchURLNotReadable { .. } => ErrorKind::UrlParse,
        }
    }

    /// The short title under which each error is reported to a client.
    pub open spec fn title(self) -> Seq<char> {
        match self {
            ErrorModel::MiscError { .. } => "User Error"@,
            ErrorModel::ConfigError { .. } => "Configuration Error"@,
            ErrorModel::EnvVarError { .. } => "Environment Error"@,
            ErrorModel::IOError { .. } => "IO Error"@,
            ErrorModel::ReqwestError { .. } => "Reqwest Error"@,
            ErrorModel::URLError { .. } => "URL Error"@,
            ErrorModel::TokioIOError { .. } => "Tokio IO Error"@,
            ErrorModel::TokioJoinError { .. } => "Tokio Join Error"@,
            ErrorModel::SerdeJSONError { .. } => "Serde Error"@,
            ErrorModel::ParseIntError { .. } => "Parse Int Error"@,
            ErrorModel::NotAccessible { .. } => "Not Accessible Error"@,
            ErrorModel::NotReadable { .. } => "Not Readable Error"@,
            ErrorModel::ElasticsearchURLNotReadable { .. } =>
                "Elasticsearch URL Not Readable Error"@,
        }
    }

    /// The human-readable message of each error.
    pub open spec fn message(self) -> Seq<char> {
        match self {
            ErrorModel::MiscError { details } => "Misc Error: "@ + details,
            ErrorModel::ConfigError { details, source } => "Config Error: "@ + details + " => "@
                + source,
            ErrorModel::EnvVarError { details, source } => "Environment Variable Error: "@
                + details + " => "@ + source,
            ErrorModel::IOError { source, .. } => "IO Error: "@ + source,
            ErrorModel::ReqwestError { details, source } => "Reqwest Error: "@ + details + " "@
                + source,
            ErrorModel::URLError { details, source } => "URL Error: "@ + details + " "@ + source,
            ErrorModel::TokioIOError { details, source } => "Tokio IO Error: "@ + details
                + ": "@ + source,
            ErrorModel::TokioJoinError { details, source } => "Tokio Task Error "@ + details
                + ": "@ + source,
            ErrorModel::SerdeJSONError { details, source } => "Serde Json Error: "@ + details
                + " => "@ + source,
            ErrorModel::ParseIntError { details, source } => "Parse Int Error: "@ + details
                + " => "@ + source,
            ErrorModel::NotAccessible { url, .. } => "Could not access url "@ + url,
            ErrorModel::NotReadable { url, .. } => "JSON Status not readable "@ + url,
            ErrorModel::ElasticsearchURLNotReadable { url, .. } =>
                "elasticsearch url not parsable "@ + url,
        }
    }
}

/// `a` followed by `b`.
fn join2(a: &str, b: &str) -> (r: String)
    ensures
        r@ == a@ + b@,
{
    let mut r = String::from_str(a);
    r.append(b);
    r
}

/// `a`, `b`, `c` and `d` one after the other.
fn join4(a: &str, b: &str, c: &str, d: &str) -> (r: String)
    ensures
        r@ == a@ + b@ + c@ + d@,
{
    let mut r = String::from_str(a);
    r.append(b);
    r.append(c);
    r.append(d);
    r
}

impl Error {
    /// The kind of this error.
    pub fn kind(&self) -> (r: ErrorKind)
        ensures
            r == self@.kind(),
    {
        match self {
            Error::MiscError { .. } => ErrorKind::Internal,
            Error::ConfigError { .. } => ErrorKind::Configuration,
            Error::EnvVarError { .. } => ErrorKind::Configuration,
            Error::IOError { .. } => ErrorKind::Internal,
            Error::ReqwestError { .. } => ErrorKind::Unreachable,
            Error::URLError { .. } => ErrorKind::UrlParse,
            Error::TokioIOError { .. } => ErrorKind::Internal,
            Error::TokioJoinError { .. } => ErrorKind::Internal,
            Error::SerdeJSONError { .. } => ErrorKind::NotReadable,
            Error::ParseIntError { .. } => ErrorKind::Configuration,
            Error::NotAccessible { .. } => ErrorKind::Unreachable,
            Error::NotReadable { .. } => ErrorKind::NotReadable,
            Error::ElasticsearchURLNotReadable { .. } => ErrorKind::UrlParse,
        }
    }

    /// The short title under which this error is reported to a client.
    pub fn title(&self) -> (r: String)
        ensures
            r@ == self@.title(),
    {
        let t = match self {
            Error::MiscError { .. } => "User Error",
            Error::ConfigError { .. } => "Configuration Error",
            Error::EnvVarError { .. } => "Environment Error",
            Error::IOError { .. } => "IO Error",
            Error::ReqwestError { .. } => "Reqwest Error",
            Error::URLError { .. } => "URL Error",
            Error::TokioIOError { .. } => "Tokio IO Error",
            Error::TokioJoinError { .. } => "Tokio Join Error",
            Error::SerdeJSONError { .. } => "Serde Error",
            Error::ParseIntError { .. } => "Parse Int Error",
            Error::NotAccessible { .. } => "Not Accessible Error",
            Error::NotReadable { .. } => "Not Readable Error",
            Error::ElasticsearchURLNotReadable { .. } => "Elasticsearch URL Not Readable Error",
        };
        String::from_str(t)
    }

    /// The human-readable message of this error.
    pub fn message(&self) -> (r: String)
        ensures
            r@ == self@.message(),
    {
        match self {
            Error::MiscError { details } => join2("Misc Error: ", details.as_str()),
            Error::ConfigError { details, source } => join4(
                "Config Error: ",
                details.as_str(),
                " => ",
                source.as_str(),
            ),
            Error::EnvVarError { details, source } => join4(
                "Environment Variable Error: ",
                details.as_str(),
                " => ",
                source.as_str(),
            ),
            Error::IOError { source, .. } => join2("IO Error: ", source.as_str()),
            Error::ReqwestError { details, source } => join4(
                "Reqwest Error: ",
                details.as_str(),
                " ",
                source.as_str(),
            ),
            Error::URLError { details, source } => join4(
                "URL Error: ",
                details.as_str(),
                " ",
                source.as_str(),
            ),
            Error::TokioIOError { details, source } => join4(
                "Tokio IO Error: ",
                details.as_str(),
                ": ",
                source.as_str(),
            ),
            Error::TokioJoinError { details, source } => join4(
                "Tokio Task Error ",
                details.as_str(),
                ": ",
                source.as_str(),
            ),
            Error::SerdeJSONError { details, source } => join4(
                "Serde Json Error: ",
                details.as_str(),
                " => ",
                source.as_str(),
            ),
            Error::ParseIntError { details, source } => join4(
                "Parse Int Error: ",
                details.as_str(),
                " => ",
                source.as_str(),
            ),
            Error::NotAccessible { url, .. } => join2("Could not access url ", url.as_str()),
            Error::NotReadable { url, .. } => join2("JSON Status not readable ", url.as_str()),
            Error::ElasticsearchURLNotReadable { url, .. } => join2(
                "elasticsearch url not parsable ",
                url.as_str(),
            ),
        }
    }
}

} // verus!
