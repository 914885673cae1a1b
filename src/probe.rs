//! The probe: reachability of the upstream service, its status, the cluster
//! information and the index catalog of its Elasticsearch cluster, one after the
//! other. Each stage is a function of what the previous stage produced and of
//! the answer to one request; the requests themselves are made by the caller.

use vstd::prelude::*;

use crate::endpoint::{derive_endpoint, derive_endpoint_spec};
use crate::error::{Error, ErrorKind, ErrorModel};
use crate::index::{decode_indices, decoded_indices};
use crate::model::{
    BragiInfoResponseBody, BragiInfo, BragiModel, BragiStatus, BragiStatusDetails, ElasticModel, ElasticsearchIndexInfo,
    ElasticsearchIndexInfoDetails, ElasticsearchInfo, ElasticsearhInfoDetails, ServerStatus,
};
use crate::text::{decimal, decimal_spec};
use crate::time::{current_time, UtcDateTime};

verus! {

/// The answer to a request whose body is read into a `T`.
#[derive(Clone, Debug)]
pub enum Fetched<T> {
    /// The body, read into the expected shape.
    Body(T),
    /// The request failed in transport, or was answered with a client or
    /// server error; the text says why.
    Unreachable(String),
    /// The body could not be read into the expected shape; the text says why.
    Unreadable(String),
}

/// Whether an HTTP status code is a client error (4xx) or a server error (5xx).
pub open spec fn is_failure_status(code: u16) -> bool {
    400 <= code < 600
}

/// The reason given for an answer with a failing status code.
pub open spec fn status_reason(code: u16) -> Seq<char> {
    "HTTP status "@ + decimal_spec(code as nat)
}

/// The model of a result that carries a string.
pub open spec fn text_result(r: Result<String, Error>) -> Result<Seq<char>, ErrorModel> {
    match r {
        Ok(s) => Ok(s@),
        Err(e) => Err(e@),
    }
}

/// The model of a result that carries a report.
pub open spec fn info_result(r: Result<BragiInfo, Error>) -> Result<BragiModel, ErrorModel> {
    match r {
        Ok(i) => Ok(i@),
        Err(e) => Err(e@),
    }
}

/// Outcome of the reachability check of `url`, given the status code of the
/// answer or the reason the request failed.
pub open spec fn accessible_spec(url: Seq<char>, answer: Result<u16, String>) -> Result<
    Seq<char>,
    ErrorModel,
> {
    match answer {
        Ok(code) => if is_failure_status(code) {
            Err(ErrorModel::NotAccessible { url, source: status_reason(code) })
        } else {
            Ok(url)
        },
        Err(reason) => Err(ErrorModel::NotAccessible { url, source: reason@ }),
    }
}

/// The report that the upstream status yields before Elasticsearch is asked:
/// the cluster section holds the derived endpoint and is not yet available.
pub open spec fn partial_report(
    url: Seq<char>,
    version: Seq<char>,
    base: Seq<char>,
    prefix: Seq<char>,
    now: UtcDateTime,
) -> BragiModel {
    BragiModel {
        label: "bragi"@,
        url,
        version,
        status: BragiStatus::Available,
        updated_at: now,
        elastic: Some(
            ElasticModel {
                label: "elasticsearch"@,
                url: base,
                name: Seq::empty(),
                status: ServerStatus::NotAvailable,
                version: Seq::empty(),
                indices: Seq::empty(),
                index_prefix: prefix,
                updated_at: now,
            },
        ),
    }
}

/// Outcome of the status stage for the service at `url`.
pub open spec fn bragi_status_spec(
    url: Seq<char>,
    fetched: Fetched<BragiStatusDetails>,
    now: UtcDateTime,
) -> Result<BragiModel, ErrorModel> {
    match fetched {
        Fetched::Body(d) => match derive_endpoint_spec(d.elasticsearch@) {
            Ok((base, prefix)) => Ok(partial_report(url, d.version@, base, prefix, now)),
            Err(e) => Err(e),
        },
        Fetched::Unreachable(reason) => Err(ErrorModel::NotAccessible { url, source: reason@ }),
        Fetched::Unreadable(reason) => Err(ErrorModel::NotReadable { url, source: reason@ }),
    }
}

/// The error of a stage that needs the cluster section of a report without one.
pub open spec fn missing_elastic() -> ErrorModel {
    ErrorModel::MiscError { details: "the report has no Elasticsearch section"@ }
}

/// The report `info` with its cluster section replaced by `e`.
pub open spec fn with_elastic(info: BragiModel, e: ElasticModel) -> BragiModel {
    BragiModel { elastic: Some(e), ..info }
}

/// Outcome of the cluster-information stage.
pub open spec fn cluster_info_spec(info: BragiModel, fetched: Fetched<ElasticsearhInfoDetails>) -> Result<
    BragiModel,
    ErrorModel,
> {
    match info.elastic {
        None => Err(missing_elastic()),
        Some(e) => match fetched {
            Fetched::Body(d) => Ok(
                with_elastic(info, ElasticModel { name: d.name@, version: d.version.number@, ..e }),
            ),
            Fetched::Unreachable(reason) => Err(
                ErrorModel::NotAccessible { url: e.url, source: reason@ },
            ),
            Fetched::Unreadable(reason) => Err(ErrorModel::NotReadable { url: e.url, source: reason@ }),
        },
    }
}

/// Outcome of the index-catalog stage stamped at `now`: the decoded catalog
/// where it was read, else an unavailable cluster with no indices.
pub open spec fn indices_spec(
    info: BragiModel,
    fetched: Fetched<Vec<ElasticsearchIndexInfoDetails>>,
    now: UtcDateTime,
) -> Result<BragiModel, ErrorModel> {
    match info.elastic {
        None => Err(missing_elastic()),
        Some(e) => Ok(
            with_elastic(
                info,
                match fetched {
                    Fetched::Body(entries) => ElasticModel {
                        status: ServerStatus::Available,
                        indices: decoded_indices(entries@, now),
                        updated_at: now,
                        ..e
                    },
                    _ => ElasticModel {
                        status: ServerStatus::NotAvailable,
                        indices: Seq::empty(),
                        updated_at: now,
                        ..e
                    },
                },
            ),
        ),
    }
}

/// Tests whether an HTTP status code is a client or a server error.
pub fn is_failure_code(code: u16) -> (r: bool)
    ensures
        r == is_failure_status(code),
{
    400 <= code && code < 600
}

/// The URL of the upstream service's status.
pub fn status_url(url: &str) -> (r: String)
    ensures
        r@ == url@ + "/status"@,
{
    let mut r = String::from_str(url);
    r.append("/status");
    r
}

/// The URL of the index catalog of the cluster at `url`, in JSON.
pub fn indices_url(url: &str) -> (r: String)
    ensures
        r@ == url@ + "/_cat/indices?format=json"@,
{
    let mut r = String::from_str(url);
    r.append("/_cat/indices?format=json");
    r
}

/// Reachability of the upstream service at `url`, from the status code of
/// the answer or the reason the request failed. A failure, or a 4xx or 5xx
/// answer, is `NotAccessible`; any other answer hands `url` on.
pub fn check_accessible(url: String, answer: Result<u16, String>) -> (r: Result<String, Error>)
    ensures
        text_result(r) == accessible_spec(url@, answer),
{
    match answer {
        Ok(code) => if is_failure_code(code) {
            let mut source = String::from_str("HTTP status ");
            let digits = decimal(code as u64);
            source.append(digits.as_str());
            Err(Error::NotAccessible { url, source })
        } else {
            Ok(url)
        },
        Err(reason) => Err(Error::NotAccessible { url, source: reason }),
    }
}

/// The report on the upstream service at `url`, from the answer to its status
/// request, stamped at `now`. The cluster section holds the endpoint derived
/// from the status and is left unavailable for the later stages.
pub fn check_bragi_status(url: String, fetched: Fetched<BragiStatusDetails>, now: UtcDateTime) -> (r:
    Result<BragiInfo, Error>)
    ensures
        info_result(r) == bragi_status_spec(url@, fetched, now),
{
    match fetched {
        Fetched::Body(d) => match derive_endpoint(d.elasticsearch.as_str()) {
            Ok((base, prefix)) => {
                let indices: Vec<ElasticsearchIndexInfo> = Vec::new();
                proof {
                    assert(indices@.map_values(|i: ElasticsearchIndexInfo| i@) =~= Seq::empty());
                }
                let elastic = ElasticsearchInfo {
                    label: String::from_str("elasticsearch"),
                    url: base,
                    name: String::new(),
                    status: ServerStatus::NotAvailable,
                    version: String::new(),
                    indices,
                    index_prefix: prefix,
                    updated_at: now,
                };
                Ok(
                    BragiInfo {
                        label: String::from_str("bragi"),
                        url,
                        version: d.version,
                        status: BragiStatus::Available,
                        updated_at: now,
                        elastic: Some(elastic),
                    },
                )
            },
            Err(e) => Err(e),
        },
        Fetched::Unreachable(reason) => Err(Error::NotAccessible { url, source: reason }),
        Fetched::Unreadable(reason) => Err(Error::NotReadable { url, source: reason }),
    }
}

/// The error of a stage that needs the cluster section of a report without one.
fn missing_elastic_error() -> (r: Error)
    ensures
        r@ == missing_elastic(),
{
    Error::MiscError { details: String::from_str("the report has no Elasticsearch section") }
}

/// Merges the cluster information into the report `info`: the cluster's name
/// and version number. A failed request is `NotAccessible`, an unreadable
/// answer `NotReadable`, both for the cluster's URL.
pub fn check_elasticsearch_info(info: BragiInfo, fetched: Fetched<ElasticsearhInfoDetails>) -> (r:
    Result<BragiInfo, Error>)
    ensures
        info_result(r) == cluster_info_spec(info@, fetched),
{
    let BragiInfo { label, url, version, status, updated_at, elastic } = info;
    let es = match elastic {
        Some(e) => e,
        None => return Err(missing_elastic_error()),
    };
    match fetched {
        Fetched::Body(d) => {
            let merged = ElasticsearchInfo { name: d.name, version: d.version.number, ..es };
            Ok(BragiInfo { label, url, version, status, updated_at, elastic: Some(merged) })
        },
        Fetched::Unreachable(reason) => Err(Error::NotAccessible { url: es.url, source: reason }),
        Fetched::Unreadable(reason) => Err(Error::NotReadable { url: es.url, source: reason }),
    }
}

/// Fills the report `info` with the index catalog, stamped at `now`: the
/// decoded entries and an available cluster where the catalog was read, else
/// no entries and an unavailable cluster.
pub fn check_elasticsearch_indices(
    info: BragiInfo,
    fetched: Fetched<Vec<ElasticsearchIndexInfoDetails>>,
    now: UtcDateTime,
) -> (r: Result<BragiInfo, Error>)
    ensures
        info_result(r) == indices_spec(info@, fetched, now),
{
    let BragiInfo { label, url, version, status, updated_at, elastic } = info;
    let es = match elastic {
        Some(e) => e,
        None => return Err(missing_elastic_error()),
    };
    let (es_status, indices) = match &fetched {
        Fetched::Body(entries) => (ServerStatus::Available, decode_indices(entries, now)),
        _ => {
            let none: Vec<ElasticsearchIndexInfo> = Vec::new();
            proof {
                assert(none@.map_values(|i: ElasticsearchIndexInfo| i@) =~= Seq::empty());
            }
            (ServerStatus::NotAvailable, none)
        },
    };
    let merged = ElasticsearchInfo { status: es_status, indices, updated_at: now, ..es };
    Ok(BragiInfo { label, url, version, status, updated_at, elastic: Some(merged) })
}

/// Where a probe stands: a stage and what the stage has produced so far.
#[derive(Debug)]
pub enum Probe {
    /// Nothing asked yet of the service at `url`.
    NotStarted { url: String },
    /// The service at `url` answered.
    ReachabilityChecked { url: String },
    /// The service's status is known, and with it the cluster's endpoint.
    StatusFetched { info: BragiInfo },
    /// The cluster's name and version are known.
    ClusterInfoFetched { info: BragiInfo },
    /// The report is complete.
    Done { report: BragiInfoResponseBody },
    /// A stage failed; no report comes.
    Failed { error: Error },
}

/// The answer to the request that a probe asked for.
#[derive(Debug)]
pub enum Event {
    /// The status code of the service's answer, or why the request failed.
    Reachability(Result<u16, String>),
    /// The answer to the status request.
    Status(Fetched<BragiStatusDetails>),
    /// The answer to the cluster-information request.
    ClusterInfo(Fetched<ElasticsearhInfoDetails>),
    /// The answer to the index-catalog request.
    Indices(Fetched<Vec<ElasticsearchIndexInfoDetails>>),
}

/// The request that a probe needs answered next: a GET of `url`.
#[derive(Debug)]
pub enum Request {
    CheckReachable { url: String },
    FetchStatus { url: String },
    FetchClusterInfo { url: String },
    FetchIndices { url: String },
}

/// Model of a probe.
pub enum ProbeModel {
    NotStarted { url: Seq<char> },
    ReachabilityChecked { url: Seq<char> },
    StatusFetched { info: BragiModel },
    ClusterInfoFetched { info: BragiModel },
    Done { report: BragiModel },
    Failed { error: ErrorModel },
}

/// Model of a request.
pub enum RequestModel {
    CheckReachable { url: Seq<char> },
    FetchStatus { url: Seq<char> },
    FetchClusterInfo { url: Seq<char> },
    FetchIndices { url: Seq<char> },
}

impl View for Probe {
    type V = ProbeModel;

    open spec fn view(&self) -> ProbeModel {
        match self {
            Probe::NotStarted { url } => ProbeModel::NotStarted { url: url@ },
            Probe::ReachabilityChecked { url } => ProbeModel::ReachabilityChecked { url: url@ },
            Probe::StatusFetched { info } => ProbeModel::StatusFetched { info: info@ },
            Probe::ClusterInfoFetched { info } => ProbeModel::ClusterInfoFetched { info: info@ },
            Probe::Done { report } => ProbeModel::Done { report: report@ },
            Probe::Failed { error } => ProbeModel::Failed { error: error@ },
        }
    }
}

impl View for Request {
    type V = RequestModel;

    open spec fn view(&self) -> RequestModel {
        match self {
            Request::CheckReachable { url } => RequestModel::CheckReachable { url: url@ },
            Request::FetchStatus { url } => RequestModel::FetchStatus { url: url@ },
            Request::FetchClusterInfo { url } => RequestModel::FetchClusterInfo { url: url@ },
            Request::FetchIndices { url } => RequestModel::FetchIndices { url: url@ },
        }
    }
}

/// The probe that a stage's outcome leads to: the next stage, or failure.
pub open spec fn step_to(r: Result<BragiModel, ErrorModel>, next: spec_fn(BragiModel) -> ProbeModel) -> ProbeModel {
    match r {
        Ok(info) => next(info),
        Err(error) => ProbeModel::Failed { error },
    }
}

/// The probe after `event` at time `now`. An event that does not answer the
/// probe's request leaves it as it was; a finished or failed probe stays so.
pub open spec fn advance_spec(p: ProbeModel, event: Event, now: UtcDateTime) -> ProbeModel {
    match p {
        ProbeModel::NotStarted { url } => match event {
            Event::Reachability(answer) => match accessible_spec(url, answer) {
                Ok(u) => ProbeModel::ReachabilityChecked { url: u },
                Err(error) => ProbeModel::Failed { error },
            },
            _ => p,
        },
        ProbeModel::ReachabilityChecked { url } => match event {
            Event::Status(f) => step_to(
                bragi_status_spec(url, f, now),
                |info: BragiModel| ProbeModel::StatusFetched { info },
            ),
            _ => p,
        },
        ProbeModel::StatusFetched { info } => match event {
            Event::ClusterInfo(f) => step_to(
                cluster_info_spec(info, f),
                |info: BragiModel| ProbeModel::ClusterInfoFetched { info },
            ),
            _ => p,
        },
        ProbeModel::ClusterInfoFetched { info } => match event {
            Event::Indices(f) => step_to(
                indices_spec(info, f, now),
                |report: BragiModel| ProbeModel::Done { report },
            ),
            _ => p,
        },
        _ => p,
    }
}

/// The request that a probe needs answered next; none once it has finished
/// or failed, or where a stage lacks the cluster section it needs.
pub open spec fn request_spec(p: ProbeModel) -> Option<RequestModel> {
    match p {
        ProbeModel::NotStarted { url } => Some(RequestModel::CheckReachable { url }),
        ProbeModel::ReachabilityChecked { url } => Some(
            RequestModel::FetchStatus { url: url + "/status"@ },
        ),
        ProbeModel::StatusFetched { info } => match info.elastic {
            Some(e) => Some(RequestModel::FetchClusterInfo { url: e.url }),
            None => None,
        },
        ProbeModel::ClusterInfoFetched { info } => match info.elastic {
            Some(e) => Some(RequestModel::FetchIndices { url: e.url + "/_cat/indices?format=json"@ }),
            None => None,
        },
        _ => None,
    }
}

/// The error of a probe that stopped before it finished.
pub open spec fn unfinished() -> ErrorModel {
    ErrorModel::MiscError { details: "the probe has not finished"@ }
}

/// What a probe ends in: its report, or its error.
pub open spec fn finish_spec(p: ProbeModel) -> Result<BragiModel, ErrorModel> {
    match p {
        ProbeModel::Done { report } => Ok(report),
        ProbeModel::Failed { error } => Err(error),
        _ => Err(unfinished()),
    }
}

/// The probe after each event of `events` in turn, each at its own time.
pub open spec fn run_spec(p: ProbeModel, events: Seq<(Event, UtcDateTime)>) -> ProbeModel
    decreases events.len(),
{
    if events.len() == 0 {
        p
    } else {
        advance_spec(run_spec(p, events.drop_last()), events.last().0, events.last().1)
    }
}

impl Probe {
    /// A probe of the upstream service at `url`, with nothing asked yet.
    pub fn new(url: String) -> (r: Probe)
        ensures
            r@ == (ProbeModel::NotStarted { url: url@ }),
    {
        Probe::NotStarted { url }
    }

    /// The request that this probe needs answered next.
    pub fn request(&self) -> (r: Option<Request>)
        ensures
            match r {
                Some(q) => request_spec(self@) == Some(q@),
                None => request_spec(self@) is None,
            },
    {
        match self {
            Probe::NotStarted { url } => Some(Request::CheckReachable { url: url.clone() }),
            Probe::ReachabilityChecked { url } => Some(
                Request::FetchStatus { url: status_url(url.as_str()) },
            ),
            Probe::StatusFetched { info } => match &info.elastic {
                Some(e) => Some(Request::FetchClusterInfo { url: e.url.clone() }),
                None => None,
            },
            Probe::ClusterInfoFetched { info } => match &info.elastic {
                Some(e) => Some(Request::FetchIndices { url: indices_url(e.url.as_str()) }),
                None => None,
            },
            _ => None,
        }
    }

    /// The probe after `event`, with the stages that stamp the report stamping
    /// it at `now`.
    pub fn advance(self, event: Event, now: UtcDateTime) -> (r: Probe)
        ensures
            r@ == advance_spec(self@, event, now),
    {
        match self {
            Probe::NotStarted { url } => match event {
                Event::Reachability(answer) => match check_accessible(url, answer) {
                    Ok(u) => Probe::ReachabilityChecked { url: u },
                    Err(error) => Probe::Failed { error },
                },
                _ => Probe::NotStarted { url },
            },
            Probe::ReachabilityChecked { url } => match event {
                Event::Status(f) => match check_bragi_status(url, f, now) {
                    Ok(info) => Probe::StatusFetched { info },
                    Err(error) => Probe::Failed { error },
                },
                _ => Probe::ReachabilityChecked { url },
            },
            Probe::StatusFetched { info } => match event {
                Event::ClusterInfo(f) => match check_elasticsearch_info(info, f) {
                    Ok(info) => Probe::ClusterInfoFetched { info },
                    Err(error) => Probe::Failed { error },
                },
                _ => Probe::StatusFetched { info },
            },
            Probe::ClusterInfoFetched { info } => match event {
                Event::Indices(f) => match check_elasticsearch_indices(info, f, now) {
                    Ok(info) => Probe::Done { report: BragiInfoResponseBody { info } },
                    Err(error) => Probe::Failed { error },
                },
                _ => Probe::ClusterInfoFetched { info },
            },
            other => other,
        }
    }

    /// The probe after `event`, stamped with the current time where a stage
    /// stamps the report.
    pub fn advance_now(self, event: Event) -> (r: Probe)
        ensures
            exists|t: UtcDateTime| t.wf() && r@ == #[trigger] advance_spec(self@, event, t),
    {
        let now = current_time();
        let ghost before = self@;
        let r = self.advance(event, now);
        proof {
            assert(now.wf() && r@ == advance_spec(before, event, now));
        }
        r
    }

    /// What this probe ends in: the report once it is done, the error once it
    /// has failed, and an internal error before either.
    pub fn finish(self) -> (r: Result<BragiInfoResponseBody, Error>)
        ensures
            match r {
                Ok(b) => finish_spec(self@) == Ok::<BragiModel, ErrorModel>(b@),
                Err(e) => finish_spec(self@) == Err::<BragiModel, ErrorModel>(e@),
            },
    {
        match self {
            Probe::Done { report } => Ok(report),
            Probe::Failed { error } => Err(error),
            _ => Err(Error::MiscError { details: String::from_str("the probe has not finished") }),
        }
    }
}

/// A failed probe stays failed, with the same error, whatever events follow.
pub proof fn lemma_failed_absorbing(error: ErrorModel, events: Seq<(Event, UtcDateTime)>)
    ensures
        run_spec(ProbeModel::Failed { error }, events) == (ProbeModel::Failed { error }),
    decreases events.len(),
{
    if events.len() > 0 {
        lemma_failed_absorbing(error, events.drop_last());
    }
}

/// Where the upstream service cannot be reached, or answers with a client or
/// server error, the probe fails with an `Unreachable` error and, whatever
/// follows, ends in that error and in no report.
pub proof fn lemma_unreachable_upstream_fails(
    url: Seq<char>,
    answer: Result<u16, String>,
    now: UtcDateTime,
    later: Seq<(Event, UtcDateTime)>,
)
    requires
        answer is Err || is_failure_status(answer->Ok_0),
    ensures
        ({
            let p = advance_spec(ProbeModel::NotStarted { url }, Event::Reachability(answer), now);
            &&& p is Failed
            &&& p->error.kind() == ErrorKind::Unreachable
            &&& run_spec(p, later) == p
            &&& finish_spec(run_spec(p, later)) == Err::<BragiModel, ErrorModel>(p->error)
        }),
{
    let p = advance_spec(ProbeModel::NotStarted { url }, Event::Reachability(answer), now);
    lemma_failed_absorbing(p->error, later);
}

/// Where the index catalog cannot be fetched or read, the probe still ends in
/// a report: its cluster section is unavailable and lists no indices, and the
/// rest of the report is as the earlier stages left it.
pub proof fn lemma_catalog_failure_degrades(
    info: BragiModel,
    fetched: Fetched<Vec<ElasticsearchIndexInfoDetails>>,
    now: UtcDateTime,
)
    requires
        info.elastic is Some,
        !(fetched is Body),
    ensures
        ({
            let p = advance_spec(ProbeModel::ClusterInfoFetched { info }, Event::Indices(fetched), now);
            let e = info.elastic->0;
            &&& p is Done
            &&& p->report == with_elastic(
                info,
                ElasticModel {
                    status: ServerStatus::NotAvailable,
                    indices: Seq::empty(),
                    updated_at: now,
                    ..e
                },
            )
            &&& finish_spec(p) is Ok
        }),
{
}

/// How far a probe has come: one more for each stage passed; finished and
/// failed probes rank highest.
pub open spec fn stage_rank(p: ProbeModel) -> nat {
    match p {
        ProbeModel::NotStarted { .. } => 0,
        ProbeModel::ReachabilityChecked { .. } => 1,
        ProbeModel::StatusFetched { .. } => 2,
        ProbeModel::ClusterInfoFetched { .. } => 3,
        _ => 4,
    }
}

/// Whether `event` is an answer to the request `q`.
pub open spec fn answers(q: RequestModel, event: Event) -> bool {
    match q {
        RequestModel::CheckReachable { .. } => event is Reachability,
        RequestModel::FetchStatus { .. } => event is Status,
        RequestModel::FetchClusterInfo { .. } => event is ClusterInfo,
        RequestModel::FetchIndices { .. } => event is Indices,
    }
}

/// Each answer to a probe's request moves it on by at least one stage, so a
/// probe that is answered each time it asks finishes or fails within four
/// requests; a finished or failed probe never moves.
pub proof fn lemma_progress(p: ProbeModel, event: Event, now: UtcDateTime)
    ensures
        request_spec(p) matches Some(q) && answers(q, event) ==> stage_rank(p) < stage_rank(
            advance_spec(p, event, now),
        ),
        request_spec(p) is None && (p is Done || p is Failed) ==> advance_spec(p, event, now) == p,
{
}

} // verus!
