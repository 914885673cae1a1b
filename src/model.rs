//! The status report: the upstream service, its Elasticsearch cluster and the
//! cluster's indices, with the mathematical model that contracts speak of.

use vstd::prelude::*;

use crate::time::UtcDateTime;

verus! {

/// Whether the source of an index is private or public.
#[derive(Clone, Copy, Debug, PartialEq, Eq, Structural)]
pub enum PrivateStatus {
    Private,
    Public,
}

/// Tests whether a source is public.
pub fn is_public(status: &PrivateStatus) -> (r: bool)
    ensures
        r == (*status == PrivateStatus::Public),
{
    *status == PrivateStatus::Public
}

/// Availability of one server.
#[derive(Clone, Copy, Debug, PartialEq, Eq, Structural)]
pub enum ServerStatus {
    Available,
    NotAvailable,
}

/// Availability of the upstream service, summarising a cascade of failures.
#[derive(Clone, Copy, Debug, PartialEq, Eq, Structural)]
pub enum BragiStatus {
    Available,
    BragiNotAvailable,
    ElasticsearchNotAvailable,
}

/// The body of the upstream service's `/status` answer.
#[derive(Clone, Debug)]
pub struct BragiStatusDetails {
    pub version: String,
    /// The Elasticsearch endpoint that the service is configured with.
    pub elasticsearch: String,
    pub status: String,
}

/// The version block of the Elasticsearch cluster-info answer.
#[derive(Clone, Debug)]
pub struct ElasticsearhVersionDetails {
    pub number: String,
    pub build_hash: String,
    pub build_timestamp: String,
    pub build_snapshot: String,
    pub lucene_version: String,
}

/// The Elasticsearch cluster-info answer.
#[derive(Clone, Debug)]
pub struct ElasticsearhInfoDetails {
    pub name: String,
    pub cluster_name: String,
    pub cluster_uuid: String,
    pub version: ElasticsearhVersionDetails,
    pub tagline: String,
}

/// One entry of the Elasticsearch index catalog.
#[derive(Clone, Debug)]
pub struct ElasticsearchIndexInfoDetails {
    pub health: String,
    pub status: String,
    pub index: String,
    pub prim: u32,
    pub rep: u32,
    /// The document count, as the catalog writes it.
    pub count: String,
    pub deleted: String,
    pub size: String,
    pub pri_size: String,
}

/// What the report says of one index.
#[derive(Clone, Debug)]
pub struct ElasticsearchIndexInfo {
    pub label: String,
    pub place_type: String,
    pub coverage: String,
    pub private: PrivateStatus,
    pub date: UtcDateTime,
    pub count: u32,
    pub updated_at: UtcDateTime,
}

/// What the report says of the Elasticsearch cluster.
#[derive(Clone, Debug)]
pub struct ElasticsearchInfo {
    pub label: String,
    pub url: String,
    pub name: String,
    pub status: ServerStatus,
    pub version: String,
    pub indices: Vec<ElasticsearchIndexInfo>,
    /// The leading path segment of the cluster's endpoint, such as `munin`.
    pub index_prefix: String,
    pub updated_at: UtcDateTime,
}

/// The report on the upstream service.
#[derive(Clone, Debug)]
pub struct BragiInfo {
    pub label: String,
    pub url: String,
    pub version: String,
    pub status: BragiStatus,
    pub updated_at: UtcDateTime,
    pub elastic: Option<ElasticsearchInfo>,
}

/// The report as the query boundary hands it out: `{ info: ... }`.
#[derive(Clone, Debug)]
pub struct BragiInfoResponseBody {
    pub info: BragiInfo,
}

/// Model of an index report.
pub struct IndexModel {
    pub label: Seq<char>,
    pub place_type: Seq<char>,
    pub coverage: Seq<char>,
    pub private: PrivateStatus,
    pub date: UtcDateTime,
    pub count: u32,
    pub updated_at: UtcDateTime,
}

/// Model of a cluster report.
pub struct ElasticModel {
    pub label: Seq<char>,
    pub url: Seq<char>,
    pub name: Seq<char>,
    pub status: ServerStatus,
    pub version: Seq<char>,
    pub indices: Seq<IndexModel>,
    pub index_prefix: Seq<char>,
    pub updated_at: UtcDateTime,
}

/// Model of a service report.
pub struct BragiModel {
    pub label: Seq<char>,
    pub url: Seq<char>,
    pub version: Seq<char>,
    pub status: BragiStatus,
    pub updated_at: UtcDateTime,
    pub elastic: Option<ElasticModel>,
}

impl View for ElasticsearchIndexInfo {
    type V = IndexModel;

    open spec fn view(&self) -> IndexModel {
        IndexModel {
            label: self.label@,
            place_type: self.place_type@,
            coverage: self.coverage@,
            private: self.private,
            date: self.date,
            count: self.count,
            updated_at: self.updated_at,
        }
    }
}

impl View for ElasticsearchInfo {
    type V = ElasticModel;

    open spec fn view(&self) -> ElasticModel {
        ElasticModel {
            label: self.label@,
            url: self.url@,
            name: self.name@,
            status: self.status,
            version: self.version@,
            indices: self.indices@.map_values(|i: ElasticsearchIndexInfo| i@),
            index_prefix: self.index_prefix@,
            updated_at: self.updated_at,
        }
    }
}

/// The model of an optional cluster report.
pub open spec fn elastic_view(e: Option<ElasticsearchInfo>) -> Option<ElasticModel> {
    match e {
        Some(x) => Some(x@),
        None => None,
    }
}

impl View for BragiInfo {
    type V = BragiModel;

    open spec fn view(&self) -> BragiModel {
        BragiModel {
            label: self.label@,
            url: self.url@,
            version: self.version@,
            status: self.status,
            updated_at: self.updated_at,
            elastic: elastic_view(self.elastic),
        }
    }
}

impl View for BragiInfoResponseBody {
    type V = BragiModel;

    open spec fn view(&self) -> BragiModel {
        self.info@
    }
}

impl BragiInfoResponseBody {
    /// The report inside.
    pub fn info(&self) -> (r: &BragiInfo)
        ensures
            r@ == self@,
    {
        &self.info
    }

    /// Takes the report out.
    pub fn into_info(self) -> (r: BragiInfo)
        ensures
            r@ == self@,
    {
        self.info
    }
}

impl From<BragiInfo> for BragiInfoResponseBody {
    fn from(info: BragiInfo) -> (r: Self) {
        BragiInfoResponseBody { info }
    }
}

impl vstd::std_specs::convert::FromSpecImpl<BragiInfo> for BragiInfoResponseBody {
    open spec fn obeys_from_spec() -> bool {
        true
    }

    open spec fn from_spec(info: BragiInfo) -> Self {
        BragiInfoResponseBody { info }
    }
}

} // verus!
