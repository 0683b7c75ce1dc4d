//! The backend-agnostic domain model: embedding records, requests, read-side
//! projections and the shared enumerations.
//!
//! Vector components are carried as the 32-bit patterns of their
//! floating-point representation; the layer that talks to a backend converts
//! between those patterns and its native component type.  String-keyed
//! metadata travels as an ordered list of key/value pairs.

use vstd::prelude::*;
use crate::errors::VectorDatabaseError;

verus! {

/// A tagged outcome for operations that ran but may be semantically
/// unsuccessful.  This is distinct from the error channel: `Failure` means
/// the backend executed the call yet the result is negative (for instance an
/// insert count mismatch), `NotFound` means the resource is absent, and
/// `Error` carries a failure that a batch-style caller chose to keep inline
/// rather than propagate.
#[derive(Clone, Debug, PartialEq, Eq)]
pub enum VectorDatabaseStatus {
    Okay,
    Failure,
    NotFound,
    Error(VectorDatabaseError),
}

impl VectorDatabaseStatus {
    /// Maps a backend's boolean answer onto a status: success when the
    /// backend says yes, `Failure` when it says no.
    pub fn from_bool(value: bool) -> (r: VectorDatabaseStatus)
        ensures
            value ==> r is Okay,
            !value ==> r is Failure,
    {
        match value {
            true => VectorDatabaseStatus::Okay,
            false => VectorDatabaseStatus::Failure,
        }
    }

    /// Classifies the numeric status code a backend reports for a
    /// collection: code 1 is healthy, code 2 is a degraded collection, and
    /// every other code is an error outcome with a non-empty message.
    pub fn from_collection_status_code(code: i32) -> (r: VectorDatabaseStatus)
        ensures
            code == 1 ==> r is Okay,
            code == 2 ==> r is Failure,
            !(code == 1 || code == 2) ==> (r matches VectorDatabaseStatus::Error(e)
                && e matches VectorDatabaseError::Other(m) && m@.len() > 0),
    {
        match code {
            1 => VectorDatabaseStatus::Okay,
            2 => VectorDatabaseStatus::Failure,
            _ => {
                proof {
                    reveal_strlit("An error occurred");
                }
                VectorDatabaseStatus::Error(VectorDatabaseError::Other(
                    "An error occurred".to_owned(),
                ))
            },
        }
    }
}

/// Whether a lookup of a collection may create it when absent.
#[derive(Clone, Copy, Debug, PartialEq, Eq, Structural)]
pub enum CreateDisposition {
    CreateIfNeeded,
    CreateNever,
}

/// One embedding record: an optional external identifier, the dense vector
/// (components as 32-bit float patterns) and optional string-keyed metadata.
/// When `index` is absent the backend is responsible for assigning one on
/// insert; the payload, when present, must survive the round trip through
/// the backend's metadata representation unchanged.
#[derive(Clone, Debug, PartialEq, Eq)]
pub struct Point {
    pub index: Option<String>,
    pub vector: Vec<u32>,
    pub payload: Option<Vec<(String, String)>>,
}

impl Point {
    pub fn new(
        index: Option<String>,
        vector: Vec<u32>,
        payload: Option<Vec<(String, String)>>,
    ) -> (r: Point)
        ensures
            r.index == index,
            r.vector == vector,
            r.payload == payload,
    {
        Point { index, vector, payload }
    }
}

/// One ranked answer of a similarity query: the backend's score (as a 32-bit
/// float pattern), the recovered payload, and optionally the raw vector.
#[derive(Clone, Debug, PartialEq, Eq)]
pub struct SearchResult {
    pub score: Option<u32>,
    pub payload: Option<Vec<(String, String)>>,
    pub vector: Option<Vec<u32>>,
}

/// The outcome of an existence check on a collection.  Absence is a status,
/// never an error.
#[derive(Clone, Debug, PartialEq, Eq)]
pub struct CollectionsResult {
    pub status: VectorDatabaseStatus,
    pub collection_name: String,
    pub collection_metadata: Option<CollectionMetadata>,
}

/// Best-effort descriptive counts for one collection.
#[derive(Clone, Debug, PartialEq, Eq)]
pub struct CollectionMetadata {
    pub status: VectorDatabaseStatus,
    pub collection_vector_count: Option<u64>,
    pub metric: Option<Distance>,
    pub dimensions: Option<u64>,
}

/// One raw record handed back by a paginated point scroll.
#[derive(Clone, Debug, PartialEq, Eq)]
pub struct ScrollResults {
    pub status: VectorDatabaseStatus,
    pub id: String,
    pub payload: Vec<(String, String)>,
    pub vector: Vec<u32>,
}

/// Filter clauses a caller may attach to a query.
#[derive(Clone, Debug, PartialEq, Eq)]
pub struct FilterConditions {
    pub must: Option<Vec<Vec<(String, String)>>>,
    pub must_not: Option<Vec<Vec<(String, String)>>>,
    pub should: Option<Vec<Vec<(String, String)>>>,
}

impl Default for FilterConditions {
    /// The empty filter: no clause of any polarity.
    fn default() -> (r: FilterConditions)
        ensures
            r.must is None,
            r.must_not is None,
            r.should is None,
    {
        FilterConditions { must: None, must_not: None, should: None }
    }
}

/// Dictates what a search response includes and how it is paginated.
#[derive(Clone, Debug, PartialEq, Eq)]
pub struct SearchResponseParams {
    pub include_vectors: Option<bool>,
    pub include_payload: Option<bool>,
    pub get_all_pages: Option<bool>,
    pub limit: Option<u32>,
}

/// Dictates the type of search that is conducted.
#[derive(Clone, Copy, Debug, PartialEq, Eq, Structural)]
pub enum SearchType {
    Collection,
    Point,
    Similarity,
}

/// The unit of intent for collection, point and similarity operations.
#[derive(Clone, Debug, PartialEq, Eq)]
pub struct SearchRequest {
    pub search_type: SearchType,
    pub collection: String,
    pub id: Option<String>,
    pub vector: Option<Vec<u32>>,
    pub filters: Option<FilterConditions>,
    pub search_response_params: Option<SearchResponseParams>,
    pub region: Option<Region>,
    pub cloud: Option<Cloud>,
}

impl SearchRequest {
    /// A fresh request against one collection.  Placement falls back to the
    /// fixed defaults of this layer: region `US`, cloud `GCP`.  This default
    /// selection is deliberate policy, stated here so it can be audited in
    /// one place.
    pub fn new(search_type: SearchType, collection: String) -> (r: SearchRequest)
        ensures
            r.search_type == search_type,
            r.collection == collection,
            r.id is None,
            r.vector is None,
            r.filters is None,
            r.search_response_params is None,
            r.region == Some(Region::US),
            r.cloud == Some(Cloud::GCP),
    {
        SearchRequest {
            search_type,
            collection,
            id: None,
            vector: None,
            filters: None,
            search_response_params: None,
            region: Some(Region::US),
            cloud: Some(Cloud::GCP),
        }
    }
}

/// The placement region of a backend resource.
#[derive(Clone, Copy, Debug, PartialEq, Eq, Structural)]
pub enum Region {
    US,
    EU,
    AU,
}

/// The views of a list of strings.
pub open spec fn string_views(s: Seq<String>) -> Seq<Seq<char>> {
    s.map_values(|x: String| x@)
}

/// The region a request effectively targets: its own region when present,
/// else the fixed `US` default.
pub open spec fn effective_region(region: Option<Region>) -> Region {
    match region {
        Some(r) => r,
        None => Region::US,
    }
}

/// The canonical backend resource-locator string of each region.
pub open spec fn region_str_spec(region: Region) -> Seq<char> {
    match region {
        Region::US => "us-east-1"@,
        Region::EU => "eu-west-1"@,
        Region::AU => "ap-southeast-2"@,
    }
}

impl Region {
    /// The canonical backend resource-locator string of a region.  The
    /// mapping is stable: identifiers already derived from it keep working.
    pub fn to_str(region: Region) -> (r: &'static str)
        ensures
            r@ == region_str_spec(region),
    {
        match region {
            Region::US => "us-east-1",
            Region::EU => "eu-west-1",
            Region::AU => "ap-southeast-2",
        }
    }

    /// The region a canonical locator string denotes, when it denotes one.
    pub fn parse(s: &str) -> (r: Option<Region>)
        ensures
            r == region_parse_spec(s@),
    {
        let owned: String = s.to_owned();
        if owned == "us-east-1".to_owned() {
            Some(Region::US)
        } else if owned == "eu-west-1".to_owned() {
            Some(Region::EU)
        } else if owned == "ap-southeast-2".to_owned() {
            Some(Region::AU)
        } else {
            None
        }
    }
}

/// What `Region::parse` recovers from a string.
pub open spec fn region_parse_spec(s: Seq<char>) -> Option<Region> {
    if s == region_str_spec(Region::US) {
        Some(Region::US)
    } else if s == region_str_spec(Region::EU) {
        Some(Region::EU)
    } else if s == region_str_spec(Region::AU) {
        Some(Region::AU)
    } else {
        None
    }
}

/// The canonical locator strings round-trip: parsing the string of a region
/// recovers that region, so identifiers derived from the mapping stay
/// stable.
pub proof fn lemma_region_locator_round_trip(region: Region)
    ensures
        region_parse_spec(region_str_spec(region)) == Some(region),
{
    reveal_strlit("us-east-1");
    reveal_strlit("eu-west-1");
    reveal_strlit("ap-southeast-2");
    assert(region_str_spec(Region::US).len() == 9);
    assert(region_str_spec(Region::EU).len() == 9);
    assert(region_str_spec(Region::AU).len() == 14);
    assert(region_str_spec(Region::US)[0] == 'u');
    assert(region_str_spec(Region::EU)[0] == 'e');
}

/// The cloud provider hosting a backend resource.
#[derive(Clone, Copy, Debug, PartialEq, Eq, Structural)]
pub enum Cloud {
    GCP,
    AWS,
    AZURE,
}

/// The canonical provider token of each cloud.
pub open spec fn cloud_str_spec(cloud: Cloud) -> Seq<char> {
    match cloud {
        Cloud::GCP => "gcp"@,
        Cloud::AWS => "aws"@,
        Cloud::AZURE => "azure"@,
    }
}

impl Cloud {
    /// The canonical provider token of a cloud.
    pub fn to_str(cloud: Cloud) -> (r: &'static str)
        ensures
            r@ == cloud_str_spec(cloud),
    {
        match cloud {
            Cloud::GCP => "gcp",
            Cloud::AWS => "aws",
            Cloud::AZURE => "azure",
        }
    }
}

/// A byte-footprint estimate for one collection.
#[derive(Clone, Debug, PartialEq, Eq)]
pub struct StorageSize {
    pub status: VectorDatabaseStatus,
    pub collection_name: String,
    pub size: Option<u64>,
    pub points_count: Option<u64>,
}

/// The canonical identity of a distance metric.  Every backend's native
/// metric enumeration maps totally into this set; the reverse direction may
/// be partial.
#[derive(Clone, Copy, Debug, PartialEq, Eq, Structural)]
pub enum Distance {
    UnknownDistance,
    Cosine,
    Euclid,
    Dot,
    Manhattan,
}

/// The desired specification of a collection: name, vector dimensionality,
/// optional namespace, metric and optional vector-field name.  Once a
/// collection exists its dimensionality and metric are immutable.
#[derive(Clone, Debug, PartialEq, Eq)]
pub struct CollectionCreate {
    pub collection_name: String,
    pub size: u64,
    pub namespace: Option<String>,
    pub distance: Distance,
    pub vector_name: Option<String>,
}

/// One ingestion record at the boundary to the chunking collaborator: text,
/// optional string-keyed metadata and an optional precomputed vector.
#[derive(Clone, Debug, PartialEq, Eq)]
pub struct Document {
    pub page_content: String,
    pub metadata: Option<Vec<(String, String)>>,
    pub embedding_vector: Option<Vec<u32>>,
}

} // verus!
