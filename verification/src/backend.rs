//! Plain-value mirrors of what the backend client hands the adapter, and the
//! translations between them and the domain model.
//!
//! The backend speaks in indexes, namespaces, metric enumerations and
//! metadata structs.  Each of those is mirrored here as a type of this
//! library holding exactly the values the adapter logic reads, so the
//! translation rules can be stated and proved; the layer that performs the
//! network calls converts between these mirrors and the client's own types.

use vstd::prelude::*;
use crate::errors::{BackendError, VectorDatabaseError};
use crate::models::{Distance, Point};

verus! {

/// The backend's native distance-metric enumeration.
#[derive(Clone, Copy, Debug, PartialEq, Eq, Structural)]
pub enum BackendMetric {
    Cosine,
    Euclidean,
    Dotproduct,
}

/// The canonical `Distance` of each backend metric.  The mapping is total:
/// every backend value has exactly one canonical value.
pub open spec fn distance_of_metric(metric: BackendMetric) -> Distance {
    match metric {
        BackendMetric::Cosine => Distance::Cosine,
        BackendMetric::Euclidean => Distance::Euclid,
        BackendMetric::Dotproduct => Distance::Dot,
    }
}

/// The backend metric denoting a canonical `Distance`, where one exists.
/// `UnknownDistance` and `Manhattan` have no backend equivalent: a creation
/// request carrying them must fail fast instead of reaching the backend.
pub open spec fn metric_of_distance(distance: Distance) -> Option<BackendMetric> {
    match distance {
        Distance::Cosine => Some(BackendMetric::Cosine),
        Distance::Euclid => Some(BackendMetric::Euclidean),
        Distance::Dot => Some(BackendMetric::Dotproduct),
        Distance::UnknownDistance => None,
        Distance::Manhattan => None,
    }
}

impl Distance {
    /// The canonical identity of a backend metric.
    pub fn from_metric(metric: BackendMetric) -> (r: Distance)
        ensures
            r == distance_of_metric(metric),
    {
        match metric {
            BackendMetric::Cosine => Distance::Cosine,
            BackendMetric::Euclidean => Distance::Euclid,
            BackendMetric::Dotproduct => Distance::Dot,
        }
    }

    /// The backend metric this canonical value denotes, where one exists.
    pub fn to_metric(distance: Distance) -> (r: Option<BackendMetric>)
        ensures
            r == metric_of_distance(distance),
    {
        match distance {
            Distance::Cosine => Some(BackendMetric::Cosine),
            Distance::Euclid => Some(BackendMetric::Euclidean),
            Distance::Dot => Some(BackendMetric::Dotproduct),
            Distance::UnknownDistance => None,
            Distance::Manhattan => None,
        }
    }
}

/// The metric mapping is total and deterministic: every backend metric has
/// exactly one canonical `Distance`, the same on every evaluation, and the
/// reverse mapping recovers the backend metric wherever one exists.
pub proof fn lemma_metric_mapping_total(metric: BackendMetric)
    ensures
        distance_of_metric(BackendMetric::Cosine) == Distance::Cosine,
        distance_of_metric(BackendMetric::Euclidean) == Distance::Euclid,
        distance_of_metric(BackendMetric::Dotproduct) == Distance::Dot,
        metric_of_distance(distance_of_metric(metric)) == Some(metric),
{
}

/// One metadata value in the backend's representation.  Payload values
/// travel as text; the other kinds exist so that foreign metadata can be
/// carried through without being mistaken for payload entries.
#[derive(Clone, Debug, PartialEq, Eq)]
pub enum MetadataValue {
    Null,
    Text(String),
    Truth(bool),
}

/// The backend's string-keyed metadata struct, mirrored as an ordered list
/// of fields.
#[derive(Clone, Debug, PartialEq, Eq)]
pub struct BackendMetadata {
    pub fields: Vec<(String, MetadataValue)>,
}

/// The metadata fields that encode a payload: each entry keeps its key and
/// carries its value as text.
pub open spec fn metadata_fields_of(payload: Seq<(String, String)>) -> Seq<(String, MetadataValue)>
    decreases payload.len(),
{
    if payload.len() == 0 {
        Seq::empty()
    } else {
        metadata_fields_of(payload.drop_last()).push(
            (payload.last().0, MetadataValue::Text(payload.last().1)),
        )
    }
}

/// The payload recovered from metadata fields: every text field keeps its
/// key and value, in order; fields of any other kind are not payload and are
/// dropped.
pub open spec fn payload_of_fields(fields: Seq<(String, MetadataValue)>) -> Seq<(String, String)>
    decreases fields.len(),
{
    if fields.len() == 0 {
        Seq::empty()
    } else {
        payload_of_fields(fields.drop_last()) + (match fields.last().1 {
            MetadataValue::Text(v) => seq![(fields.last().0, v)],
            _ => Seq::empty(),
        })
    }
}

/// Encodes a payload into the backend's metadata representation.
pub fn payload_to_metadata(payload: &Vec<(String, String)>) -> (r: BackendMetadata)
    ensures
        r.fields@ == metadata_fields_of(payload@),
{
    let mut fields: Vec<(String, MetadataValue)> = Vec::new();
    let mut i: usize = 0;
    while i < payload.len()
        invariant
            i <= payload.len(),
            fields@ == metadata_fields_of(payload@.subrange(0, i as int)),
        decreases payload.len() - i,
    {
        let key = payload[i].0.clone();
        let value = payload[i].1.clone();
        fields.push((key, MetadataValue::Text(value)));
        proof {
            assert(payload@.subrange(0, i + 1 as int).drop_last() =~= payload@.subrange(
                0,
                i as int,
            ));
            assert(payload@.subrange(0, i + 1 as int).last() == payload@[i as int]);
        }
        i = i + 1;
    }
    proof {
        assert(payload@.subrange(0, payload@.len() as int) =~= payload@);
    }
    BackendMetadata { fields }
}

/// Recovers a payload from the backend's metadata representation.
pub fn metadata_to_payload(metadata: &BackendMetadata) -> (r: Vec<(String, String)>)
    ensures
        r@ == payload_of_fields(metadata.fields@),
{
    let mut payload: Vec<(String, String)> = Vec::new();
    let mut i: usize = 0;
    while i < metadata.fields.len()
        invariant
            i <= metadata.fields.len(),
            payload@ == payload_of_fields(metadata.fields@.subrange(0, i as int)),
        decreases metadata.fields.len() - i,
    {
        proof {
            assert(metadata.fields@.subrange(0, i + 1 as int).drop_last() =~= metadata.fields@
                .subrange(0, i as int));
            assert(metadata.fields@.subrange(0, i + 1 as int).last() == metadata.fields@[i as int]);
        }
        match &metadata.fields[i].1 {
            MetadataValue::Text(v) => {
                let key = metadata.fields[i].0.clone();
                let value = v.clone();
                payload.push((key, value));
                proof {
                    assert(payload@ =~= payload_of_fields(
                        metadata.fields@.subrange(0, i + 1 as int),
                    ));
                }
            },
            _ => {
                proof {
                    assert(payload@ =~= payload_of_fields(
                        metadata.fields@.subrange(0, i + 1 as int),
                    ));
                }
            },
        }
        i = i + 1;
    }
    proof {
        assert(metadata.fields@.subrange(0, metadata.fields@.len() as int) =~= metadata.fields@);
    }
    payload
}

/// A payload survives the two-way conversion through the backend's metadata
/// representation unchanged: recovering the payload of its own encoding
/// yields the payload, entry for entry.
pub proof fn lemma_payload_metadata_round_trip(payload: Seq<(String, String)>)
    ensures
        payload_of_fields(metadata_fields_of(payload)) == payload,
    decreases payload.len(),
{
    if payload.len() == 0 {
        assert(payload_of_fields(metadata_fields_of(payload)) =~= payload);
    } else {
        lemma_payload_metadata_round_trip(payload.drop_last());
        let encoded = metadata_fields_of(payload);
        assert(encoded.drop_last() =~= metadata_fields_of(payload.drop_last()));
        assert(payload_of_fields(encoded) =~= payload);
    }
}

/// One embedding record in the backend's own shape.
#[derive(Clone, Debug, PartialEq, Eq)]
pub struct BackendVector {
    pub id: String,
    pub values: Vec<u32>,
    pub metadata: Option<BackendMetadata>,
}

/// Copies a run of vector components.
pub fn copy_components(components: &Vec<u32>) -> (r: Vec<u32>)
    ensures
        r@ == components@,
{
    let mut out: Vec<u32> = Vec::new();
    let mut i: usize = 0;
    while i < components.len()
        invariant
            i <= components.len(),
            out@ == components@.subrange(0, i as int),
        decreases components.len() - i,
    {
        out.push(components[i]);
        proof {
            assert(out@ =~= components@.subrange(0, i + 1 as int));
        }
        i = i + 1;
    }
    proof {
        assert(components@.subrange(0, components@.len() as int) =~= components@);
    }
    out
}

/// `vector` is the faithful translation of `point` into the backend's
/// shape: same identifier, same components, and the payload encoded as
/// metadata exactly when one is present.
pub open spec fn is_vector_of(vector: BackendVector, point: Point) -> bool {
    &&& point.index matches Some(id) && vector.id == id
    &&& vector.values@ == point.vector@
    &&& match point.payload {
        Some(pl) => vector.metadata matches Some(md) && md.fields@ == metadata_fields_of(pl@),
        None => vector.metadata is None,
    }
}

/// Translates a record into the backend's shape.  This backend addresses
/// every record by an explicit identifier, so a record without one is a
/// malformed request, rejected with a message rather than sent.
pub fn vector_from_point(point: &Point) -> (r: Result<BackendVector, VectorDatabaseError>)
    ensures
        point.index is None ==> (r matches Err(e) && e matches VectorDatabaseError::Other(m)
            && m@.len() > 0),
        point.index is Some ==> (r matches Ok(v) && is_vector_of(v, *point)),
{
    match &point.index {
        None => {
            proof {
                reveal_strlit("this backend requires a record identifier on insert");
            }
            Err(VectorDatabaseError::Other(
                "this backend requires a record identifier on insert".to_owned(),
            ))
        },
        Some(id) => {
            let metadata = match &point.payload {
                Some(pl) => Some(payload_to_metadata(pl)),
                None => None,
            };
            Ok(BackendVector { id: id.clone(), values: copy_components(&point.vector), metadata })
        },
    }
}

/// One ranked match of a backend similarity query: identifier, score (a
/// 32-bit float pattern), raw components and optional metadata.
#[derive(Clone, Debug, PartialEq, Eq)]
pub struct BackendMatch {
    pub id: String,
    pub score: u32,
    pub values: Vec<u32>,
    pub metadata: Option<BackendMetadata>,
}

/// The per-namespace statistics of one backend index: each namespace's name
/// with its current vector count.
#[derive(Clone, Debug, PartialEq, Eq)]
pub struct IndexStats {
    pub namespaces: Vec<(String, u64)>,
}

/// The description of one backend index: its name, fixed dimensionality and
/// fixed metric.
#[derive(Clone, Debug, PartialEq, Eq)]
pub struct IndexDescription {
    pub name: String,
    pub dimension: u64,
    pub metric: BackendMetric,
}

/// What describing an index produced: the index, its genuine absence, or a
/// transport failure.  The distinction matters: only genuine absence may
/// trigger a creation, and a transport failure must surface as an error.
#[derive(Clone, Debug, PartialEq, Eq)]
pub enum DescribeOutcome {
    Found(IndexDescription),
    Absent,
    Transport(BackendError),
}

} // verus!
