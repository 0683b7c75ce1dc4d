//! The adapter for a backend whose native resource model is a top-level
//! index holding named namespaces.
//!
//! Every operation of the unified contract is a translation: resolve the
//! target index from the request's placement, read or reshape what the
//! backend reported, and classify the outcome into the generic result and
//! error model.  The functions here are exactly those translations, written
//! over the plain-value mirrors of `crate::backend`; the layer that owns the
//! client handle performs the network round trips and feeds their results
//! through these functions.

use vstd::prelude::*;
use crate::backend::{
    copy_components, distance_of_metric, is_vector_of, lemma_payload_metadata_round_trip,
    metadata_to_payload, metric_of_distance, payload_of_fields, vector_from_point, BackendMatch,
    BackendMetric, BackendVector, DescribeOutcome, IndexDescription, IndexStats,
};
use crate::errors::{BackendError, VectorDatabaseError};
use crate::models::{
    effective_region, region_str_spec, string_views, Cloud, CollectionCreate, CollectionMetadata,
    CollectionsResult, Distance, Point, Region, ScrollResults, SearchRequest, SearchResult,
    StorageSize, VectorDatabaseStatus,
};

verus! {

/// The vector count of the first namespace carrying `name`, if any namespace
/// does.
pub open spec fn find_namespace(namespaces: Seq<(String, u64)>, name: Seq<char>) -> Option<u64>
    decreases namespaces.len(),
{
    if namespaces.len() == 0 {
        None
    } else if namespaces.first().0@ == name {
        Some(namespaces.first().1)
    } else {
        find_namespace(namespaces.drop_first(), name)
    }
}

/// A lookup misses exactly when no namespace carries the name: absence in
/// the sense of `find_namespace` is genuine absence.
pub proof fn lemma_find_namespace_absent(namespaces: Seq<(String, u64)>, name: Seq<char>)
    ensures
        find_namespace(namespaces, name) is None <==> (forall|i: int|
            0 <= i < namespaces.len() ==> (#[trigger] namespaces[i]).0@ != name),
    decreases namespaces.len(),
{
    if namespaces.len() > 0 {
        let rest = namespaces.drop_first();
        lemma_find_namespace_absent(rest, name);
        if find_namespace(namespaces, name) is None {
            assert forall|i: int| 0 <= i < namespaces.len() implies (#[trigger] namespaces[i]).0@
                != name by {
                if i > 0 {
                    assert(rest[i - 1] == namespaces[i]);
                }
            }
        } else {
            if namespaces.first().0@ == name {
                assert(namespaces[0].0@ == name);
            } else {
                assert(exists|j: int| 0 <= j < rest.len() && (#[trigger] rest[j]).0@ == name);
                let j = choose|j: int| 0 <= j < rest.len() && (#[trigger] rest[j]).0@ == name;
                assert(namespaces[j + 1] == rest[j]);
            }
        }
    }
}

/// Looks a namespace up by exact name match in an index's statistics.
pub fn lookup_namespace(stats: &IndexStats, name: &String) -> (r: Option<u64>)
    ensures
        r == find_namespace(stats.namespaces@, name@),
{
    let ghost all = stats.namespaces@;
    proof {
        assert(all.skip(0) =~= all);
    }
    let mut i: usize = 0;
    while i < stats.namespaces.len()
        invariant
            i <= stats.namespaces.len(),
            all == stats.namespaces@,
            find_namespace(all, name@) == find_namespace(all.skip(i as int), name@),
        decreases stats.namespaces.len() - i,
    {
        proof {
            assert(all.skip(i as int).first() == all[i as int]);
            assert(all.skip(i as int).drop_first() =~= all.skip(i + 1 as int));
        }
        if stats.namespaces[i].0 == *name {
            return Some(stats.namespaces[i].1);
        }
        i = i + 1;
    }
    proof {
        assert(all.skip(all.len() as int) =~= Seq::<(String, u64)>::empty());
    }
    None
}

/// Tests whether the request's collection exists as a namespace of the
/// resolved index.  Absence is reported as `NotFound` status with no
/// metadata — never as an error; presence carries the namespace's current
/// vector count.
pub fn check_collection_exists(request: &SearchRequest, stats: &IndexStats) -> (r:
    CollectionsResult)
    ensures
        r.collection_name == request.collection,
        find_namespace(stats.namespaces@, request.collection@) is None ==> r.status is NotFound
            && r.collection_metadata is None,
        find_namespace(stats.namespaces@, request.collection@) matches Some(count) ==> ({
            &&& r.status is Okay
            &&& r.collection_metadata matches Some(md)
            &&& md.status is Okay
            &&& md.collection_vector_count == Some(count)
            &&& md.metric is None
            &&& md.dimensions is None
        }),
{
    match lookup_namespace(stats, &request.collection) {
        None => CollectionsResult {
            status: VectorDatabaseStatus::NotFound,
            collection_name: request.collection.clone(),
            collection_metadata: None,
        },
        Some(count) => CollectionsResult {
            status: VectorDatabaseStatus::Okay,
            collection_name: request.collection.clone(),
            collection_metadata: Some(
                CollectionMetadata {
                    status: VectorDatabaseStatus::Okay,
                    collection_vector_count: Some(count),
                    metric: None,
                    dimensions: None,
                },
            ),
        },
    }
}

/// The names of an index's namespaces.
pub open spec fn namespace_names(stats: IndexStats) -> Seq<Seq<char>> {
    stats.namespaces@.map_values(|e: (String, u64)| e.0@)
}

/// The namespace names of a run of indexes, in index order.
pub open spec fn all_namespace_names(all_stats: Seq<IndexStats>) -> Seq<Seq<char>>
    decreases all_stats.len(),
{
    if all_stats.len() == 0 {
        Seq::empty()
    } else {
        all_namespace_names(all_stats.drop_last()) + namespace_names(all_stats.last())
    }
}

/// Lists the namespace names of one index, in the order its statistics
/// report them.
pub fn get_namespaces_for_index(stats: &IndexStats) -> (r: Vec<String>)
    ensures
        string_views(r@) == namespace_names(*stats),
{
    let mut out: Vec<String> = Vec::new();
    let mut i: usize = 0;
    while i < stats.namespaces.len()
        invariant
            i <= stats.namespaces.len(),
            out@.len() == i,
            forall|j: int| 0 <= j < i ==> out@[j]@ == stats.namespaces@[j].0@,
        decreases stats.namespaces.len() - i,
    {
        out.push(stats.namespaces[i].0.clone());
        i = i + 1;
    }
    proof {
        assert(string_views(out@) =~= namespace_names(*stats));
    }
    out
}

/// The names of the backend's top-level indexes, from a listing outcome.  A
/// listing that failed or reported no indexes yields the empty list rather
/// than an error, so that aggregation over indexes can proceed.
pub fn get_indexes(outcome: Result<Option<Vec<IndexDescription>>, BackendError>) -> (r: Vec<
    String,
>)
    ensures
        outcome matches Ok(Some(list)) ==> string_views(r@) == list@.map_values(
            |d: IndexDescription| d.name@,
        ),
        outcome matches Ok(None) ==> r@.len() == 0,
        outcome is Err ==> r@.len() == 0,
{
    match outcome {
        Ok(Some(list)) => {
            let mut out: Vec<String> = Vec::new();
            let mut i: usize = 0;
            while i < list.len()
                invariant
                    i <= list.len(),
                    out@.len() == i,
                    forall|j: int| 0 <= j < i ==> out@[j]@ == list@[j].name@,
                decreases list.len() - i,
            {
                out.push(list[i].name.clone());
                i = i + 1;
            }
            proof {
                assert(string_views(out@) =~= list@.map_values(|d: IndexDescription| d.name@));
            }
            out
        },
        Ok(None) => Vec::new(),
        Err(_) => Vec::new(),
    }
}

/// Aggregates the collection names across every top-level index: the
/// namespaces of each index's statistics, concatenated in index order.
pub fn get_list_of_collections(stats_per_index: &Vec<IndexStats>) -> (r: Result<
    Vec<String>,
    VectorDatabaseError,
>)
    ensures
        r matches Ok(names) && string_views(names@) == all_namespace_names(stats_per_index@),
{
    let mut acc: Vec<String> = Vec::new();
    let mut i: usize = 0;
    while i < stats_per_index.len()
        invariant
            i <= stats_per_index.len(),
            string_views(acc@) == all_namespace_names(stats_per_index@.subrange(0, i as int)),
        decreases stats_per_index.len() - i,
    {
        let mut part = get_namespaces_for_index(&stats_per_index[i]);
        let ghost acc_pre = acc@;
        let ghost part_view = part@;
        acc.append(&mut part);
        proof {
            assert(acc@ == acc_pre + part_view);
            assert(string_views(acc@) =~= string_views(acc_pre) + string_views(part_view));
            assert(stats_per_index@.subrange(0, i + 1 as int).drop_last() =~= stats_per_index@
                .subrange(0, i as int));
            assert(stats_per_index@.subrange(0, i + 1 as int).last() == stats_per_index@[
                i as int]);
        }
        i = i + 1;
    }
    proof {
        assert(stats_per_index@.subrange(0, stats_per_index@.len() as int) =~= stats_per_index@);
    }
    Ok(acc)
}


/// `described` reports a collection that satisfies `create`: same
/// dimensionality and the same canonical metric.
pub open spec fn compatible_with(create: CollectionCreate, d: IndexDescription) -> bool {
    &&& d.dimension == create.size
    &&& distance_of_metric(d.metric) == create.distance
}

/// What a creation request resolves to, given what describing the target
/// index produced.
#[derive(Clone, Copy, Debug, PartialEq, Eq, Structural)]
pub enum CreateAction {
    ReportExisting,
    RejectIncompatible,
    RejectInvalid,
    CreateNew,
    FailTransport,
}

/// The creation policy: an existing compatible collection is reported as
/// success without a backend call; an existing incompatible one is
/// rejected; a genuine absence leads to a backend creation, provided the
/// metric has a backend equivalent and the mandatory placement fields are
/// present; a transport failure surfaces as an error.
pub open spec fn create_collection_action(
    create: CollectionCreate,
    region: Option<Region>,
    cloud: Option<Cloud>,
    described: DescribeOutcome,
) -> CreateAction {
    match described {
        DescribeOutcome::Found(d) => if compatible_with(create, d) {
            CreateAction::ReportExisting
        } else {
            CreateAction::RejectIncompatible
        },
        DescribeOutcome::Absent => if metric_of_distance(create.distance) is None {
            CreateAction::RejectInvalid
        } else if region is None || cloud is None {
            CreateAction::RejectInvalid
        } else {
            CreateAction::CreateNew
        },
        DescribeOutcome::Transport(_) => CreateAction::FailTransport,
    }
}

/// Creating a collection is idempotent: when the backend already holds a
/// compatible collection — as it does right after a first successful
/// creation with the same parameters — the planned action is
/// `ReportExisting`, a success that issues no backend creation call.  Two
/// identical, backend-compatible creations therefore succeed twice while
/// creating at most once.
pub proof fn lemma_create_collection_idempotent(
    create: CollectionCreate,
    region: Option<Region>,
    cloud: Option<Cloud>,
    d: IndexDescription,
)
    requires
        compatible_with(create, d),
    ensures
        create_collection_action(create, region, cloud, DescribeOutcome::Found(d))
            == CreateAction::ReportExisting,
{
}

/// A message naming the collection an operation could not find.
fn not_found_message(collection_name: &String) -> (r: String)
    ensures
        r@.len() > 0,
{
    let mut m = "Index: ".to_owned();
    m.append(collection_name.as_str());
    m.append(" was not found");
    proof {
        reveal_strlit("Index: ");
    }
    m
}

/// Checks whether an index satisfying `create` exists.  A compatible index
/// is handed back; an incompatible or absent one is reported as not found;
/// a transport failure is surfaced as a backend error.
pub fn check_index_exists(create: &CollectionCreate, described: DescribeOutcome) -> (r: Result<
    IndexDescription,
    VectorDatabaseError,
>)
    ensures
        described matches DescribeOutcome::Found(d) ==> (compatible_with(*create, d) ==> r
            == Ok::<IndexDescription, VectorDatabaseError>(d)),
        described matches DescribeOutcome::Found(d) ==> (!compatible_with(*create, d) ==> (
        r matches Err(e) && e matches VectorDatabaseError::NotFound(m) && m@.len() > 0)),
        described is Absent ==> (r matches Err(e) && e matches VectorDatabaseError::NotFound(m)
            && m@.len() > 0),
        described matches DescribeOutcome::Transport(b) ==> r == Err::<
            IndexDescription,
            VectorDatabaseError,
        >(VectorDatabaseError::Backend(b)),
{
    match described {
        DescribeOutcome::Found(d) => {
            let dist = Distance::from_metric(d.metric);
            if d.dimension == create.size && dist == create.distance {
                Ok(d)
            } else {
                Err(VectorDatabaseError::NotFound(not_found_message(&create.collection_name)))
            }
        },
        DescribeOutcome::Absent => Err(VectorDatabaseError::NotFound(
            not_found_message(&create.collection_name),
        )),
        DescribeOutcome::Transport(b) => Err(VectorDatabaseError::Backend(b)),
    }
}

/// Everything the backend needs to create one serverless index.  Creation
/// is always issued with deletion protection disabled and without waiting
/// for provisioning to finish.
#[derive(Clone, Debug, PartialEq, Eq)]
pub struct CreateIndexSpec {
    pub name: String,
    pub dimension: u64,
    pub metric: BackendMetric,
    pub cloud: Cloud,
    pub region: String,
    pub protect_from_deletion: bool,
    pub wait_for_completion: bool,
}

/// The resolved plan of one creation request: report the existing
/// collection as success, or issue one backend creation.
#[derive(Clone, Debug, PartialEq, Eq)]
pub enum CreateCollectionPlan {
    AlreadyExists,
    IssueCreate(CreateIndexSpec),
}

/// Resolves a creation request against what describing the target index
/// produced, following `create_collection_action`: only a genuine absence
/// yields a backend creation, and a request whose metric has no backend
/// equivalent, or whose mandatory placement fields are missing, fails fast
/// without reaching the backend.
pub fn plan_create_collection(
    create: &CollectionCreate,
    region: Option<Region>,
    cloud: Option<Cloud>,
    described: DescribeOutcome,
) -> (r: Result<CreateCollectionPlan, VectorDatabaseError>)
    ensures
        (r matches Ok(p) && p is AlreadyExists) <==> create_collection_action(
            *create,
            region,
            cloud,
            described,
        ) == CreateAction::ReportExisting,
        create_collection_action(*create, region, cloud, described)
            == CreateAction::RejectIncompatible ==> (r matches Err(e) && e matches
            VectorDatabaseError::NotFound(m) && m@.len() > 0),
        create_collection_action(*create, region, cloud, described) == CreateAction::RejectInvalid
            ==> (r matches Err(e) && e matches VectorDatabaseError::Other(m) && m@.len() > 0),
        create_collection_action(*create, region, cloud, described) == CreateAction::FailTransport
            ==> (described matches DescribeOutcome::Transport(b) && r == Err::<
                CreateCollectionPlan,
                VectorDatabaseError,
            >(VectorDatabaseError::Backend(b))),
        create_collection_action(*create, region, cloud, described) == CreateAction::CreateNew
            ==> ({
            &&& region matches Some(rg)
            &&& cloud matches Some(cl)
            &&& metric_of_distance(create.distance) matches Some(m)
            &&& r matches Ok(p)
            &&& p matches CreateCollectionPlan::IssueCreate(c)
            &&& c.name@ == region_str_spec(rg)
            &&& c.dimension == create.size
            &&& c.metric == m
            &&& c.cloud == cl
            &&& c.region@ == region_str_spec(rg)
            &&& !c.protect_from_deletion
            &&& !c.wait_for_completion
        }),
{
    match described {
        DescribeOutcome::Found(d) => {
            let dist = Distance::from_metric(d.metric);
            if d.dimension == create.size && dist == create.distance {
                Ok(CreateCollectionPlan::AlreadyExists)
            } else {
                Err(VectorDatabaseError::NotFound(not_found_message(&create.collection_name)))
            }
        },
        DescribeOutcome::Absent => {
            match Distance::to_metric(create.distance) {
                None => {
                    proof {
                        reveal_strlit("the requested metric has no backend equivalent");
                    }
                    Err(VectorDatabaseError::Other(
                        "the requested metric has no backend equivalent".to_owned(),
                    ))
                },
                Some(metric) => {
                    match (region, cloud) {
                        (Some(rg), Some(cl)) => {
                            let locator = Region::to_str(rg);
                            Ok(CreateCollectionPlan::IssueCreate(
                                CreateIndexSpec {
                                    name: locator.to_owned(),
                                    dimension: create.size,
                                    metric,
                                    cloud: cl,
                                    region: locator.to_owned(),
                                    protect_from_deletion: false,
                                    wait_for_completion: false,
                                },
                            ))
                        },
                        _ => {
                            proof {
                                reveal_strlit(
                                    "creation requires an explicit region and cloud placement",
                                );
                            }
                            Err(VectorDatabaseError::Other(
                                "creation requires an explicit region and cloud placement"
                                    .to_owned(),
                            ))
                        },
                    }
                },
            }
        },
        DescribeOutcome::Transport(b) => Err(VectorDatabaseError::Backend(b)),
    }
}

/// Classifies the outcome of an issued backend creation: completion is
/// success, and a backend failure surfaces as a wrapped error.
pub fn complete_create_collection(outcome: Result<(), BackendError>) -> (r: Result<
    VectorDatabaseStatus,
    VectorDatabaseError,
>)
    ensures
        outcome is Ok ==> (r matches Ok(s) && s is Okay),
        outcome matches Err(e) ==> r == Err::<VectorDatabaseStatus, VectorDatabaseError>(
            VectorDatabaseError::Backend(e),
        ),
{
    match outcome {
        Ok(_) => Ok(VectorDatabaseStatus::Okay),
        Err(e) => Err(VectorDatabaseError::Backend(e)),
    }
}

/// Classifies the outcome of deleting a collection's contents.  A backend
/// failure is kept inline as an `Error` status — never propagated — so a
/// caller deleting collections in bulk can continue its batch.
pub fn delete_collection_status(outcome: Result<(), BackendError>) -> (r: VectorDatabaseStatus)
    ensures
        outcome is Ok ==> r is Okay,
        outcome matches Err(e) ==> r == VectorDatabaseStatus::Error(
            VectorDatabaseError::Backend(e),
        ),
{
    match outcome {
        Ok(_) => VectorDatabaseStatus::Okay,
        Err(e) => VectorDatabaseStatus::Error(VectorDatabaseError::Backend(e)),
    }
}

/// The region a request effectively targets, with the fixed `US` fallback.
pub fn resolve_region(region: Option<Region>) -> (r: Region)
    ensures
        r == effective_region(region),
{
    match region {
        Some(rg) => rg,
        None => Region::US,
    }
}

/// One prepared upsert: the index to resolve, the namespace to write into,
/// and the records in backend shape, in submission order.
#[derive(Clone, Debug, PartialEq, Eq)]
pub struct UpsertPlan {
    pub index_name: String,
    pub namespace: String,
    pub vectors: Vec<BackendVector>,
}

/// Prepares the insertion of one record: resolves the target index from
/// the request's placement and translates the record.  A record without an
/// identifier is a malformed request and is rejected.
pub fn plan_insert_point(request: &SearchRequest, point: &Point) -> (r: Result<
    UpsertPlan,
    VectorDatabaseError,
>)
    ensures
        point.index is None ==> (r matches Err(e) && e matches VectorDatabaseError::Other(m)
            && m@.len() > 0),
        point.index is Some ==> ({
            &&& r matches Ok(p)
            &&& p.index_name@ == region_str_spec(effective_region(request.region))
            &&& p.namespace == request.collection
            &&& p.vectors@.len() == 1
            &&& is_vector_of(p.vectors@[0], *point)
        }),
{
    match vector_from_point(point) {
        Err(e) => Err(e),
        Ok(v) => {
            let mut vectors: Vec<BackendVector> = Vec::new();
            vectors.push(v);
            Ok(UpsertPlan {
                index_name: Region::to_str(resolve_region(request.region)).to_owned(),
                namespace: request.collection.clone(),
                vectors,
            })
        },
    }
}

/// Prepares the insertion of a whole batch, preserving record order.  The
/// batch is rejected when any record lacks an identifier; nothing is sent
/// in that case.
pub fn bulk_insert_points_plan(request: &SearchRequest, points: &Vec<Point>) -> (r: Result<
    UpsertPlan,
    VectorDatabaseError,
>)
    ensures
        (forall|j: int| 0 <= j < points@.len() ==> (#[trigger] points@[j]).index is Some) ==> ({
            &&& r matches Ok(p)
            &&& p.index_name@ == region_str_spec(effective_region(request.region))
            &&& p.namespace == request.collection
            &&& p.vectors@.len() == points@.len()
            &&& forall|j: int| 0 <= j < points@.len() ==> is_vector_of(
                #[trigger] p.vectors@[j],
                points@[j],
            )
        }),
        (exists|j: int| 0 <= j < points@.len() && (#[trigger] points@[j]).index is None) ==> (
        r matches Err(e) && e matches VectorDatabaseError::Other(m) && m@.len() > 0),
{
    let mut vectors: Vec<BackendVector> = Vec::new();
    let mut i: usize = 0;
    while i < points.len()
        invariant
            i <= points.len(),
            vectors@.len() == i,
            forall|j: int| 0 <= j < i ==> (#[trigger] points@[j]).index is Some,
            forall|j: int| 0 <= j < i ==> is_vector_of(#[trigger] vectors@[j], points@[j]),
        decreases points.len() - i,
    {
        match vector_from_point(&points[i]) {
            Ok(v) => {
                vectors.push(v);
            },
            Err(e) => {
                proof {
                    assert(0 <= i < points@.len() && points@[i as int].index is None);
                }
                return Err(e);
            },
        }
        i = i + 1;
    }
    Ok(UpsertPlan {
        index_name: Region::to_str(resolve_region(request.region)).to_owned(),
        namespace: request.collection.clone(),
        vectors,
    })
}

/// Classifies the backend's answer to a single-record upsert.  Success is
/// owed exactly when the backend accepted exactly one record; any other
/// accepted count is a `Failure` status, and a transport failure is a
/// typed error — never a status.
pub fn insert_outcome(outcome: Result<u32, BackendError>) -> (r: Result<
    VectorDatabaseStatus,
    VectorDatabaseError,
>)
    ensures
        outcome matches Ok(count) ==> ({
            &&& r matches Ok(s)
            &&& (s is Okay <==> count == 1)
            &&& (s is Failure <==> count != 1)
        }),
        outcome matches Err(e) ==> r == Err::<VectorDatabaseStatus, VectorDatabaseError>(
            VectorDatabaseError::Backend(e),
        ),
{
    match outcome {
        Ok(count) => {
            if count == 1 {
                Ok(VectorDatabaseStatus::Okay)
            } else {
                Ok(VectorDatabaseStatus::Failure)
            }
        },
        Err(e) => Err(VectorDatabaseError::Backend(e)),
    }
}

/// Classifies the backend's answer to a batch upsert against the whole
/// batch: success is owed exactly when the accepted count equals the
/// submitted count; a partial accept is a `Failure` status — a silent
/// partial accept is never reported as success — and a transport failure
/// is a typed error.
pub fn bulk_insert_outcome(submitted: usize, outcome: Result<u32, BackendError>) -> (r: Result<
    VectorDatabaseStatus,
    VectorDatabaseError,
>)
    ensures
        outcome matches Ok(count) ==> ({
            &&& r matches Ok(s)
            &&& (s is Okay <==> count == submitted)
            &&& (s is Failure <==> count != submitted)
        }),
        outcome matches Err(e) ==> r == Err::<VectorDatabaseStatus, VectorDatabaseError>(
            VectorDatabaseError::Backend(e),
        ),
{
    match outcome {
        Ok(count) => {
            if count as usize == submitted {
                Ok(VectorDatabaseStatus::Okay)
            } else {
                Ok(VectorDatabaseStatus::Failure)
            }
        },
        Err(e) => Err(VectorDatabaseError::Backend(e)),
    }
}

/// Assembles the metadata of one collection from the resolved index's
/// description and statistics: the namespace's count when it exists, and
/// the index's fixed metric and dimensionality.
pub fn get_collection_info(
    request: &SearchRequest,
    description: &IndexDescription,
    stats: &IndexStats,
) -> (r: Result<Option<CollectionMetadata>, VectorDatabaseError>)
    ensures
        ({
            &&& r matches Ok(info)
            &&& info matches Some(md)
            &&& md.status is Okay
            &&& md.collection_vector_count == find_namespace(
                stats.namespaces@,
                request.collection@,
            )
            &&& md.metric == Some(distance_of_metric(description.metric))
            &&& md.dimensions == Some(description.dimension)
        }),
{
    let vector_count = lookup_namespace(stats, &request.collection);
    Ok(Some(
        CollectionMetadata {
            status: VectorDatabaseStatus::Okay,
            collection_vector_count: vector_count,
            metric: Some(Distance::from_metric(description.metric)),
            dimensions: Some(description.dimension),
        },
    ))
}

/// The byte footprint of `vector_count` vectors of `vector_length`
/// components, at the fixed width of four bytes per component.
pub fn calculate_vector_storage_size(vector_count: u64, vector_length: usize) -> (r: u64)
    requires
        (vector_count as int) * (vector_length as int) * 4 <= u64::MAX,
    ensures
        r == (vector_count as int) * (vector_length as int) * 4,
{
    vector_count * (vector_length as u64) * 4
}

/// Derives the storage estimate of one collection from its metadata: the
/// current vector count times the vector length times four bytes per
/// component.  Without metadata, or without a count, there is nothing to
/// estimate.
pub fn get_storage_size(
    info: Option<CollectionMetadata>,
    collection_name: String,
    vector_length: usize,
) -> (r: Option<StorageSize>)
    requires
        info matches Some(md) ==> (md.collection_vector_count matches Some(c) ==> (c as int) * (
        vector_length as int) * 4 <= u64::MAX),
    ensures
        info is None ==> r is None,
        info matches Some(md) ==> match md.collection_vector_count {
            None => r is None,
            Some(c) => ({
                &&& r matches Some(s)
                &&& s.status is Okay
                &&& s.collection_name == collection_name
                &&& s.size == Some(((c as int) * (vector_length as int) * 4) as u64)
                &&& s.points_count is None
            }),
        },
{
    match info {
        None => None,
        Some(md) => match md.collection_vector_count {
            None => None,
            Some(count) => Some(
                StorageSize {
                    status: VectorDatabaseStatus::Okay,
                    collection_name,
                    size: Some(calculate_vector_storage_size(count, vector_length)),
                    points_count: None,
                },
            ),
        },
    }
}

/// Paginated point retrieval is not supported by this adapter; the
/// unsupported capability is a deliberate terminal state, surfaced as a
/// typed error rather than a crash.
pub fn scroll_points(_request: &SearchRequest) -> (r: Result<
    Vec<ScrollResults>,
    VectorDatabaseError,
>)
    ensures
        r matches Err(e) && e matches VectorDatabaseError::Unimplemented(m) && m@.len() > 0,
{
    proof {
        reveal_strlit("point scrolling is not supported by this adapter");
    }
    Err(VectorDatabaseError::Unimplemented(
        "point scrolling is not supported by this adapter".to_owned(),
    ))
}

/// One prepared similarity query in the backend's shape: the query vector,
/// the namespace, the result-count bound, and the response-shaping flags
/// this adapter always uses (no raw values, metadata included).
#[derive(Clone, Debug, PartialEq, Eq)]
pub struct SimilarityQuery {
    pub vector: Vec<u32>,
    pub namespace: String,
    pub top_k: u32,
    pub include_values: bool,
    pub include_metadata: bool,
}

/// Prepares a similarity search.  A request without a query vector,
/// without response parameters, or without a result-count bound is a
/// caller error, rejected with a message — never a panic and never an
/// empty success.
pub fn plan_similarity_search(request: &SearchRequest) -> (r: Result<
    SimilarityQuery,
    VectorDatabaseError,
>)
    ensures
        request.vector is None ==> (r matches Err(e) && e matches VectorDatabaseError::Other(m)
            && m@.len() > 0),
        request.vector is Some && request.search_response_params is None ==> (r matches Err(e)
            && e matches VectorDatabaseError::Other(m) && m@.len() > 0),
        request.vector is Some && (request.search_response_params matches Some(p) && p.limit
            is None) ==> (r matches Err(e) && e matches VectorDatabaseError::Other(m) && m@.len()
            > 0),
        request.vector matches Some(v) ==> (request.search_response_params matches Some(p) ==> (
        p.limit matches Some(k) ==> ({
            &&& r matches Ok(q)
            &&& q.vector@ == v@
            &&& q.namespace == request.collection
            &&& q.top_k == k
            &&& !q.include_values
            &&& q.include_metadata
        }))),
{
    match &request.vector {
        None => {
            proof {
                reveal_strlit("a similarity search requires a query vector");
            }
            Err(VectorDatabaseError::Other(
                "a similarity search requires a query vector".to_owned(),
            ))
        },
        Some(v) => {
            match &request.search_response_params {
                None => {
                    proof {
                        reveal_strlit("a similarity search requires response parameters");
                    }
                    Err(VectorDatabaseError::Other(
                        "a similarity search requires response parameters".to_owned(),
                    ))
                },
                Some(params) => {
                    match params.limit {
                        None => {
                            proof {
                                reveal_strlit(
                                    "a similarity search requires a result-count bound",
                                );
                            }
                            Err(VectorDatabaseError::Other(
                                "a similarity search requires a result-count bound".to_owned(),
                            ))
                        },
                        Some(top_k) => Ok(
                            SimilarityQuery {
                                vector: copy_components(v),
                                namespace: request.collection.clone(),
                                top_k,
                                include_values: false,
                                include_metadata: true,
                            },
                        ),
                    }
                },
            }
        },
    }
}

/// `result` is the faithful translation of one backend match: the
/// backend's score, the payload recovered from the match's metadata when
/// it carries any, and the raw components.
pub open spec fn is_result_of(result: SearchResult, m: BackendMatch) -> bool {
    &&& result.score == Some(m.score)
    &&& match m.metadata {
        Some(md) => result.payload matches Some(pl) && pl@ == payload_of_fields(md.fields@),
        None => result.payload is None,
    }
    &&& result.vector matches Some(vv) && vv@ == m.values@
}

/// Translates the backend's ranked matches one for one, preserving the
/// backend-assigned order verbatim — no re-sorting.
pub fn search_results_from_matches(matches: &Vec<BackendMatch>) -> (r: Vec<SearchResult>)
    ensures
        r@.len() == matches@.len(),
        forall|j: int| 0 <= j < matches@.len() ==> is_result_of(#[trigger] r@[j], matches@[j]),
{
    let mut out: Vec<SearchResult> = Vec::new();
    let mut i: usize = 0;
    while i < matches.len()
        invariant
            i <= matches.len(),
            out@.len() == i,
            forall|j: int| 0 <= j < i ==> is_result_of(#[trigger] out@[j], matches@[j]),
        decreases matches.len() - i,
    {
        let payload = match &matches[i].metadata {
            Some(md) => Some(metadata_to_payload(md)),
            None => None,
        };
        out.push(SearchResult {
            score: Some(matches[i].score),
            payload,
            vector: Some(copy_components(&matches[i].values)),
        });
        i = i + 1;
    }
    out
}

/// Classifies the outcome of an issued similarity query: the backend's
/// matches are translated in rank order, and a transport failure surfaces
/// as a wrapped backend error.
pub fn similarity_search_outcome(outcome: Result<Vec<BackendMatch>, BackendError>) -> (r: Result<
    Vec<SearchResult>,
    VectorDatabaseError,
>)
    ensures
        outcome matches Ok(ms) ==> ({
            &&& r matches Ok(rs)
            &&& rs@.len() == ms@.len()
            &&& forall|j: int| 0 <= j < ms@.len() ==> is_result_of(#[trigger] rs@[j], ms@[j])
        }),
        outcome matches Err(e) ==> r == Err::<Vec<SearchResult>, VectorDatabaseError>(
            VectorDatabaseError::Backend(e),
        ),
{
    match outcome {
        Ok(ms) => Ok(search_results_from_matches(&ms)),
        Err(e) => Err(VectorDatabaseError::Backend(e)),
    }
}


/// A record's payload survives insertion and retrieval unchanged: when a
/// record with a payload is prepared for insert, stored by the backend with
/// that metadata, and handed back as a match from which a search result is
/// built, the result's payload equals the record's payload, field for
/// field.
pub proof fn lemma_search_payload_round_trip(
    point: Point,
    vector: BackendVector,
    m: BackendMatch,
    result: SearchResult,
)
    requires
        point.payload is Some,
        is_vector_of(vector, point),
        m.metadata == vector.metadata,
        is_result_of(result, m),
    ensures
        result.payload matches Some(recovered) && recovered@ == point.payload->0@,
{
    let pl = point.payload->0;
    lemma_payload_metadata_round_trip(pl@);
}


} // verus!
