use vector_db_proxy::backend::{
    BackendMatch, BackendMetric, BackendVector, DescribeOutcome, IndexDescription, IndexStats,
};
use vector_db_proxy::errors::{BackendError, VectorDatabaseError};
use vector_db_proxy::models::{
    Cloud, CollectionCreate, CollectionMetadata, Distance, Point, Region, SearchRequest,
    SearchResponseParams, SearchType, VectorDatabaseStatus,
};
use vector_db_proxy::pinecone::{
    bulk_insert_outcome, bulk_insert_points_plan, calculate_vector_storage_size,
    check_collection_exists, check_index_exists, complete_create_collection,
    delete_collection_status, get_collection_info, get_indexes, get_list_of_collections,
    get_namespaces_for_index, get_storage_size, insert_outcome, lookup_namespace,
    plan_create_collection, plan_insert_point, plan_similarity_search, scroll_points,
    search_results_from_matches, similarity_search_outcome, CreateCollectionPlan,
};

fn request_for(collection: &str) -> SearchRequest {
    SearchRequest::new(SearchType::Collection, collection.to_string())
}

fn stats_with(namespaces: &[(&str, u64)]) -> IndexStats {
    IndexStats {
        namespaces: namespaces.iter().map(|(n, c)| (n.to_string(), *c)).collect(),
    }
}

fn basic_create(name: &str, size: u64, distance: Distance) -> CollectionCreate {
    CollectionCreate {
        collection_name: name.to_string(),
        size,
        namespace: None,
        distance,
        vector_name: None,
    }
}

#[test]
fn insert_ok_iff_exactly_one_accepted() {
    assert_eq!(insert_outcome(Ok(1)), Ok(VectorDatabaseStatus::Okay));
    assert_eq!(insert_outcome(Ok(0)), Ok(VectorDatabaseStatus::Failure));
    assert_eq!(insert_outcome(Ok(2)), Ok(VectorDatabaseStatus::Failure));
}

#[test]
fn insert_transport_failure_is_typed_error() {
    let e = BackendError::new("connection reset".to_string());
    let r = insert_outcome(Err(e.clone()));
    assert_eq!(r, Err(VectorDatabaseError::Backend(e)));
}

#[test]
fn bulk_insert_partial_accept_is_failure() {
    // Three submitted, two accepted: Failure, never Ok.
    assert_eq!(bulk_insert_outcome(3, Ok(2)), Ok(VectorDatabaseStatus::Failure));
    assert_eq!(bulk_insert_outcome(3, Ok(3)), Ok(VectorDatabaseStatus::Okay));
    assert_eq!(bulk_insert_outcome(0, Ok(0)), Ok(VectorDatabaseStatus::Okay));
}

#[test]
fn check_collection_exists_absent_is_not_found_not_error() {
    let stats = stats_with(&[("other", 5)]);
    let r = check_collection_exists(&request_for("missing"), &stats);
    assert_eq!(r.status, VectorDatabaseStatus::NotFound);
    assert_eq!(r.collection_name, "missing");
    assert!(r.collection_metadata.is_none());
}

#[test]
fn check_collection_exists_present_carries_count() {
    let stats = stats_with(&[("alpha", 7), ("beta", 9)]);
    let r = check_collection_exists(&request_for("beta"), &stats);
    assert_eq!(r.status, VectorDatabaseStatus::Okay);
    let md = r.collection_metadata.expect("metadata");
    assert_eq!(md.collection_vector_count, Some(9));
    assert_eq!(md.status, VectorDatabaseStatus::Okay);
    assert!(md.metric.is_none());
    assert!(md.dimensions.is_none());
}

#[test]
fn lookup_namespace_first_match_wins() {
    let stats = stats_with(&[("a", 1), ("a", 2)]);
    assert_eq!(lookup_namespace(&stats, &"a".to_string()), Some(1));
    assert_eq!(lookup_namespace(&stats, &"b".to_string()), None);
}

#[test]
fn create_collection_idempotent_compatible_twice() {
    let create = basic_create("docs", 128, Distance::Cosine);
    let existing = IndexDescription {
        name: "us-east-1".to_string(),
        dimension: 128,
        metric: BackendMetric::Cosine,
    };
    // First and second call see the same compatible collection: success both
    // times, and neither plans a backend creation.
    for _ in 0..2 {
        let r = plan_create_collection(
            &create,
            Some(Region::US),
            Some(Cloud::GCP),
            DescribeOutcome::Found(existing.clone()),
        );
        assert_eq!(r, Ok(CreateCollectionPlan::AlreadyExists));
    }
}

#[test]
fn create_collection_mismatch_is_not_found_error() {
    let create = basic_create("docs", 128, Distance::Cosine);
    let existing = IndexDescription {
        name: "us-east-1".to_string(),
        dimension: 256,
        metric: BackendMetric::Cosine,
    };
    let r = plan_create_collection(
        &create,
        Some(Region::US),
        Some(Cloud::GCP),
        DescribeOutcome::Found(existing),
    );
    match r {
        Err(VectorDatabaseError::NotFound(m)) => assert!(!m.is_empty()),
        other => panic!("expected NotFound, got {:?}", other),
    }
}

#[test]
fn create_collection_absent_plans_one_creation() {
    let create = basic_create("docs", 64, Distance::Dot);
    let r = plan_create_collection(
        &create,
        Some(Region::EU),
        Some(Cloud::AWS),
        DescribeOutcome::Absent,
    );
    match r {
        Ok(CreateCollectionPlan::IssueCreate(c)) => {
            assert_eq!(c.name, "eu-west-1");
            assert_eq!(c.region, "eu-west-1");
            assert_eq!(c.dimension, 64);
            assert_eq!(c.metric, BackendMetric::Dotproduct);
            assert_eq!(c.cloud, Cloud::AWS);
            assert!(!c.protect_from_deletion);
            assert!(!c.wait_for_completion);
        }
        other => panic!("expected IssueCreate, got {:?}", other),
    }
}

#[test]
fn create_collection_unmappable_metric_fails_fast() {
    let create = basic_create("docs", 64, Distance::Manhattan);
    let r = plan_create_collection(
        &create,
        Some(Region::US),
        Some(Cloud::GCP),
        DescribeOutcome::Absent,
    );
    match r {
        Err(VectorDatabaseError::Other(m)) => assert!(!m.is_empty()),
        other => panic!("expected Other, got {:?}", other),
    }
}

#[test]
fn create_collection_missing_placement_fails_fast() {
    let create = basic_create("docs", 64, Distance::Cosine);
    let r = plan_create_collection(&create, Some(Region::US), None, DescribeOutcome::Absent);
    match r {
        Err(VectorDatabaseError::Other(m)) => assert!(!m.is_empty()),
        other => panic!("expected Other, got {:?}", other),
    }
}

#[test]
fn create_collection_transport_failure_is_backend_error() {
    let create = basic_create("docs", 64, Distance::Cosine);
    let fault = BackendError::new("dns failure".to_string());
    let r = plan_create_collection(
        &create,
        Some(Region::US),
        Some(Cloud::GCP),
        DescribeOutcome::Transport(fault.clone()),
    );
    assert_eq!(r, Err(VectorDatabaseError::Backend(fault)));
}

#[test]
fn check_index_exists_classifies_outcomes() {
    let create = basic_create("docs", 32, Distance::Euclid);
    let good = IndexDescription {
        name: "us-east-1".to_string(),
        dimension: 32,
        metric: BackendMetric::Euclidean,
    };
    assert_eq!(
        check_index_exists(&create, DescribeOutcome::Found(good.clone())),
        Ok(good)
    );
    match check_index_exists(&create, DescribeOutcome::Absent) {
        Err(VectorDatabaseError::NotFound(m)) => assert!(m.contains("docs")),
        other => panic!("expected NotFound, got {:?}", other),
    }
}

#[test]
fn complete_create_collection_maps_outcomes() {
    assert_eq!(complete_create_collection(Ok(())), Ok(VectorDatabaseStatus::Okay));
    let fault = BackendError::new("quota exceeded".to_string());
    assert_eq!(
        complete_create_collection(Err(fault.clone())),
        Err(VectorDatabaseError::Backend(fault))
    );
}

#[test]
fn delete_collection_failure_stays_inline_as_status() {
    assert_eq!(delete_collection_status(Ok(())), VectorDatabaseStatus::Okay);
    let fault = BackendError::new("timeout".to_string());
    assert_eq!(
        delete_collection_status(Err(fault.clone())),
        VectorDatabaseStatus::Error(VectorDatabaseError::Backend(fault))
    );
}

#[test]
fn plan_insert_point_resolves_default_region() {
    let mut request = request_for("docs");
    request.region = None;
    let point = Point::new(Some("id-1".to_string()), vec![1, 2, 3], None);
    let plan = plan_insert_point(&request, &point).expect("plan");
    assert_eq!(plan.index_name, "us-east-1");
    assert_eq!(plan.namespace, "docs");
    assert_eq!(plan.vectors.len(), 1);
    assert_eq!(plan.vectors[0].id, "id-1");
    assert_eq!(plan.vectors[0].values, vec![1, 2, 3]);
    assert!(plan.vectors[0].metadata.is_none());
}

#[test]
fn plan_insert_point_without_identifier_is_rejected() {
    let request = request_for("docs");
    let point = Point::new(None, vec![1], None);
    match plan_insert_point(&request, &point) {
        Err(VectorDatabaseError::Other(m)) => assert!(!m.is_empty()),
        other => panic!("expected Other, got {:?}", other),
    }
}

#[test]
fn bulk_insert_plan_preserves_order() {
    let request = request_for("docs");
    let points = vec![
        Point::new(Some("a".to_string()), vec![1], None),
        Point::new(Some("b".to_string()), vec![2], None),
        Point::new(Some("c".to_string()), vec![3], None),
    ];
    let plan = bulk_insert_points_plan(&request, &points).expect("plan");
    assert_eq!(plan.vectors.len(), 3);
    assert_eq!(plan.vectors[0].id, "a");
    assert_eq!(plan.vectors[1].id, "b");
    assert_eq!(plan.vectors[2].id, "c");
}

#[test]
fn bulk_insert_plan_rejects_batch_with_missing_identifier() {
    let request = request_for("docs");
    let points = vec![
        Point::new(Some("a".to_string()), vec![1], None),
        Point::new(None, vec![2], None),
    ];
    match bulk_insert_points_plan(&request, &points) {
        Err(VectorDatabaseError::Other(m)) => assert!(!m.is_empty()),
        other => panic!("expected Other, got {:?}", other),
    }
}

#[test]
fn collection_info_reports_index_shape() {
    let request = request_for("docs");
    let description = IndexDescription {
        name: "us-east-1".to_string(),
        dimension: 128,
        metric: BackendMetric::Cosine,
    };
    let stats = stats_with(&[("docs", 42)]);
    let info = get_collection_info(&request, &description, &stats)
        .expect("ok")
        .expect("metadata");
    assert_eq!(info.status, VectorDatabaseStatus::Okay);
    assert_eq!(info.collection_vector_count, Some(42));
    assert_eq!(info.metric, Some(Distance::Cosine));
    assert_eq!(info.dimensions, Some(128));
}

#[test]
fn storage_size_zero_vectors_is_zero_bytes() {
    let md = CollectionMetadata {
        status: VectorDatabaseStatus::Okay,
        collection_vector_count: Some(0),
        metric: None,
        dimensions: None,
    };
    let s = get_storage_size(Some(md), "docs".to_string(), 128).expect("size");
    assert_eq!(s.size, Some(0));
}

#[test]
fn storage_size_formula_exact() {
    // 1,000 vectors of dimensionality 128, four bytes per component.
    let md = CollectionMetadata {
        status: VectorDatabaseStatus::Okay,
        collection_vector_count: Some(1000),
        metric: None,
        dimensions: Some(128),
    };
    let s = get_storage_size(Some(md), "docs".to_string(), 128).expect("size");
    assert_eq!(s.size, Some(1000 * 128 * 4));
    assert_eq!(s.collection_name, "docs");
    assert_eq!(s.status, VectorDatabaseStatus::Okay);
    assert!(s.points_count.is_none());
    assert_eq!(calculate_vector_storage_size(1000, 128), 512000);
}

#[test]
fn storage_size_without_count_is_none() {
    let md = CollectionMetadata {
        status: VectorDatabaseStatus::Okay,
        collection_vector_count: None,
        metric: None,
        dimensions: None,
    };
    assert!(get_storage_size(Some(md), "docs".to_string(), 8).is_none());
    assert!(get_storage_size(None, "docs".to_string(), 8).is_none());
}

#[test]
fn scroll_points_is_unimplemented_error() {
    match scroll_points(&request_for("docs")) {
        Err(VectorDatabaseError::Unimplemented(m)) => assert!(!m.is_empty()),
        other => panic!("expected Unimplemented, got {:?}", other),
    }
}

#[test]
fn similarity_search_without_vector_is_other_error() {
    let mut request = request_for("docs");
    request.search_response_params = Some(SearchResponseParams {
        include_vectors: None,
        include_payload: None,
        get_all_pages: None,
        limit: Some(10),
    });
    match plan_similarity_search(&request) {
        Err(VectorDatabaseError::Other(m)) => assert!(!m.is_empty()),
        other => panic!("expected Other, got {:?}", other),
    }
}

#[test]
fn similarity_search_without_params_is_other_error() {
    let mut request = request_for("docs");
    request.vector = Some(vec![1, 2]);
    match plan_similarity_search(&request) {
        Err(VectorDatabaseError::Other(m)) => assert!(!m.is_empty()),
        other => panic!("expected Other, got {:?}", other),
    }
}

#[test]
fn similarity_search_plan_carries_query() {
    let mut request = request_for("docs");
    request.vector = Some(vec![7, 8, 9]);
    request.search_response_params = Some(SearchResponseParams {
        include_vectors: Some(true),
        include_payload: Some(true),
        get_all_pages: None,
        limit: Some(5),
    });
    let q = plan_similarity_search(&request).expect("plan");
    assert_eq!(q.vector, vec![7, 8, 9]);
    assert_eq!(q.namespace, "docs");
    assert_eq!(q.top_k, 5);
    assert!(!q.include_values);
    assert!(q.include_metadata);
}

#[test]
fn search_results_preserve_backend_order() {
    let matches = vec![
        BackendMatch {
            id: "second-best".to_string(),
            score: 77,
            values: vec![4, 5],
            metadata: None,
        },
        BackendMatch {
            id: "best".to_string(),
            score: 99,
            values: vec![6],
            metadata: None,
        },
    ];
    let results = search_results_from_matches(&matches);
    assert_eq!(results.len(), 2);
    assert_eq!(results[0].score, Some(77));
    assert_eq!(results[0].vector, Some(vec![4, 5]));
    assert!(results[0].payload.is_none());
    assert_eq!(results[1].score, Some(99));
}

#[test]
fn similarity_search_outcome_wraps_backend_failure() {
    let fault = BackendError::new("stream closed".to_string());
    assert_eq!(
        similarity_search_outcome(Err(fault.clone())),
        Err(VectorDatabaseError::Backend(fault))
    );
}

#[test]
fn payload_round_trip_through_insert_and_search() {
    // A record inserted with a payload and handed back by a similarity
    // query yields the same payload, field for field.
    let payload = vec![
        ("title".to_string(), "guide".to_string()),
        ("page".to_string(), "12".to_string()),
    ];
    let point = Point::new(
        Some("doc-1".to_string()),
        vec![1, 2, 3],
        Some(payload.clone()),
    );
    let request = request_for("docs");
    let plan = plan_insert_point(&request, &point).expect("plan");
    let stored: BackendVector = plan.vectors.into_iter().next().expect("vector");
    let m = BackendMatch {
        id: stored.id,
        score: 42,
        values: stored.values,
        metadata: stored.metadata,
    };
    let results = search_results_from_matches(&vec![m]);
    assert_eq!(results[0].payload, Some(payload));
}

#[test]
fn list_of_collections_aggregates_all_indexes() {
    let all = vec![stats_with(&[("a", 1), ("b", 2)]), stats_with(&[("c", 3)])];
    let names = get_list_of_collections(&all).expect("names");
    assert_eq!(names, vec!["a".to_string(), "b".to_string(), "c".to_string()]);
}

#[test]
fn namespaces_for_index_lists_names_in_order() {
    let stats = stats_with(&[("x", 0), ("y", 4)]);
    assert_eq!(
        get_namespaces_for_index(&stats),
        vec!["x".to_string(), "y".to_string()]
    );
}

#[test]
fn get_indexes_swallows_listing_failures() {
    let listed = vec![
        IndexDescription {
            name: "north".to_string(),
            dimension: 8,
            metric: BackendMetric::Cosine,
        },
        IndexDescription {
            name: "south".to_string(),
            dimension: 8,
            metric: BackendMetric::Cosine,
        },
    ];
    assert_eq!(
        get_indexes(Ok(Some(listed))),
        vec!["north".to_string(), "south".to_string()]
    );
    assert!(get_indexes(Ok(None)).is_empty());
    assert!(get_indexes(Err(BackendError::new("down".to_string()))).is_empty());
}
