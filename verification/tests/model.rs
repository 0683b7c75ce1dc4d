use vector_db_proxy::backend::{
    metadata_to_payload, payload_to_metadata, BackendMetadata, BackendMetric, MetadataValue,
};
use vector_db_proxy::errors::{kind_name, BackendError, VectorDatabaseError};
use vector_db_proxy::models::{
    Cloud, Distance, FilterConditions, Point, Region, SearchRequest, SearchType,
    VectorDatabaseStatus,
};

#[test]
fn metric_mapping_total_and_deterministic() {
    // Every backend metric maps to exactly one canonical value, and
    // repeated calls agree.
    for _ in 0..2 {
        assert_eq!(Distance::from_metric(BackendMetric::Cosine), Distance::Cosine);
        assert_eq!(Distance::from_metric(BackendMetric::Euclidean), Distance::Euclid);
        assert_eq!(Distance::from_metric(BackendMetric::Dotproduct), Distance::Dot);
    }
}

#[test]
fn metric_mapping_reverse_round_trip() {
    for m in [
        BackendMetric::Cosine,
        BackendMetric::Euclidean,
        BackendMetric::Dotproduct,
    ] {
        assert_eq!(Distance::to_metric(Distance::from_metric(m)), Some(m));
    }
    assert_eq!(Distance::to_metric(Distance::Manhattan), None);
    assert_eq!(Distance::to_metric(Distance::UnknownDistance), None);
}

#[test]
fn search_request_defaults_region_us_cloud_gcp() {
    let r = SearchRequest::new(SearchType::Similarity, "docs".to_string());
    assert_eq!(r.collection, "docs");
    assert_eq!(r.region, Some(Region::US));
    assert_eq!(r.cloud, Some(Cloud::GCP));
    assert!(r.id.is_none());
    assert!(r.vector.is_none());
    assert!(r.filters.is_none());
    assert!(r.search_response_params.is_none());
}

#[test]
fn region_locator_round_trip() {
    for rg in [Region::US, Region::EU, Region::AU] {
        assert_eq!(Region::parse(Region::to_str(rg)), Some(rg));
    }
    assert_eq!(Region::to_str(Region::US), "us-east-1");
    assert_eq!(Region::to_str(Region::EU), "eu-west-1");
    assert_eq!(Region::to_str(Region::AU), "ap-southeast-2");
    assert_eq!(Region::parse("mars-north-1"), None);
}

#[test]
fn cloud_tokens_are_canonical() {
    assert_eq!(Cloud::to_str(Cloud::GCP), "gcp");
    assert_eq!(Cloud::to_str(Cloud::AWS), "aws");
    assert_eq!(Cloud::to_str(Cloud::AZURE), "azure");
}

#[test]
fn status_from_bool_and_code() {
    assert_eq!(VectorDatabaseStatus::from_bool(true), VectorDatabaseStatus::Okay);
    assert_eq!(VectorDatabaseStatus::from_bool(false), VectorDatabaseStatus::Failure);
    assert_eq!(
        VectorDatabaseStatus::from_collection_status_code(1),
        VectorDatabaseStatus::Okay
    );
    assert_eq!(
        VectorDatabaseStatus::from_collection_status_code(2),
        VectorDatabaseStatus::Failure
    );
    match VectorDatabaseStatus::from_collection_status_code(7) {
        VectorDatabaseStatus::Error(VectorDatabaseError::Other(m)) => assert!(!m.is_empty()),
        other => panic!("expected Error(Other), got {:?}", other),
    }
}

#[test]
fn filter_conditions_default_is_empty() {
    let f = FilterConditions::default();
    assert!(f.must.is_none());
    assert!(f.must_not.is_none());
    assert!(f.should.is_none());
}

#[test]
fn point_new_keeps_fields() {
    let p = Point::new(
        Some("id".to_string()),
        vec![1, 2],
        Some(vec![("k".to_string(), "v".to_string())]),
    );
    assert_eq!(p.index, Some("id".to_string()));
    assert_eq!(p.vector, vec![1, 2]);
    assert_eq!(p.payload, Some(vec![("k".to_string(), "v".to_string())]));
}

#[test]
fn payload_metadata_round_trip_exact() {
    let payload = vec![
        ("author".to_string(), "kim".to_string()),
        ("year".to_string(), "2021".to_string()),
    ];
    let md = payload_to_metadata(&payload);
    assert_eq!(md.fields.len(), 2);
    assert_eq!(
        md.fields[0],
        ("author".to_string(), MetadataValue::Text("kim".to_string()))
    );
    assert_eq!(metadata_to_payload(&md), payload);
}

#[test]
fn metadata_non_text_fields_are_not_payload() {
    let md = BackendMetadata {
        fields: vec![
            ("flag".to_string(), MetadataValue::Truth(true)),
            ("name".to_string(), MetadataValue::Text("x".to_string())),
            ("gone".to_string(), MetadataValue::Null),
        ],
    };
    assert_eq!(
        metadata_to_payload(&md),
        vec![("name".to_string(), "x".to_string())]
    );
}

#[test]
fn error_kinds_have_names_and_messages() {
    let errors = [
        VectorDatabaseError::NotFound("docs".to_string()),
        VectorDatabaseError::Backend(BackendError::new("boom".to_string())),
        VectorDatabaseError::Other("bad request".to_string()),
        VectorDatabaseError::Unimplemented("scroll".to_string()),
    ];
    for e in errors {
        assert!(!kind_name(&e).is_empty());
        assert!(!e.describe().is_empty());
    }
    assert_eq!(
        kind_name(&VectorDatabaseError::NotFound(String::new())),
        "not found"
    );
}

#[test]
fn describe_renders_kind_and_message() {
    let e = VectorDatabaseError::NotFound("docs".to_string());
    assert_eq!(e.describe(), "not found: docs");
    let b = VectorDatabaseError::Backend(BackendError::new("socket closed".to_string()));
    assert_eq!(b.describe(), "backend error: socket closed");
}
