use bridgestan::{
    check_version, construct_result, eval_result, Bridgestan, BridgeStanError, DataPayload,
    InstanceState, LibraryRefs, LoadError, ModelInfo, ParamCounts, QueryError, Version,
};

fn this_program() -> libloading::Library {
    libloading::os::unix::Library::this().into()
}

fn one_param() -> ParamCounts {
    ParamCounts::from_queries(1, 1, 1, 1).unwrap()
}

#[test]
fn expected_version_is_compatible() {
    let v = Version::expected();
    assert_eq!(v, Version::new(2, 0, 0));
    assert!(v.is_compatible());
    assert_eq!(check_version(v), Ok(()));
}

#[test]
fn later_minor_version_is_refused() {
    let found = Version::new(2, 7, 3);
    assert!(!found.is_compatible());
    assert_eq!(
        check_version(found),
        Err(LoadError::VersionMismatch { expected: Version::new(2, 0, 0), found })
    );
}

#[test]
fn other_patch_version_is_refused() {
    let found = Version::new(2, 0, 1);
    assert!(!found.is_compatible());
    assert_eq!(
        check_version(found),
        Err(LoadError::VersionMismatch { expected: Version::new(2, 0, 0), found })
    );
}

#[test]
fn other_major_version_is_refused() {
    let found = Version::new(1, 9, 0);
    assert!(!found.is_compatible());
    assert_eq!(
        check_version(found),
        Err(LoadError::VersionMismatch { expected: Version::new(2, 0, 0), found })
    );
    assert_eq!(
        check_version(Version::new(3, 0, 0)),
        Err(LoadError::VersionMismatch {
            expected: Version::new(2, 0, 0),
            found: Version::new(3, 0, 0)
        })
    );
}

#[test]
fn library_with_compatible_version_is_admitted() {
    let b = Bridgestan::new(this_program(), Version::new(2, 0, 0)).unwrap();
    assert_eq!(b.version(), Version::new(2, 0, 0));
    let _library: libloading::Library = b.into_library();
}

#[test]
fn library_with_wrong_version_is_refused() {
    let r = Bridgestan::new(this_program(), Version::new(1, 0, 0));
    match r {
        Err(e) => assert_eq!(
            e,
            LoadError::VersionMismatch {
                expected: Version::new(2, 0, 0),
                found: Version::new(1, 0, 0)
            }
        ),
        Ok(_) => panic!("an incompatible library was admitted"),
    }
}

#[test]
fn payload_gets_terminator() {
    let p = DataPayload::from_bytes(b"{\"N\": 3}").unwrap();
    assert_eq!(p.as_bytes(), b"{\"N\": 3}\0");
}

#[test]
fn payload_with_terminator_is_kept() {
    let p = DataPayload::from_bytes(b"abc\0").unwrap();
    assert_eq!(p.as_bytes(), b"abc\0");
}

#[test]
fn empty_payload_is_one_nul() {
    assert_eq!(DataPayload::from_bytes(b"").unwrap().as_bytes(), b"\0");
    assert_eq!(DataPayload::from_bytes(b"\0").unwrap().as_bytes(), b"\0");
}

#[test]
fn payload_with_interior_nul_is_refused() {
    assert_eq!(
        DataPayload::from_bytes(b"a\0b").err(),
        Some(BridgeStanError::InvalidData(1))
    );
    assert_eq!(
        DataPayload::from_bytes(b"\0\0").err(),
        Some(BridgeStanError::InvalidData(0))
    );
    assert_eq!(
        DataPayload::from_bytes(b"ab\0c\0d\0").err(),
        Some(BridgeStanError::InvalidData(2))
    );
}

#[test]
fn produced_model_is_success() {
    assert_eq!(construct_result(true, None), Ok(()));
    assert_eq!(construct_result(true, Some("ignored".to_string())), Ok(()));
}

#[test]
fn construct_failure_keeps_marker() {
    let message = "Error in 'throw_data': find this text: datafails (line 4)".to_string();
    let Err(BridgeStanError::ConstructFailed(msg)) = construct_result(false, Some(message.clone()))
    else {
        panic!("a failed construction was not reported as ConstructFailed");
    };
    assert!(msg.contains("find this text: datafails"));
    assert_eq!(msg, message);
}

#[test]
fn construct_failure_without_message() {
    assert_eq!(
        construct_result(false, None),
        Err(BridgeStanError::ConstructFailed(String::new()))
    );
}

#[test]
fn evaluation_status_maps_to_result() {
    assert_eq!(eval_result(0, Some("unused".to_string())), Ok(()));
    assert_eq!(
        eval_result(-1, Some("log_density: y is nan".to_string())),
        Err(BridgeStanError::EvaluationFailed("log_density: y is nan".to_string()))
    );
    assert_eq!(
        eval_result(2, None),
        Err(BridgeStanError::EvaluationFailed(String::new()))
    );
}

#[test]
fn consistent_counts_are_cached() {
    let c = ParamCounts::from_queries(2, 3, 4, 5).unwrap();
    assert_eq!(c.param_count(false, false), 2);
    assert_eq!(c.param_count(true, false), 3);
    assert_eq!(c.param_count(false, true), 4);
    assert_eq!(c.param_count(true, true), 5);
}

#[test]
fn inconsistent_counts_are_refused() {
    let bad = Err(BridgeStanError::Query(QueryError::InconsistentCounts));
    assert_eq!(ParamCounts::from_queries(2, 3, 4, 6), bad);
    assert_eq!(ParamCounts::from_queries(3, 2, 4, 3), bad);
    assert_eq!(ParamCounts::from_queries(3, 4, 2, 3), bad);
    assert_eq!(ParamCounts::from_queries(0, i32::MAX, i32::MAX, i32::MAX), bad);
    assert_eq!(ParamCounts::from_queries(1, i32::MAX, i32::MAX, i32::MAX), bad);
}

#[test]
fn negative_counts_are_refused() {
    let bad = Err(BridgeStanError::Query(QueryError::NegativeCount));
    assert_eq!(ParamCounts::from_queries(-1, 0, 0, 0), bad);
    assert_eq!(ParamCounts::from_queries(1, -1, 1, 1), bad);
    assert_eq!(ParamCounts::from_queries(1, 1, -3, 1), bad);
    assert_eq!(ParamCounts::from_queries(1, 1, 1, -1), bad);
}

#[test]
fn large_consistent_counts_are_cached() {
    let c = ParamCounts::from_queries(i32::MAX - 2, i32::MAX - 1, i32::MAX - 1, i32::MAX).unwrap();
    assert_eq!(c.param_count(true, true), i32::MAX as usize);
}

#[test]
fn missing_model_name_is_refused() {
    assert_eq!(
        ModelInfo::from_queries(None, one_param()).err(),
        Some(BridgeStanError::Query(QueryError::NoName))
    );
}

#[test]
fn model_name_is_decoded() {
    let info = ModelInfo::from_queries(Some(&b"stdnormal_model"[..]), one_param()).unwrap();
    assert_eq!(info.name(), "stdnormal_model");
    assert!(info.name().contains("stdnormal"));
    assert_eq!(info.param_count(false, false), 1);
    assert_eq!(info.counts(), one_param());
}

#[test]
fn model_name_in_utf8_is_decoded() {
    let info = ModelInfo::from_queries(Some("mod\u{e8}le".as_bytes()), one_param()).unwrap();
    assert_eq!(info.name(), "mod\u{e8}le");
}

#[test]
fn model_name_not_utf8_is_refused() {
    assert_eq!(
        ModelInfo::from_queries(Some(&[0x73, 0xff, 0x6e][..]), one_param()).err(),
        Some(BridgeStanError::Query(QueryError::InvalidEncoding))
    );
}

#[test]
fn evaluation_buffers_must_match_parameter_count() {
    let info = ModelInfo::from_queries(Some(&b"stdnormal_model"[..]), one_param()).unwrap();
    assert!(info.lengths_match(1, 1));
    assert!(!info.lengths_match(0, 0));
    assert!(!info.lengths_match(1, 0));
    assert!(!info.lengths_match(0, 1));
    assert!(!info.lengths_match(2, 2));
}

#[test]
fn evaluation_length_ignores_generated_quantities() {
    let c = ParamCounts::from_queries(2, 3, 5, 6).unwrap();
    let info = ModelInfo::from_queries(Some(&b"m"[..]), c).unwrap();
    assert!(info.lengths_match(2, 2));
    assert!(!info.lengths_match(6, 6));
}

fn library_with_instances(n: usize) -> LibraryRefs {
    let mut refs = LibraryRefs::opened();
    for _ in 0..n {
        assert_eq!(refs.construct(true), InstanceState::Live);
    }
    refs
}

#[test]
fn unload_waits_for_last_instance_forward() {
    let mut refs = library_with_instances(3);
    assert_eq!(refs.holders(), 4);
    // instances first, handle last
    assert!(!refs.release());
    assert!(!refs.release());
    assert!(!refs.release());
    assert!(refs.release());
    assert_eq!(refs.holders(), 0);
}

#[test]
fn unload_waits_for_last_instance_handle_first() {
    let mut refs = library_with_instances(2);
    // the handle goes first; the instances keep the library loaded
    assert!(!refs.release());
    assert!(!refs.release());
    assert!(refs.release());
}

#[test]
fn cloned_handle_is_a_holder() {
    let mut refs = LibraryRefs::opened();
    refs.share();
    assert_eq!(refs.holders(), 2);
    assert!(!refs.release());
    assert!(refs.release());
}

#[test]
fn failed_construction_leaves_count() {
    let mut refs = LibraryRefs::opened();
    assert_eq!(refs.construct(false), InstanceState::Gone);
    assert_eq!(refs.holders(), 1);
    assert_eq!(refs.construct(false), InstanceState::Gone);
    assert_eq!(refs.holders(), 1);
    assert!(refs.release());
}

#[test]
fn destroyed_instance_is_gone() {
    assert_eq!(InstanceState::Live.after_destroy(), InstanceState::Gone);
}
