use qhull::{Face, QhError, QhErrorKind, Ridge, Vertex};

#[test]
fn known_codes_round_trip() {
    let cases = [
        (1, QhErrorKind::Input),
        (2, QhErrorKind::Singular),
        (3, QhErrorKind::Precision),
        (4, QhErrorKind::Memory),
        (5, QhErrorKind::Engine),
        (6, QhErrorKind::Unclassified),
        (7, QhErrorKind::Topology),
        (8, QhErrorKind::WideFacet),
        (9, QhErrorKind::Debugging),
    ];
    for (code, kind) in cases {
        assert_eq!(QhErrorKind::from_code(code), kind);
        assert_eq!(QhErrorKind::from_code(code).error_code(), code);
    }
}

#[test]
fn unknown_codes_are_kept_verbatim() {
    for code in [0, 10, 42, -1, -7, i32::MAX, i32::MIN] {
        let kind = QhErrorKind::from_code(code);
        assert_eq!(kind, QhErrorKind::Other(code));
        assert_eq!(kind.error_code(), code);
    }
}

#[test]
fn abort_assembly_classifies_and_keeps_parts() {
    let face = Face::from_ptr(0x1000, 2, false, 2, 0, 0).unwrap();
    let err = QhError::from_abort(3, Some("degenerate input".to_string()), Some(face), None, None);
    assert_eq!(err.kind, QhErrorKind::Precision);
    assert_eq!(err.error_message.as_deref(), Some("degenerate input"));
    assert!(err.face.is_some());
    assert!(err.ridge.is_none());
    assert!(err.vertex.is_none());
    assert!(err.has_context());
}

#[test]
fn into_static_discards_context_with_notices() {
    let face = Face::from_ptr(0x1000, 2, false, 2, 0, 0).unwrap();
    let ridge = Ridge::from_ptr(0x2000, 2).unwrap();
    let vertex = Vertex::from_ptr(0x3000, 2, false, 0x4000, 0, 0).unwrap();
    let err = QhError {
        kind: QhErrorKind::Topology,
        error_message: Some("boom".to_string()),
        face: Some(face),
        ridge: Some(ridge),
        vertex: Some(vertex),
    };
    let (owned, notices) = err.into_static();
    assert_eq!(owned.kind, QhErrorKind::Topology);
    assert_eq!(owned.error_message.as_deref(), Some("boom"));
    assert!(owned.face.is_none());
    assert!(owned.ridge.is_none());
    assert!(owned.vertex.is_none());
    assert!(!owned.has_context());
    assert_eq!(notices.len(), 3);
}

#[test]
fn into_static_without_context_is_lossless() {
    let err = QhError {
        kind: QhErrorKind::Other(1234),
        error_message: None,
        face: None,
        ridge: None,
        vertex: None,
    };
    let (owned, notices) = err.into_static();
    assert_eq!(owned.kind, QhErrorKind::Other(1234));
    assert_eq!(owned.error_message, None);
    assert_eq!(notices.len(), 0);
}
