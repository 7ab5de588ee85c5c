use qhull::{Face, Ridge, Vertex};

#[test]
fn absent_references_yield_no_view() {
    assert!(Face::from_ptr(0, 2, false, 0, 0, 0).is_none());
    assert!(Ridge::from_ptr(0, 2).is_none());
    assert!(Vertex::from_ptr(0, 2, false, 0, 0, 0).is_none());
}

#[test]
fn present_references_keep_their_attributes() {
    let f = Face::from_ptr(0x100, 3, false, 3, 0x200, 0).unwrap();
    assert_eq!(f.addr, 0x100);
    assert_eq!(f.dim, 3);
    assert!(!f.is_sentinel());
    assert_eq!(f.vertex_count, 3);

    let r = Ridge::from_ptr(0x200, 3).unwrap();
    assert_eq!(r.addr, 0x200);
    assert_eq!(r.dim, 3);

    let v = Vertex::from_ptr(0x300, 3, true, 0x400, 0, 0x250).unwrap();
    assert_eq!(v.addr, 0x300);
    assert!(v.is_sentinel());
    assert_eq!(v.point(), Some(0x400));
}

#[test]
fn a_vertex_without_coordinates_has_no_point() {
    let v = Vertex::from_ptr(0x300, 2, false, 0, 0, 0).unwrap();
    assert_eq!(v.point(), None);
}

#[test]
fn simplicial_compares_vertex_count_with_dimensionality() {
    assert!(Face::from_ptr(0x100, 2, false, 2, 0, 0).unwrap().simplicial());
    assert!(!Face::from_ptr(0x100, 2, false, 3, 0, 0).unwrap().simplicial());
}

#[test]
fn identity_is_address_equality() {
    let a = Face::from_ptr(0x100, 2, false, 2, 0, 0).unwrap();
    let b = Face::from_ptr(0x100, 2, true, 7, 0, 0).unwrap();
    let c = Face::from_ptr(0x101, 2, false, 2, 0, 0).unwrap();
    assert!(a.same_node(&b));
    assert!(!a.same_node(&c));

    let va = Vertex::from_ptr(0x300, 2, false, 0, 0, 0).unwrap();
    let vb = Vertex::from_ptr(0x300, 2, false, 0x400, 0, 0).unwrap();
    assert!(va.same_node(&vb));

    let ra = Ridge::from_ptr(0x200, 2).unwrap();
    let rb = Ridge::from_ptr(0x201, 2).unwrap();
    assert!(!ra.same_node(&rb));
}
